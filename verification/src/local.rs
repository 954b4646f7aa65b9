use vstd::prelude::*;
use crate::text::{chars_of, joined_text, decimal_text, i64_text, text_of};

verus! {

/// The path that `std::path::Path::join` makes of `base` and `part` on the
/// platform the library is built for.
pub uninterp spec fn path_join(base: Seq<char>, part: Seq<char>) -> Seq<char>;

/// Joins one path onto another.
///
/// Trusted: wraps `std::path::Path::join`; its result is taken to be a
/// function of the two texts alone, named [`path_join`]. Both arguments are
/// valid UTF-8, so the joined path is too and reads back as text unchanged.
#[verifier::external_body]
fn join_two(base: &str, part: &str) -> (joined: String)
    ensures
        joined@ == path_join(base@, part@),
{
    std::path::Path::new(base).join(part).to_string_lossy().into_owned()
}

/// The path made by joining `parts` in order, starting from the empty path.
pub open spec fn joined_path(parts: Seq<Seq<char>>) -> Seq<char>
    decreases parts.len(),
{
    if parts.len() == 0 {
        Seq::empty()
    } else {
        path_join(joined_path(parts.drop_last()), parts.last())
    }
}

/// The characters of each text of a list.
pub open spec fn texts_view(texts: Seq<&str>) -> Seq<Seq<char>> {
    Seq::new(texts.len(), |i: int| texts[i]@)
}

/// Joins path segments in order into one path; no segments give the empty text.
pub fn join_paths(paths: Vec<&str>) -> (path: String)
    ensures
        path@ == joined_path(texts_view(paths@)),
{
    let mut path = String::new();
    let mut i: usize = 0;
    while i < paths.len()
        invariant
            0 <= i <= paths.len(),
            path@ == joined_path(texts_view(paths@).subrange(0, i as int)),
        decreases paths.len() - i,
    {
        proof {
            let longer = texts_view(paths@).subrange(0, i + 1);
            assert(longer.drop_last() =~= texts_view(paths@).subrange(0, i as int));
            assert(longer.last() == paths@[i as int]@);
        }
        path = join_two(path.as_str(), paths[i]);
        i = i + 1;
    }
    assert(texts_view(paths@).subrange(0, i as int) =~= texts_view(paths@));
    path
}

/// The directory for files that need not outlive the run.
pub fn template_dir() -> (dir: String)
    ensures
        dir@ == "/tmp"@,
{
    "/tmp".to_owned()
}

/// Whether `c` may not stand in a file name.
pub open spec fn is_forbidden(c: char) -> bool {
    c == '|' || c == '?' || c == ':' || c == '>' || c == '<' || c == '/' || c == '\\' || c == '*'
        || c == '&'
}

/// The character that stands for `c` in a file name: an underscore for a
/// forbidden one, `c` itself otherwise.
pub open spec fn allowed_char(c: char) -> char {
    if is_forbidden(c) {
        '_'
    } else {
        c
    }
}

/// The file name for `name`: each character replaced by what stands for it.
pub open spec fn allowed_text(name: Seq<char>) -> Seq<char> {
    Seq::new(name.len(), |i: int| allowed_char(name[i]))
}

/// Makes a text fit for a file name: every forbidden character becomes an
/// underscore, every other character and the length stay.
pub fn allowed_file_name(name: &str) -> (allowed: String)
    ensures
        allowed@ == allowed_text(name@),
{
    let chars = chars_of(name);
    let mut out: Vec<char> = Vec::new();
    let mut i: usize = 0;
    while i < chars.len()
        invariant
            0 <= i <= chars.len(),
            out@ =~= allowed_text(chars@.subrange(0, i as int)),
        decreases chars.len() - i,
    {
        let c = chars[i];
        let kept = if c == '|' || c == '?' || c == ':' || c == '>' || c == '<' || c == '/' || c
            == '\\' || c == '*' || c == '&' {
            '_'
        } else {
            c
        };
        out.push(kept);
        i = i + 1;
    }
    assert(chars@.subrange(0, i as int) =~= chars@);
    text_of(&out)
}

/// A file name that was made fit holds no forbidden character.
pub proof fn lemma_allowed_text_is_clean(name: Seq<char>)
    ensures
        allowed_text(name).len() == name.len(),
        forall|i: int| 0 <= i < name.len() ==> !is_forbidden(#[trigger] allowed_text(name)[i]),
{
}

/// Making a file name fit a second time changes nothing.
pub proof fn lemma_allowed_text_idempotent(name: Seq<char>)
    ensures
        allowed_text(allowed_text(name)) == allowed_text(name),
{
    assert(allowed_text(allowed_text(name)) =~= allowed_text(name));
}

/// The files of one item: its two streams and the merged output, side by side.
#[derive(Clone, Debug, PartialEq, Eq)]
pub struct ItemFiles {
    /// Where the audio stream is written.
    pub audio: String,
    /// Where the video stream is written.
    pub video: String,
    /// The merged file, whose presence marks the item as done.
    pub output: String,
}

/// The name of an episode before it is made fit: its number, a full stop, its
/// short title in brackets and its long title.
pub open spec fn episode_title(number: int, short_title: Seq<char>, long_title: Seq<char>) -> Seq<char> {
    decimal_text(number) + ". ("@ + short_title + ") "@ + long_title
}

/// The name of a season's directory before it is made fit: its identifier,
/// its title in brackets and the season's title.
pub open spec fn season_title(id: int, title: Seq<char>, season: Seq<char>) -> Seq<char> {
    decimal_text(id) + " ("@ + title + ") "@ + season
}

/// The file name of an episode, without an extension.
pub fn episode_name(number: i64, short_title: &str, long_title: &str) -> (name: String)
    ensures
        name@ == allowed_text(episode_title(number as int, short_title@, long_title@)),
{
    let head = i64_text(number);
    let a = joined_text(head.as_str(), ". (");
    let b = joined_text(a.as_str(), short_title);
    let c = joined_text(b.as_str(), ") ");
    let d = joined_text(c.as_str(), long_title);
    allowed_file_name(d.as_str())
}

/// The directory name of a season.
pub fn season_dir_name(id: i64, title: &str, season: &str) -> (name: String)
    ensures
        name@ == allowed_text(season_title(id as int, title@, season@)),
{
    let head = i64_text(id);
    let a = joined_text(head.as_str(), " (");
    let b = joined_text(a.as_str(), title);
    let c = joined_text(b.as_str(), ") ");
    let d = joined_text(c.as_str(), season);
    allowed_file_name(d.as_str())
}

/// The files of the item called `name` in the directory `dir`.
pub open spec fn files_in(dir: Seq<char>, name: Seq<char>) -> (Seq<char>, Seq<char>, Seq<char>) {
    (
        path_join(dir, name + ".audio"@),
        path_join(dir, name + ".video"@),
        path_join(dir, name + ".mp4"@),
    )
}

/// Lays out the files of the item called `name` inside `dir`: the streams as
/// `<name>.audio` and `<name>.video`, the merged file as `<name>.mp4`.
pub fn item_files(dir: &str, name: &str) -> (files: ItemFiles)
    ensures
        (files.audio@, files.video@, files.output@) == files_in(dir@, name@),
{
    let audio_name = joined_text(name, ".audio");
    let video_name = joined_text(name, ".video");
    let output_name = joined_text(name, ".mp4");
    ItemFiles {
        audio: join_two(dir, audio_name.as_str()),
        video: join_two(dir, video_name.as_str()),
        output: join_two(dir, output_name.as_str()),
    }
}

} // verus!
