use vstd::prelude::*;
use crate::error::Error;
use crate::text::{joined_text, decimal_text, i64_text};

verus! {

/// A season of a series, as the platform lists it.
#[derive(Clone, Debug, PartialEq, Eq)]
pub struct Season {
    /// The season's identifier.
    pub id: i64,
    /// The season's title.
    pub title: String,
}

/// The identifiers of the seasons of a list.
pub open spec fn season_ids(seasons: Seq<Season>) -> Seq<i64> {
    Seq::new(seasons.len(), |i: int| seasons[i].id)
}

/// The line that offers a season for selection: its identifier and, in
/// brackets, its title.
pub open spec fn selection_text(id: i64, title: Seq<char>) -> Seq<char> {
    decimal_text(id as int) + " ("@ + title + ")"@
}

/// The key under which the platform knows a season: `ss` and its identifier.
pub open spec fn season_key_text(id: i64) -> Seq<char> {
    "ss"@ + decimal_text(id as int)
}

/// The label of an audio stream: its bit rate where the identifier is one of
/// the three known ones, `AUDIO-` and the identifier otherwise.
pub open spec fn audio_label_text(id: i64) -> Seq<char> {
    if id == 30216 {
        "64K"@
    } else if id == 30232 {
        "132K"@
    } else if id == 30280 {
        "192K"@
    } else {
        "AUDIO-"@ + decimal_text(id as int)
    }
}

/// The entries of `all` whose position is among `picks`, in the order of `all`.
pub open spec fn picked(all: Seq<i64>, picks: Seq<usize>) -> Seq<i64>
    decreases all.len(),
{
    if all.len() == 0 {
        Seq::empty()
    } else if picks.contains((all.len() - 1) as usize) {
        picked(all.drop_last(), picks).push(all.last())
    } else {
        picked(all.drop_last(), picks)
    }
}

/// The positions of the entries of `all` that occur in `wanted`, ascending.
pub open spec fn wanted_positions(all: Seq<i64>, wanted: Seq<i64>) -> Seq<usize>
    decreases all.len(),
{
    if all.len() == 0 {
        Seq::empty()
    } else if wanted.contains(all.last()) {
        wanted_positions(all.drop_last(), wanted).push((all.len() - 1) as usize)
    } else {
        wanted_positions(all.drop_last(), wanted)
    }
}

/// Whether the pages fetched so far fall short of the declared total.
pub open spec fn pages_remain(page_size: i64, page_num: i64, total: i64) -> bool {
    page_size * page_num < total
}

/// The line that offers a season for selection.
pub fn selection_title(season: &Season) -> (line: String)
    ensures
        line@ == selection_text(season.id, season.title@),
{
    let head = i64_text(season.id);
    let a = joined_text(head.as_str(), " (");
    let b = joined_text(a.as_str(), season.title.as_str());
    joined_text(b.as_str(), ")")
}

/// The key under which the platform knows the season `id`.
pub fn season_key(id: i64) -> (key: String)
    ensures
        key@ == season_key_text(id),
{
    let digits = i64_text(id);
    joined_text("ss", digits.as_str())
}

/// The label under which an audio stream is offered.
pub fn audio_label(id: i64) -> (label: String)
    ensures
        label@ == audio_label_text(id),
{
    if id == 30216 {
        "64K".to_owned()
    } else if id == 30232 {
        "132K".to_owned()
    } else if id == 30280 {
        "192K".to_owned()
    } else {
        let digits = i64_text(id);
        joined_text("AUDIO-", digits.as_str())
    }
}

/// Whether `wanted` occurs in `ids`.
pub fn contains_id(ids: &Vec<i64>, wanted: i64) -> (found: bool)
    ensures
        found == ids@.contains(wanted),
{
    let mut i: usize = 0;
    while i < ids.len()
        invariant
            0 <= i <= ids.len(),
            forall|j: int| 0 <= j < i ==> ids@[j] != wanted,
        decreases ids.len() - i,
    {
        if ids[i] == wanted {
            return true;
        }
        i = i + 1;
    }
    false
}

/// Whether `wanted` occurs in `positions`.
fn contains_position(positions: &Vec<usize>, wanted: usize) -> (found: bool)
    ensures
        found == positions@.contains(wanted),
{
    let mut i: usize = 0;
    while i < positions.len()
        invariant
            0 <= i <= positions.len(),
            forall|j: int| 0 <= j < i ==> positions@[j] != wanted,
        decreases positions.len() - i,
    {
        if positions[i] == wanted {
            return true;
        }
        i = i + 1;
    }
    false
}

/// The identifiers of all seasons, in order.
pub fn all_ids(seasons: &Vec<Season>) -> (ids: Vec<i64>)
    ensures
        ids@ == season_ids(seasons@),
{
    let mut ids: Vec<i64> = Vec::new();
    let mut i: usize = 0;
    while i < seasons.len()
        invariant
            0 <= i <= seasons.len(),
            ids@ =~= season_ids(seasons@).subrange(0, i as int),
        decreases seasons.len() - i,
    {
        ids.push(seasons[i].id);
        i = i + 1;
    }
    assert(season_ids(seasons@).subrange(0, i as int) =~= season_ids(seasons@));
    ids
}

/// The identifiers of the seasons whose positions were picked, in the order
/// of the seasons. Positions beyond the list pick nothing.
pub fn selected_ids(seasons: &Vec<Season>, picks: &Vec<usize>) -> (ids: Vec<i64>)
    ensures
        ids@ == picked(season_ids(seasons@), picks@),
{
    let mut ids: Vec<i64> = Vec::new();
    let mut i: usize = 0;
    while i < seasons.len()
        invariant
            0 <= i <= seasons.len(),
            ids@ == picked(season_ids(seasons@).subrange(0, i as int), picks@),
        decreases seasons.len() - i,
    {
        proof {
            let longer = season_ids(seasons@).subrange(0, i + 1);
            assert(longer.drop_last() =~= season_ids(seasons@).subrange(0, i as int));
            assert(longer.last() == seasons@[i as int].id);
        }
        if contains_position(picks, i) {
            ids.push(seasons[i].id);
        }
        i = i + 1;
    }
    assert(season_ids(seasons@).subrange(0, i as int) =~= season_ids(seasons@));
    ids
}

/// The positions of the seasons whose identifier is among `wanted`,
/// ascending: the seasons that a run looks at, in the order it does.
pub fn fetched_positions(seasons: &Vec<Season>, wanted: &Vec<i64>) -> (positions: Vec<usize>)
    ensures
        positions@ == wanted_positions(season_ids(seasons@), wanted@),
{
    let mut positions: Vec<usize> = Vec::new();
    let mut i: usize = 0;
    while i < seasons.len()
        invariant
            0 <= i <= seasons.len(),
            positions@ == wanted_positions(season_ids(seasons@).subrange(0, i as int), wanted@),
        decreases seasons.len() - i,
    {
        proof {
            let longer = season_ids(seasons@).subrange(0, i + 1);
            assert(longer.drop_last() =~= season_ids(seasons@).subrange(0, i as int));
            assert(longer.last() == seasons@[i as int].id);
        }
        if contains_id(wanted, seasons[i].id) {
            positions.push(i);
        }
        i = i + 1;
    }
    assert(season_ids(seasons@).subrange(0, i as int) =~= season_ids(seasons@));
    positions
}

/// Finds the stream of the wanted quality: the position of the first entry
/// of `ids` that equals `wanted`, if there is one.
pub fn pick_stream(ids: &Vec<i64>, wanted: i64) -> (position: Option<usize>)
    ensures
        position is Some <==> ids@.contains(wanted),
        position is Some ==> {
            &&& position->0 < ids.len()
            &&& ids@[position->0 as int] == wanted
            &&& forall|j: int| 0 <= j < position->0 ==> ids@[j] != wanted
        },
{
    let mut i: usize = 0;
    while i < ids.len()
        invariant
            0 <= i <= ids.len(),
            forall|j: int| 0 <= j < i ==> ids@[j] != wanted,
        decreases ids.len() - i,
    {
        if ids[i] == wanted {
            return Some(i);
        }
        i = i + 1;
    }
    None
}

/// The URL of the stream to transfer: the first that the platform offers.
/// An item for which it offers none cannot be fetched.
pub fn first_url(urls: &Vec<String>) -> (url: Result<String, Error>)
    ensures
        url is Ok <==> urls.len() > 0,
        url is Ok ==> (url->Ok_0)@ == urls@[0]@,
        url is Err ==> url->Err_0 == Error::MetadataFetchError,
{
    if urls.len() > 0 {
        Ok(urls[0].clone())
    } else {
        Err(Error::MetadataFetchError)
    }
}

/// Whether another page of a collection is to be fetched: the pages so far,
/// each of `page_size` entries, hold fewer than `total`.
pub fn has_more_pages(page_size: i64, page_num: i64, total: i64) -> (more: bool)
    ensures
        more == pages_remain(page_size, page_num, total),
{
    let fetched: i128 = wide_product(page_size, page_num);
    fetched < total as i128
}

/// The product of two 64-bit numbers, which fits 128 bits.
fn wide_product(a: i64, b: i64) -> (product: i128)
    ensures
        product == a * b,
{
    assert(-0x4000_0000_0000_0000_0000_0000_0000_0000 <= a * b
        <= 0x4000_0000_0000_0000_0000_0000_0000_0000) by (nonlinear_arith)
        requires
            -0x8000_0000_0000_0000 <= a <= 0x7fff_ffff_ffff_ffff,
            -0x8000_0000_0000_0000 <= b <= 0x7fff_ffff_ffff_ffff,
    ;
    (a as i128) * (b as i128)
}

/// Every picked identifier belongs to a season of the list, and a season is
/// picked exactly when its position is.
pub proof fn lemma_picked_members(all: Seq<i64>, picks: Seq<usize>, id: i64)
    ensures
        picked(all, picks).contains(id) <==> exists|i: int|
            0 <= i < all.len() && all[i] == id && picks.contains(i as usize),
    decreases all.len(),
{
    if all.len() > 0 {
        let shorter = all.drop_last();
        lemma_picked_members(shorter, picks, id);
        let last = (all.len() - 1) as int;
        if picked(all, picks).contains(id) {
            if picks.contains(last as usize) {
                let k = choose|k: int| 0 <= k < picked(all, picks).len() && picked(all, picks)[k] == id;
                if k == picked(shorter, picks).len() {
                    assert(all[last] == id);
                } else {
                    assert(picked(shorter, picks)[k] == id);
                    let w = choose|i: int| 0 <= i < shorter.len() && shorter[i] == id && picks.contains(i as usize);
                    assert(all[w] == id);
                }
            } else {
                let w = choose|i: int| 0 <= i < shorter.len() && shorter[i] == id && picks.contains(i as usize);
                assert(all[w] == id);
            }
        }
        if exists|i: int| 0 <= i < all.len() && all[i] == id && picks.contains(i as usize) {
            let w = choose|i: int| 0 <= i < all.len() && all[i] == id && picks.contains(i as usize);
            if w == last {
                let p = picked(all, picks);
                assert(p[p.len() - 1] == id);
            } else {
                assert(shorter[w] == id);
                assert(picked(shorter, picks).contains(id));
                let k = choose|k: int| 0 <= k < picked(shorter, picks).len() && picked(shorter, picks)[k] == id;
                assert(picked(all, picks)[k] == id);
            }
        }
    }
}

} // verus!
