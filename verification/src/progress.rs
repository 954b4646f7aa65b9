use vstd::prelude::*;
use crate::text::joined_text;

verus! {

/// The characters that draw the filled part, the head and the rest of the bar.
pub const PROGRESS_CHARS: &'static str = "#>-";

/// The template of the bar for a transfer called `title`.
pub open spec fn template_text(title: Seq<char>) -> Seq<char> {
    "{spinner:.green}  "@ + title + " [{wide_bar:.cyan/blue}] {bytes}/{total_bytes}"@
}

/// The template of the bar for a transfer called `title`: a spinner, the
/// title, the bar, and the bytes done of the bytes in all.
pub fn progress_template(title: &str) -> (template: String)
    ensures
        template@ == template_text(title@),
{
    let head = joined_text("{spinner:.green}  ", title);
    joined_text(head.as_str(), " [{wide_bar:.cyan/blue}] {bytes}/{total_bytes}")
}

/// What a display shows of a transfer: a position that never moves back, of
/// a total that is given from outside.
///
/// It only observes. Nothing that it is told can fail, so that drawing never
/// stops a transfer.
#[derive(Clone, Copy, Debug, PartialEq, Eq, Structural)]
pub struct Progress {
    /// The number of bytes that the display counts as all.
    pub total: u64,
    /// The number of bytes that the display counts as done.
    pub position: u64,
    /// Whether the display was cleared.
    pub finished: bool,
}

impl Progress {
    /// A display for `total` bytes that starts at `offset`, which is above
    /// zero for a transfer that resumes.
    pub fn start(total: u64, offset: u64) -> (progress: Progress)
        ensures
            progress == (Progress { total, position: offset, finished: false }),
    {
        Progress { total, position: offset, finished: false }
    }

    /// Moves the display to the byte counter `count`. A counter behind the
    /// position is ignored: the display never moves back.
    pub fn observe(&mut self, count: u64)
        ensures
            *final(self) == (Progress {
                position: if count >= old(self).position {
                    count
                } else {
                    old(self).position
                },
                ..*old(self)
            }),
            final(self).position >= old(self).position,
    {
        if count >= self.position {
            self.position = count;
        }
    }

    /// Moves the display on by `len` bytes, stopping at the largest count
    /// that 64 bits hold.
    pub fn advance(&mut self, len: u64)
        ensures
            *final(self) == (Progress {
                position: if old(self).position + len <= u64::MAX {
                    (old(self).position + len) as u64
                } else {
                    u64::MAX
                },
                ..*old(self)
            }),
            final(self).position >= old(self).position,
    {
        self.position = if len <= u64::MAX - self.position {
            self.position + len
        } else {
            u64::MAX
        };
    }

    /// Clears the display. The counters stay as they are.
    pub fn finish(&mut self)
        ensures
            *final(self) == (Progress { finished: true, ..*old(self) }),
    {
        self.finished = true;
    }
}

} // verus!
