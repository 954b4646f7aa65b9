use vstd::prelude::*;
use crate::error::Error;
use crate::ffmpeg::{strings_view, MergeJob, MergeJobView};
use crate::local::{
    allowed_file_name, allowed_text, episode_name, episode_title, files_in, item_files, ItemFiles,
};

verus! {

/// What a stream of an item holds.
#[derive(Clone, Copy, Debug, PartialEq, Eq, Structural)]
pub enum StreamKind {
    /// Sound only.
    Audio,
    /// Picture only.
    Video,
    /// Sound and picture in one stream, which needs no merge.
    Muxed,
}

/// The file of an item that a stream of the given kind is written to: a
/// muxed stream is the output itself.
pub open spec fn stream_file(files: ItemFiles, kind: StreamKind) -> String {
    match kind {
        StreamKind::Audio => files.audio,
        StreamKind::Video => files.video,
        StreamKind::Muxed => files.output,
    }
}

/// Picks the file that a stream of the given kind is written to.
pub fn stream_path(files: &ItemFiles, kind: StreamKind) -> (path: &String)
    ensures
        *path == stream_file(*files, kind),
{
    match kind {
        StreamKind::Audio => &files.audio,
        StreamKind::Video => &files.video,
        StreamKind::Muxed => &files.output,
    }
}

/// The title under which the transfer of a stream is shown.
pub fn stream_title(kind: StreamKind) -> (title: &'static str)
    ensures
        title@ == match kind {
            StreamKind::Audio => "下载音频"@,
            StreamKind::Video => "下载视频"@,
            StreamKind::Muxed => "下载中"@,
        },
{
    match kind {
        StreamKind::Audio => "下载音频",
        StreamKind::Video => "下载视频",
        StreamKind::Muxed => "下载中",
    }
}

/// How an item is delivered.
#[derive(Clone, Copy, Debug, PartialEq, Eq, Structural)]
pub enum Delivery {
    /// As an audio and a video stream that are merged into the output.
    Dash,
    /// As one stream that is the output.
    Muxed,
}

/// One item of a batch: how it is delivered and where its files go.
#[derive(Clone, Debug, PartialEq, Eq)]
pub struct PlanItem {
    /// How the item is delivered.
    pub delivery: Delivery,
    /// The files of the item.
    pub files: ItemFiles,
}

/// An episode of a season, as far as its files are named after it.
#[derive(Clone, Debug, PartialEq, Eq)]
pub struct Episode {
    /// The number of the episode within its season.
    pub number: i64,
    /// The short title, such as the episode's number in words.
    pub short_title: String,
    /// The long title.
    pub long_title: String,
}

/// Whether `item` is the item called `name` in `dir`, delivered as two streams.
pub open spec fn is_dash_item(item: PlanItem, dir: Seq<char>, name: Seq<char>) -> bool {
    &&& item.delivery == Delivery::Dash
    &&& (item.files.audio@, item.files.video@, item.files.output@) == files_in(dir, name)
}

/// Plans the episodes of a season: one item for each, in order, named after
/// the episode and laid out inside `dir`.
pub fn plan_episodes(dir: &str, episodes: &Vec<Episode>) -> (items: Vec<PlanItem>)
    ensures
        items.len() == episodes.len(),
        forall|i: int|
            0 <= i < episodes.len() ==> is_dash_item(
                #[trigger] items@[i],
                dir@,
                allowed_text(
                    episode_title(
                        episodes@[i].number as int,
                        episodes@[i].short_title@,
                        episodes@[i].long_title@,
                    ),
                ),
            ),
{
    let mut items: Vec<PlanItem> = Vec::new();
    let mut i: usize = 0;
    while i < episodes.len()
        invariant
            0 <= i <= episodes.len(),
            items.len() == i,
            forall|j: int|
                0 <= j < i ==> is_dash_item(
                    #[trigger] items@[j],
                    dir@,
                    allowed_text(
                        episode_title(
                            episodes@[j].number as int,
                            episodes@[j].short_title@,
                            episodes@[j].long_title@,
                        ),
                    ),
                ),
        decreases episodes.len() - i,
    {
        let episode = &episodes[i];
        let name = episode_name(
            episode.number,
            episode.short_title.as_str(),
            episode.long_title.as_str(),
        );
        items.push(PlanItem { delivery: Delivery::Dash, files: item_files(dir, name.as_str()) });
        i = i + 1;
    }
    items
}

/// Plans the entries of a collection: one item for each title, in order,
/// named after the title and laid out inside `dir`.
pub fn plan_titles(dir: &str, titles: &Vec<String>) -> (items: Vec<PlanItem>)
    ensures
        items.len() == titles.len(),
        forall|i: int|
            0 <= i < titles.len() ==> is_dash_item(
                #[trigger] items@[i],
                dir@,
                allowed_text(titles@[i]@),
            ),
{
    let mut items: Vec<PlanItem> = Vec::new();
    let mut i: usize = 0;
    while i < titles.len()
        invariant
            0 <= i <= titles.len(),
            items.len() == i,
            forall|j: int|
                0 <= j < i ==> is_dash_item(#[trigger] items@[j], dir@, allowed_text(titles@[j]@)),
        decreases titles.len() - i,
    {
        let name = allowed_file_name(titles[i].as_str());
        items.push(PlanItem { delivery: Delivery::Dash, files: item_files(dir, name.as_str()) });
        i = i + 1;
    }
    items
}

/// What the run of a batch is busy with.
#[derive(Clone, Copy, Debug, PartialEq, Eq, Structural)]
pub enum Stage {
    /// Waiting to hear whether the output of the current item exists.
    Probe,
    /// Waiting for the stream URLs of the current item.
    Resolve,
    /// Waiting for the transfer of a stream of the current item.
    Fetch(StreamKind),
    /// Waiting for the merge of the current item.
    Merge,
    /// Waiting for the removal of a stream file of the current item.
    Remove(StreamKind),
    /// Every item is done or was skipped.
    Finished,
    /// The run was aborted with an error.
    Failed(Error),
}

/// What the driver of a batch is asked to do next. Items are named by their
/// position in the plan.
#[derive(Clone, Copy, Debug, PartialEq, Eq, Structural)]
pub enum Action {
    /// Look whether the output file of the item exists.
    CheckOutput(usize),
    /// Ask the platform for the stream URLs of the item.
    ResolveStreams(usize),
    /// Transfer the stream of the given kind to its file.
    Transfer(usize, StreamKind),
    /// Merge the stream files of the item into its output.
    Merge(usize),
    /// Remove the stream file of the given kind.
    Remove(usize, StreamKind),
    /// Stop: the batch is complete.
    Finish,
    /// Stop: the batch has failed with this error.
    Abort(Error),
}

impl Action {
    /// The position of the item that the action is about, where it is about one.
    pub open spec fn item(self) -> Option<usize> {
        match self {
            Action::CheckOutput(i) => Some(i),
            Action::ResolveStreams(i) => Some(i),
            Action::Transfer(i, _) => Some(i),
            Action::Merge(i) => Some(i),
            Action::Remove(i, _) => Some(i),
            Action::Finish => None,
            Action::Abort(_) => None,
        }
    }
}

/// What the driver reports back after an action.
#[derive(Clone, Copy, Debug, PartialEq, Eq, Structural)]
pub enum Reply {
    /// The output file exists, or does not.
    Exists(bool),
    /// The action was carried out.
    Done,
    /// The action failed with this error.
    Failed(Error),
    /// The merge process ended with this exit code.
    Exited(i32),
}

/// The mathematical value of a [`BatchRun`].
pub struct RunView {
    /// How each item of the plan is delivered.
    pub deliveries: Seq<Delivery>,
    /// The position of the current item.
    pub index: nat,
    /// What the run is busy with.
    pub stage: Stage,
    /// The number of items that were skipped because their output exists.
    pub skipped: nat,
    /// The number of items that were transferred and assembled.
    pub completed: nat,
}

impl RunView {
    /// The run is at an item of the plan while it works, past the last one
    /// when it has finished, and every item before the current one was
    /// either skipped or completed.
    pub open spec fn wf(self) -> bool {
        &&& self.index <= self.deliveries.len()
        &&& self.skipped + self.completed == self.index
        &&& self.stage == Stage::Finished ==> self.index == self.deliveries.len()
        &&& !(self.stage is Finished || self.stage is Failed) ==> self.index
            < self.deliveries.len()
        &&& self.stage matches Stage::Fetch(kind) ==> (kind == StreamKind::Muxed) == (
        self.deliveries[self.index as int] == Delivery::Muxed)
        &&& (self.stage is Merge || self.stage is Remove) ==> self.deliveries[self.index as int]
            == Delivery::Dash
        &&& self.stage matches Stage::Remove(kind) ==> kind != StreamKind::Muxed
    }

    /// The action that the run waits to hear of.
    pub open spec fn pending(self) -> Action {
        match self.stage {
            Stage::Probe => Action::CheckOutput(self.index as usize),
            Stage::Resolve => Action::ResolveStreams(self.index as usize),
            Stage::Fetch(kind) => Action::Transfer(self.index as usize, kind),
            Stage::Merge => Action::Merge(self.index as usize),
            Stage::Remove(kind) => Action::Remove(self.index as usize, kind),
            Stage::Finished => Action::Finish,
            Stage::Failed(e) => Action::Abort(e),
        }
    }

    /// The run at the given stage of the same item.
    pub open spec fn at(self, stage: Stage) -> RunView {
        RunView { stage, ..self }
    }

    /// The run once the current item is behind it: at the probe of the next
    /// item, or finished after the last.
    pub open spec fn past_item(self, was_skipped: bool) -> RunView {
        RunView {
            index: self.index + 1,
            stage: if self.index + 1 < self.deliveries.len() {
                Stage::Probe
            } else {
                Stage::Finished
            },
            skipped: if was_skipped {
                self.skipped + 1
            } else {
                self.skipped
            },
            completed: if was_skipped {
                self.completed
            } else {
                self.completed + 1
            },
            ..self
        }
    }

    /// The run after `reply`. A reply that does not answer the pending
    /// action changes nothing.
    pub open spec fn next(self, reply: Reply) -> RunView {
        match (self.stage, reply) {
            (Stage::Probe, Reply::Exists(true)) => self.past_item(true),
            (Stage::Probe, Reply::Exists(false)) => self.at(Stage::Resolve),
            (Stage::Resolve, Reply::Done) => if self.deliveries[self.index as int]
                == Delivery::Muxed {
                self.at(Stage::Fetch(StreamKind::Muxed))
            } else {
                self.at(Stage::Fetch(StreamKind::Audio))
            },
            (Stage::Resolve, Reply::Failed(e)) => self.at(Stage::Failed(e)),
            (Stage::Fetch(StreamKind::Audio), Reply::Done) => self.at(
                Stage::Fetch(StreamKind::Video),
            ),
            (Stage::Fetch(StreamKind::Video), Reply::Done) => self.at(Stage::Merge),
            (Stage::Fetch(StreamKind::Muxed), Reply::Done) => self.past_item(false),
            (Stage::Fetch(_), Reply::Failed(e)) => self.at(Stage::Failed(e)),
            (Stage::Merge, Reply::Exited(code)) => if code == 0 {
                self.at(Stage::Remove(StreamKind::Audio))
            } else {
                self.at(Stage::Failed(Error::MergeProcessError(code)))
            },
            (Stage::Merge, Reply::Failed(e)) => self.at(Stage::Failed(e)),
            (Stage::Remove(StreamKind::Audio), Reply::Done) => self.at(
                Stage::Remove(StreamKind::Video),
            ),
            (Stage::Remove(StreamKind::Audio), Reply::Failed(_)) => self.at(
                Stage::Remove(StreamKind::Video),
            ),
            (Stage::Remove(_), Reply::Done) => self.past_item(false),
            (Stage::Remove(_), Reply::Failed(_)) => self.past_item(false),
            _ => self,
        }
    }

    /// The run after the replies of a list, in order.
    pub open spec fn next_all(self, replies: Seq<Reply>) -> RunView
        decreases replies.len(),
    {
        if replies.len() == 0 {
            self
        } else {
            self.next_all(replies.drop_last()).next(replies.last())
        }
    }
}

/// The run of a plan before anything was done.
pub open spec fn initial_run(deliveries: Seq<Delivery>) -> RunView {
    RunView {
        deliveries,
        index: 0,
        stage: if deliveries.len() == 0 {
            Stage::Finished
        } else {
            Stage::Probe
        },
        skipped: 0,
        completed: 0,
    }
}

/// The deliveries of the items of a plan.
pub open spec fn deliveries_of(items: Seq<PlanItem>) -> Seq<Delivery> {
    Seq::new(items.len(), |i: int| items[i].delivery)
}

/// The merge of an item: the video stream first, the audio stream second,
/// into the output.
pub open spec fn merge_of(files: ItemFiles) -> MergeJobView {
    MergeJobView { inputs: seq![files.video@, files.audio@], output: files.output@ }
}

/// The run of a batch: the items of a plan worked off one after the other,
/// never two at a time.
///
/// The run decides; its driver acts. Each action is answered with a reply,
/// which yields the next action, until the run finishes or is aborted. The
/// first failure aborts the run; items that were completed before it stay
/// complete and are skipped by the next run.
pub struct BatchRun {
    items: Vec<PlanItem>,
    index: usize,
    stage: Stage,
    skipped: usize,
    completed: usize,
}

impl View for BatchRun {
    type V = RunView;

    closed spec fn view(&self) -> RunView {
        RunView {
            deliveries: deliveries_of(self.items@),
            index: self.index as nat,
            stage: self.stage,
            skipped: self.skipped as nat,
            completed: self.completed as nat,
        }
    }
}

impl BatchRun {
    /// The items of the plan, in order.
    pub closed spec fn items(&self) -> Seq<PlanItem> {
        self.items@
    }

    /// Whether the run is in order.
    pub open spec fn wf(&self) -> bool {
        &&& self@.wf()
        &&& self@.deliveries == deliveries_of(self.items())
    }

    /// Begins the run of a plan. The first action is [`BatchRun::action`].
    pub fn begin(items: Vec<PlanItem>) -> (run: BatchRun)
        ensures
            run.wf(),
            run.items() == items@,
            run@ == initial_run(deliveries_of(items@)),
    {
        let stage = if items.len() == 0 {
            Stage::Finished
        } else {
            Stage::Probe
        };
        BatchRun { items, index: 0, stage, skipped: 0, completed: 0 }
    }

    /// The action that the run waits to hear of. Where it is about an item,
    /// that item is in the plan.
    pub fn action(&self) -> (action: Action)
        requires
            self.wf(),
        ensures
            action == self@.pending(),
            action.item() is Some ==> action.item()->0 < self.items().len(),
    {
        assert(self@.deliveries.len() == self.items@.len());
        match self.stage {
            Stage::Probe => Action::CheckOutput(self.index),
            Stage::Resolve => Action::ResolveStreams(self.index),
            Stage::Fetch(kind) => Action::Transfer(self.index, kind),
            Stage::Merge => Action::Merge(self.index),
            Stage::Remove(kind) => Action::Remove(self.index, kind),
            Stage::Finished => Action::Finish,
            Stage::Failed(e) => Action::Abort(e),
        }
    }

    /// The number of items in the plan.
    pub fn len(&self) -> (count: usize)
        ensures
            count == self.items().len(),
    {
        self.items.len()
    }

    /// The item at position `i` of the plan.
    pub fn item(&self, i: usize) -> (item: &PlanItem)
        requires
            i < self.items().len(),
        ensures
            *item == self.items()[i as int],
    {
        &self.items[i]
    }

    /// The number of items that were skipped because their output exists.
    pub fn skipped(&self) -> (count: usize)
        ensures
            count == self@.skipped,
    {
        self.skipped
    }

    /// The number of items that were transferred and assembled.
    pub fn completed(&self) -> (count: usize)
        ensures
            count == self@.completed,
    {
        self.completed
    }

    /// The merge of the item at position `i`.
    pub fn merge_job(&self, i: usize) -> (job: MergeJob)
        requires
            i < self.items().len(),
        ensures
            job@ == merge_of(self.items()[i as int].files),
    {
        let files = &self.items[i].files;
        let mut inputs: Vec<String> = Vec::new();
        inputs.push(files.video.clone());
        inputs.push(files.audio.clone());
        let job = MergeJob { inputs, output: files.output.clone() };
        assert(job@.inputs =~= seq![files.video@, files.audio@]);
        job
    }

    fn pass_item(&mut self, was_skipped: bool)
        requires
            old(self).wf(),
            old(self)@.index < old(self)@.deliveries.len(),
        ensures
            final(self).wf(),
            final(self).items() == old(self).items(),
            final(self)@ == old(self)@.past_item(was_skipped),
    {
        let count = self.items.len();
        assert(self@.deliveries.len() == count);
        self.index = self.index + 1;
        if was_skipped {
            self.skipped = self.skipped + 1;
        } else {
            self.completed = self.completed + 1;
        }
        self.stage = if self.index < count {
            Stage::Probe
        } else {
            Stage::Finished
        };
    }

    /// Takes the reply to the pending action and hands out the next action.
    ///
    /// An item whose output exists is passed over without any further
    /// action. Any other item has its streams resolved and transferred one
    /// after the other, then merged, then its stream files removed; a stream
    /// file that cannot be removed does not stop the run. A failure, and a
    /// merge that exits with anything but zero, aborts the run for good. A
    /// reply that does not answer the pending action changes nothing.
    pub fn step(&mut self, reply: Reply) -> (action: Action)
        requires
            old(self).wf(),
        ensures
            final(self).wf(),
            final(self).items() == old(self).items(),
            final(self)@ == old(self)@.next(reply),
            action == final(self)@.pending(),
            action.item() is Some ==> action.item()->0 < final(self).items().len(),
    {
        match (self.stage, reply) {
            (Stage::Probe, Reply::Exists(exists)) => {
                if exists {
                    self.pass_item(true);
                } else {
                    self.stage = Stage::Resolve;
                }
            },
            (Stage::Resolve, Reply::Done) => {
                let muxed = match self.items[self.index].delivery {
                    Delivery::Muxed => true,
                    Delivery::Dash => false,
                };
                if muxed {
                    self.stage = Stage::Fetch(StreamKind::Muxed);
                } else {
                    self.stage = Stage::Fetch(StreamKind::Audio);
                }
            },
            (Stage::Resolve, Reply::Failed(e)) => {
                self.stage = Stage::Failed(e);
            },
            (Stage::Fetch(kind), Reply::Done) => {
                match kind {
                    StreamKind::Audio => {
                        self.stage = Stage::Fetch(StreamKind::Video);
                    },
                    StreamKind::Video => {
                        self.stage = Stage::Merge;
                    },
                    StreamKind::Muxed => {
                        self.pass_item(false);
                    },
                }
            },
            (Stage::Fetch(_), Reply::Failed(e)) => {
                self.stage = Stage::Failed(e);
            },
            (Stage::Merge, Reply::Exited(code)) => {
                if code == 0 {
                    self.stage = Stage::Remove(StreamKind::Audio);
                } else {
                    self.stage = Stage::Failed(Error::MergeProcessError(code));
                }
            },
            (Stage::Merge, Reply::Failed(e)) => {
                self.stage = Stage::Failed(e);
            },
            (Stage::Remove(kind), Reply::Done) | (Stage::Remove(kind), Reply::Failed(_)) => {
                match kind {
                    StreamKind::Audio => {
                        self.stage = Stage::Remove(StreamKind::Video);
                    },
                    _ => {
                        self.pass_item(false);
                    },
                }
            },
            _ => {},
        }
        self.action()
    }
}

/// Every reply leaves the run in order, never takes it back to an earlier
/// item, and never takes it more than one item on.
pub proof fn lemma_next_keeps_order(run: RunView, reply: Reply)
    requires
        run.wf(),
    ensures
        run.next(reply).wf(),
        run.next(reply).deliveries == run.deliveries,
        run.index <= run.next(reply).index <= run.index + 1,
        run.skipped <= run.next(reply).skipped,
        run.completed <= run.next(reply).completed,
{
}

/// An item whose output exists is passed over: the run counts it as skipped
/// and goes on to probe the next item, or finishes after the last. No
/// stream of the item is resolved, transferred, merged or removed.
pub proof fn lemma_existing_output_skips_item(run: RunView)
    requires
        run.wf(),
        run.stage == Stage::Probe,
    ensures
        ({
            let after = run.next(Reply::Exists(true));
            &&& after.index == run.index + 1
            &&& after.skipped == run.skipped + 1
            &&& after.completed == run.completed
            &&& after.pending() == if run.index + 1 < run.deliveries.len() {
                Action::CheckOutput((run.index + 1) as usize)
            } else {
                Action::Finish
            }
        }),
{
}

/// A run that was aborted stays aborted: whatever is reported to it, it
/// asks for nothing but to stop with the same error.
pub proof fn lemma_failure_is_final(run: RunView, replies: Seq<Reply>)
    requires
        run.stage is Failed,
    ensures
        run.next_all(replies) == run,
    decreases replies.len(),
{
    if replies.len() > 0 {
        lemma_failure_is_final(run, replies.drop_last());
    }
}

/// A merge that exits with anything but zero aborts the run with that code,
/// and the stream files are never asked to be removed afterwards.
pub proof fn lemma_failed_merge_keeps_streams(run: RunView, code: i32, later: Seq<Reply>)
    requires
        run.wf(),
        run.stage == Stage::Merge,
        code != 0,
    ensures
        run.next(Reply::Exited(code)).pending() == Action::Abort(Error::MergeProcessError(code)),
        run.next(Reply::Exited(code)).next_all(later).pending() == Action::Abort(
            Error::MergeProcessError(code),
        ),
        run.next(Reply::Exited(code)).next_all(later).completed == run.completed,
{
    lemma_failure_is_final(run.next(Reply::Exited(code)), later);
}

/// Stream files are removed only after their merge has exited with zero.
pub proof fn lemma_removal_follows_merge(run: RunView, reply: Reply)
    requires
        run.wf(),
        !(run.stage is Remove),
        run.next(reply).stage is Remove,
    ensures
        run.stage == Stage::Merge,
        reply == Reply::Exited(0),
        run.next(reply).pending() == Action::Remove(run.index as usize, StreamKind::Audio),
{
}

/// What a driver reports when every action succeeds and `exists` tells, item
/// by item, whether the output is already on disk.
pub open spec fn smooth_reply(run: RunView, exists: Seq<bool>) -> Reply {
    match run.stage {
        Stage::Probe => Reply::Exists(exists[run.index as int]),
        Stage::Merge => Reply::Exited(0),
        _ => Reply::Done,
    }
}

/// The run after `steps` replies of such a driver.
pub open spec fn smooth_run(run: RunView, exists: Seq<bool>, steps: nat) -> RunView
    decreases steps,
{
    if steps == 0 {
        run
    } else {
        smooth_run(run.next(smooth_reply(run, exists)), exists, (steps - 1) as nat)
    }
}

/// The number of entries of `flags` that are set.
pub open spec fn count_set(flags: Seq<bool>) -> nat
    decreases flags.len(),
{
    if flags.len() == 0 {
        0
    } else if flags.last() {
        count_set(flags.drop_last()) + 1
    } else {
        count_set(flags.drop_last())
    }
}

/// Whether the run works on its current item: it resolves, transfers,
/// merges or removes.
pub open spec fn works_on_item(run: RunView) -> bool {
    run.stage is Resolve || run.stage is Fetch || run.stage is Merge || run.stage is Remove
}

/// What holds of every state that a run with a succeeding driver reaches.
spec fn smooth_inv(run: RunView, exists: Seq<bool>) -> bool {
    &&& run.wf()
    &&& exists.len() == run.deliveries.len()
    &&& !(run.stage is Failed)
    &&& run.skipped == count_set(exists.subrange(0, run.index as int))
    &&& works_on_item(run) ==> !exists[run.index as int]
}

/// The largest number of replies that a run still needs.
spec fn steps_left(run: RunView) -> nat {
    let ahead = 7 * (run.deliveries.len() - run.index);
    match run.stage {
        Stage::Probe => ahead as nat,
        Stage::Resolve => (ahead - 1) as nat,
        Stage::Fetch(StreamKind::Audio) => (ahead - 2) as nat,
        Stage::Fetch(StreamKind::Video) => (ahead - 3) as nat,
        Stage::Merge => (ahead - 4) as nat,
        Stage::Remove(StreamKind::Audio) => (ahead - 5) as nat,
        Stage::Remove(_) => (ahead - 6) as nat,
        Stage::Fetch(StreamKind::Muxed) => (ahead - 6) as nat,
        Stage::Finished => 0,
        Stage::Failed(_) => 0,
    }
}

proof fn lemma_smooth_step(run: RunView, exists: Seq<bool>)
    requires
        smooth_inv(run, exists),
    ensures
        smooth_inv(run.next(smooth_reply(run, exists)), exists),
        run.stage is Finished || steps_left(run.next(smooth_reply(run, exists))) < steps_left(run),
        run.stage is Finished ==> run.next(smooth_reply(run, exists)) == run,
{
    let after = run.next(smooth_reply(run, exists));
    if after.index == run.index + 1 {
        let longer = exists.subrange(0, after.index as int);
        assert(longer.drop_last() =~= exists.subrange(0, run.index as int));
        assert(longer.last() == exists[run.index as int]);
    }
}

proof fn lemma_smooth_run(run: RunView, exists: Seq<bool>, steps: nat)
    requires
        smooth_inv(run, exists),
    ensures
        smooth_inv(smooth_run(run, exists, steps), exists),
        smooth_run(run, exists, steps).stage is Finished || steps_left(
            smooth_run(run, exists, steps),
        ) + steps <= steps_left(run),
    decreases steps,
{
    if steps > 0 {
        lemma_smooth_step(run, exists);
        lemma_smooth_run(run.next(smooth_reply(run, exists)), exists, (steps - 1) as nat);
        if run.stage is Finished {
            lemma_finished_stays(run, exists, (steps - 1) as nat);
        }
    }
}

proof fn lemma_finished_stays(run: RunView, exists: Seq<bool>, steps: nat)
    requires
        run.stage is Finished,
    ensures
        smooth_run(run, exists, steps) == run,
    decreases steps,
{
    if steps > 0 {
        lemma_finished_stays(run, exists, (steps - 1) as nat);
    }
}

/// A run never works on an item whose output exists: while every action
/// succeeds, whatever it resolves, transfers, merges or removes belongs to
/// an item that was missing its output.
pub proof fn lemma_finished_items_are_left_alone(
    deliveries: Seq<Delivery>,
    exists: Seq<bool>,
    steps: nat,
)
    requires
        exists.len() == deliveries.len(),
    ensures
        ({
            let run = smooth_run(initial_run(deliveries), exists, steps);
            works_on_item(run) ==> run.index < exists.len() && !exists[run.index as int]
        }),
{
    assert(exists.subrange(0, 0) =~= Seq::<bool>::empty());
    lemma_smooth_run(initial_run(deliveries), exists, steps);
}

/// Running a batch again does the work that is left and no more: while
/// every action succeeds, the run finishes within seven replies per item,
/// having skipped exactly the items whose output exists and completed
/// exactly the others.
pub proof fn lemma_restart_completes_the_rest(deliveries: Seq<Delivery>, exists: Seq<bool>)
    requires
        exists.len() == deliveries.len(),
    ensures
        ({
            let end = smooth_run(initial_run(deliveries), exists, 7 * deliveries.len());
            &&& end.stage == Stage::Finished
            &&& end.skipped == count_set(exists)
            &&& end.completed == deliveries.len() - count_set(exists)
        }),
{
    assert(exists.subrange(0, 0) =~= Seq::<bool>::empty());
    lemma_smooth_run(initial_run(deliveries), exists, 7 * deliveries.len());
    let end = smooth_run(initial_run(deliveries), exists, 7 * deliveries.len());
    assert(exists.subrange(0, end.index as int) =~= exists);
}

} // verus!
