use bili_cli::batch::{Action, BatchRun, Delivery, PlanItem, Reply, StreamKind};
use bili_cli::error::Error;
use bili_cli::ffmpeg::MergeJob;
use bili_cli::local::item_files;

fn plan(names: &[&str]) -> Vec<PlanItem> {
    names
        .iter()
        .map(|n| PlanItem { delivery: Delivery::Dash, files: item_files("dir", n) })
        .collect()
}

/// Drives a run in which every action succeeds and the outputs named in
/// `existing` are on disk; hands back the actions in the order they came.
fn drive(run: &mut BatchRun, existing: &[usize]) -> Vec<Action> {
    let mut actions = vec![run.action()];
    loop {
        let reply = match *actions.last().unwrap() {
            Action::CheckOutput(i) => Reply::Exists(existing.contains(&i)),
            Action::Merge(_) => Reply::Exited(0),
            Action::Finish | Action::Abort(_) => return actions,
            _ => Reply::Done,
        };
        actions.push(run.step(reply));
    }
}

#[test]
fn batch_restart_works_only_on_what_is_missing() {
    let mut run = BatchRun::begin(plan(&["a", "b", "c"]));
    let actions = drive(&mut run, &[1]);
    assert_eq!(
        actions,
        vec![
            Action::CheckOutput(0),
            Action::ResolveStreams(0),
            Action::Transfer(0, StreamKind::Audio),
            Action::Transfer(0, StreamKind::Video),
            Action::Merge(0),
            Action::Remove(0, StreamKind::Audio),
            Action::Remove(0, StreamKind::Video),
            Action::CheckOutput(1),
            Action::CheckOutput(2),
            Action::ResolveStreams(2),
            Action::Transfer(2, StreamKind::Audio),
            Action::Transfer(2, StreamKind::Video),
            Action::Merge(2),
            Action::Remove(2, StreamKind::Audio),
            Action::Remove(2, StreamKind::Video),
            Action::Finish,
        ]
    );
    assert_eq!(run.completed(), 2);
    assert_eq!(run.skipped(), 1);
}

#[test]
fn second_run_over_a_finished_batch_does_nothing() {
    let mut run = BatchRun::begin(plan(&["a", "b", "c"]));
    let actions = drive(&mut run, &[0, 1, 2]);
    assert_eq!(
        actions,
        vec![Action::CheckOutput(0), Action::CheckOutput(1), Action::CheckOutput(2), Action::Finish]
    );
    assert_eq!(run.skipped(), 3);
    assert_eq!(run.completed(), 0);
}

#[test]
fn empty_batch_finishes_at_once() {
    let mut run = BatchRun::begin(vec![]);
    assert_eq!(run.len(), 0);
    assert_eq!(run.action(), Action::Finish);
    assert_eq!(run.step(Reply::Done), Action::Finish);
}

#[test]
fn merge_failure_aborts_and_removes_nothing() {
    let mut run = BatchRun::begin(plan(&["a", "b"]));
    assert_eq!(run.step(Reply::Exists(false)), Action::ResolveStreams(0));
    assert_eq!(run.step(Reply::Done), Action::Transfer(0, StreamKind::Audio));
    assert_eq!(run.step(Reply::Done), Action::Transfer(0, StreamKind::Video));
    assert_eq!(run.step(Reply::Done), Action::Merge(0));
    assert_eq!(run.step(Reply::Exited(1)), Action::Abort(Error::MergeProcessError(1)));
    assert_eq!(run.step(Reply::Done), Action::Abort(Error::MergeProcessError(1)));
    assert_eq!(run.step(Reply::Exists(true)), Action::Abort(Error::MergeProcessError(1)));
    assert_eq!(run.completed(), 0);
}

#[test]
fn failed_transfer_aborts_the_run() {
    let mut run = BatchRun::begin(plan(&["a", "b"]));
    run.step(Reply::Exists(true));
    assert_eq!(run.step(Reply::Exists(false)), Action::ResolveStreams(1));
    assert_eq!(run.step(Reply::Done), Action::Transfer(1, StreamKind::Audio));
    assert_eq!(run.step(Reply::Failed(Error::StreamAbort)), Action::Abort(Error::StreamAbort));
    assert_eq!(run.skipped(), 1);
    assert_eq!(run.completed(), 0);
}

#[test]
fn failed_metadata_aborts_the_run() {
    let mut run = BatchRun::begin(plan(&["a"]));
    run.step(Reply::Exists(false));
    assert_eq!(
        run.step(Reply::Failed(Error::MetadataFetchError)),
        Action::Abort(Error::MetadataFetchError)
    );
}

#[test]
fn stream_file_that_cannot_be_removed_does_not_stop_the_run() {
    let mut run = BatchRun::begin(plan(&["a", "b"]));
    run.step(Reply::Exists(false));
    run.step(Reply::Done);
    run.step(Reply::Done);
    run.step(Reply::Done);
    assert_eq!(run.step(Reply::Exited(0)), Action::Remove(0, StreamKind::Audio));
    assert_eq!(
        run.step(Reply::Failed(Error::FileSystemError)),
        Action::Remove(0, StreamKind::Video)
    );
    assert_eq!(run.step(Reply::Failed(Error::FileSystemError)), Action::CheckOutput(1));
    assert_eq!(run.completed(), 1);
}

#[test]
fn reply_that_answers_nothing_is_ignored() {
    let mut run = BatchRun::begin(plan(&["a"]));
    assert_eq!(run.step(Reply::Done), Action::CheckOutput(0));
    assert_eq!(run.step(Reply::Exited(0)), Action::CheckOutput(0));
    assert_eq!(run.step(Reply::Exists(false)), Action::ResolveStreams(0));
    assert_eq!(run.step(Reply::Exists(true)), Action::ResolveStreams(0));
}

#[test]
fn muxed_item_is_transferred_without_a_merge() {
    let items = vec![
        PlanItem { delivery: Delivery::Muxed, files: item_files("", "clip") },
        PlanItem { delivery: Delivery::Dash, files: item_files("", "film") },
    ];
    let mut run = BatchRun::begin(items);
    let actions = drive(&mut run, &[1]);
    assert_eq!(
        actions,
        vec![
            Action::CheckOutput(0),
            Action::ResolveStreams(0),
            Action::Transfer(0, StreamKind::Muxed),
            Action::CheckOutput(1),
            Action::Finish,
        ]
    );
    assert_eq!(run.completed(), 1);
    assert_eq!(run.skipped(), 1);
}

#[test]
fn merge_takes_video_before_audio() {
    let run = BatchRun::begin(plan(&["a"]));
    let files = item_files("dir", "a");
    assert_eq!(run.item(0).files, files);
    assert_eq!(
        run.merge_job(0),
        MergeJob { inputs: vec![files.video.clone(), files.audio.clone()], output: files.output }
    );
}

#[test]
fn streams_go_to_their_own_files() {
    let files = item_files("dir", "a");
    assert_eq!(bili_cli::batch::stream_path(&files, StreamKind::Audio), &files.audio);
    assert_eq!(bili_cli::batch::stream_path(&files, StreamKind::Video), &files.video);
    assert_eq!(bili_cli::batch::stream_path(&files, StreamKind::Muxed), &files.output);
    assert_eq!(bili_cli::batch::stream_title(StreamKind::Audio), "下载音频");
    assert_eq!(bili_cli::batch::stream_title(StreamKind::Video), "下载视频");
    assert_eq!(bili_cli::batch::stream_title(StreamKind::Muxed), "下载中");
}

#[test]
fn episodes_are_planned_in_order() {
    let episodes = vec![
        bili_cli::batch::Episode {
            number: 1,
            short_title: "1".to_string(),
            long_title: "Begin".to_string(),
        },
        bili_cli::batch::Episode {
            number: 2,
            short_title: "2".to_string(),
            long_title: "A/B".to_string(),
        },
    ];
    let items = bili_cli::batch::plan_episodes("season", &episodes);
    assert_eq!(
        items,
        vec![
            PlanItem { delivery: Delivery::Dash, files: item_files("season", "1. (1) Begin") },
            PlanItem { delivery: Delivery::Dash, files: item_files("season", "2. (2) A_B") },
        ]
    );
    assert_eq!(bili_cli::batch::plan_episodes("season", &vec![]), vec![]);
}

#[test]
fn collection_entries_are_planned_by_title() {
    let titles = vec!["first".to_string(), "what?".to_string()];
    let items = bili_cli::batch::plan_titles("folder", &titles);
    assert_eq!(
        items,
        vec![
            PlanItem { delivery: Delivery::Dash, files: item_files("folder", "first") },
            PlanItem { delivery: Delivery::Dash, files: item_files("folder", "what_") },
        ]
    );
}
