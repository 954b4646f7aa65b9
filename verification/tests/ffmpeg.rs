use bili_cli::error::Error;
use bili_cli::ffmpeg::{
    ffmpeg_run_version, merge_arguments, merge_outcome, removable_inputs, version_arguments,
    MergeJob, PROGRAM,
};

fn job() -> MergeJob {
    MergeJob {
        inputs: vec!["x.video".to_string(), "x.audio".to_string()],
        output: "x.mp4".to_string(),
    }
}

#[test]
fn merge_copies_streams_in_order() {
    assert_eq!(PROGRAM, "ffmpeg");
    assert_eq!(
        merge_arguments(&job()),
        vec!["-i", "x.video", "-i", "x.audio", "-vcodec", "copy", "-acodec", "copy", "x.mp4"]
    );
}

#[test]
fn merge_without_inputs_names_only_the_output() {
    let empty = MergeJob { inputs: vec![], output: "out.mp4".to_string() };
    assert_eq!(merge_arguments(&empty), vec!["-vcodec", "copy", "-acodec", "copy", "out.mp4"]);
}

#[test]
fn version_is_asked_with_one_argument() {
    assert_eq!(version_arguments(), vec!["-version"]);
}

#[test]
fn merge_program_must_start() {
    assert_eq!(ffmpeg_run_version(true), Ok(()));
    assert_eq!(ffmpeg_run_version(false), Err(Error::FileSystemError));
}

#[test]
fn exit_code_zero_is_success() {
    assert_eq!(merge_outcome(0), Ok(()));
}

#[test]
fn other_exit_codes_are_errors() {
    assert_eq!(merge_outcome(1), Err(Error::MergeProcessError(1)));
    assert_eq!(merge_outcome(-9), Err(Error::MergeProcessError(-9)));
    assert_eq!(merge_outcome(255), Err(Error::MergeProcessError(255)));
}

#[test]
fn merge_failure_preserves_inputs() {
    let status = merge_outcome(1);
    assert!(status.is_err());
    assert_eq!(removable_inputs(&job(), &status), Vec::<String>::new());
}

#[test]
fn merge_success_releases_inputs() {
    let status = merge_outcome(0);
    assert_eq!(removable_inputs(&job(), &status), vec!["x.video", "x.audio"]);
}
