use vstd::prelude::*;
use crate::error::Error;

verus! {

/// The program that copies streams into one container.
pub const PROGRAM: &'static str = "ffmpeg";

/// What to tell the user when the program cannot be started.
pub const MISSING_HINT: &'static str = "未找到ffmpeg, 请先安装ffmpeg.";

/// The characters of each string of a list.
pub open spec fn strings_view(strings: Seq<String>) -> Seq<Seq<char>> {
    Seq::new(strings.len(), |i: int| strings[i]@)
}

/// One merge: the streams to combine, in order, and the file to write.
#[derive(Clone, Debug, PartialEq, Eq)]
pub struct MergeJob {
    /// The files that hold the streams, in the order they are handed over.
    pub inputs: Vec<String>,
    /// The file that the merge writes.
    pub output: String,
}

/// The mathematical value of a [`MergeJob`].
pub struct MergeJobView {
    pub inputs: Seq<Seq<char>>,
    pub output: Seq<char>,
}

impl View for MergeJob {
    type V = MergeJobView;

    open spec fn view(&self) -> MergeJobView {
        MergeJobView { inputs: strings_view(self.inputs@), output: self.output@ }
    }
}

/// The arguments that name the inputs: `-i` before each, in order.
pub open spec fn input_arguments(inputs: Seq<Seq<char>>) -> Seq<Seq<char>> {
    Seq::new(
        2 * inputs.len(),
        |i: int|
            if i % 2 == 0 {
                "-i"@
            } else {
                inputs[i / 2]
            },
    )
}

/// The arguments of a merge: the inputs in order, the request to copy both
/// codecs, and the output last.
pub open spec fn merge_command(job: MergeJobView) -> Seq<Seq<char>> {
    input_arguments(job.inputs) + seq!["-vcodec"@, "copy"@, "-acodec"@, "copy"@, job.output]
}

/// What a merge that ended with `exit_code` amounts to.
pub open spec fn merge_status(exit_code: i32) -> Result<(), Error> {
    if exit_code == 0 {
        Ok(())
    } else {
        Err(Error::MergeProcessError(exit_code))
    }
}

/// The files that may be removed once a merge has ended as `status` says:
/// its inputs after a success, none after a failure.
pub open spec fn removable(job: MergeJobView, status: Result<(), Error>) -> Seq<Seq<char>> {
    if status is Ok {
        job.inputs
    } else {
        Seq::empty()
    }
}

/// The arguments with which [`PROGRAM`] reports its version, which is how its
/// presence is tested.
pub fn version_arguments() -> (arguments: Vec<String>)
    ensures
        strings_view(arguments@) == seq!["-version"@],
{
    let mut arguments: Vec<String> = Vec::new();
    arguments.push("-version".to_owned());
    assert(strings_view(arguments@) =~= seq!["-version"@]);
    arguments
}

/// Judges the test for the merge program: that it could be started is
/// enough, whatever it exited with; that it could not is an error.
pub fn ffmpeg_run_version(started: bool) -> (found: Result<(), Error>)
    ensures
        found == if started {
            Ok::<(), Error>(())
        } else {
            Err::<(), Error>(Error::FileSystemError)
        },
{
    if started {
        Ok(())
    } else {
        Err(Error::FileSystemError)
    }
}

/// Builds the arguments with which [`PROGRAM`] carries out `job`.
///
/// The streams are copied, never encoded anew.
pub fn merge_arguments(job: &MergeJob) -> (arguments: Vec<String>)
    ensures
        strings_view(arguments@) == merge_command(job@),
{
    let mut arguments: Vec<String> = Vec::new();
    let mut i: usize = 0;
    while i < job.inputs.len()
        invariant
            0 <= i <= job.inputs.len(),
            strings_view(arguments@) =~= input_arguments(job@.inputs.subrange(0, i as int)),
        decreases job.inputs.len() - i,
    {
        let ghost before = strings_view(arguments@);
        let input = job.inputs[i].clone();
        assert(input@ == job@.inputs[i as int]);
        arguments.push("-i".to_owned());
        arguments.push(input);
        i = i + 1;
        proof {
            let after = input_arguments(job@.inputs.subrange(0, i as int));
            assert(before.len() == 2 * (i - 1));
            assert forall|k: int| 0 <= k < after.len() implies strings_view(arguments@)[k]
                == after[k] by {
                if k < before.len() {
                    assert(strings_view(arguments@)[k] == before[k]);
                }
            }
        }
    }
    assert(job@.inputs.subrange(0, i as int) =~= job@.inputs);
    arguments.push("-vcodec".to_owned());
    arguments.push("copy".to_owned());
    arguments.push("-acodec".to_owned());
    arguments.push("copy".to_owned());
    arguments.push(job.output.clone());
    assert(strings_view(arguments@) =~= merge_command(job@));
    arguments
}

/// Judges a merge by the exit code of its process: zero is success, any
/// other code is an error that carries it.
pub fn merge_outcome(exit_code: i32) -> (status: Result<(), Error>)
    ensures
        status == merge_status(exit_code),
{
    if exit_code == 0 {
        Ok(())
    } else {
        Err(Error::MergeProcessError(exit_code))
    }
}

/// Names the files to remove after a merge: the inputs of a merge that
/// succeeded, nothing after one that failed.
pub fn removable_inputs(job: &MergeJob, status: &Result<(), Error>) -> (files: Vec<String>)
    ensures
        strings_view(files@) == removable(job@, *status),
{
    let mut files: Vec<String> = Vec::new();
    if status.is_ok() {
        let mut i: usize = 0;
        while i < job.inputs.len()
            invariant
                0 <= i <= job.inputs.len(),
                strings_view(files@) =~= job@.inputs.subrange(0, i as int),
            decreases job.inputs.len() - i,
        {
            let ghost before = strings_view(files@);
            let input = job.inputs[i].clone();
            assert(input@ == job@.inputs[i as int]);
            files.push(input);
            i = i + 1;
            proof {
                let after = job@.inputs.subrange(0, i as int);
                assert(before.len() == i - 1);
                assert forall|k: int| 0 <= k < after.len() implies strings_view(files@)[k]
                    == after[k] by {
                    if k < before.len() {
                        assert(strings_view(files@)[k] == before[k]);
                    }
                }
            }
        }
        assert(job@.inputs.subrange(0, i as int) =~= job@.inputs);
    } else {
        assert(strings_view(files@) =~= Seq::<Seq<char>>::empty());
    }
    files
}

/// A merge whose process exits with anything but zero reports a failure that
/// carries the code, and leaves every input in place.
pub proof fn lemma_failed_merge_keeps_inputs(job: MergeJobView, exit_code: i32)
    requires
        exit_code != 0,
    ensures
        merge_status(exit_code) == Err::<(), Error>(Error::MergeProcessError(exit_code)),
        removable(job, merge_status(exit_code)) == Seq::<Seq<char>>::empty(),
{
}

/// The output is the last argument of a merge, and the inputs come in the
/// order of the job, each behind its own `-i`.
pub proof fn lemma_merge_command_order(job: MergeJobView)
    ensures
        merge_command(job).len() == 2 * job.inputs.len() + 5,
        merge_command(job).last() == job.output,
        forall|k: int|
            0 <= k < job.inputs.len() ==> merge_command(job)[2 * k] == "-i"@ && #[trigger] merge_command(
                job,
            )[2 * k + 1] == job.inputs[k],
{
    assert forall|k: int| 0 <= k < job.inputs.len() implies merge_command(job)[2 * k] == "-i"@
        && #[trigger] merge_command(job)[2 * k + 1] == job.inputs[k] by {
        assert(merge_command(job)[2 * k] == input_arguments(job.inputs)[2 * k]);
        assert(merge_command(job)[2 * k + 1] == input_arguments(job.inputs)[2 * k + 1]);
        assert((2 * k + 1) / 2 == k);
        assert((2 * k) % 2 == 0);
        assert((2 * k + 1) % 2 == 1);
    }
}

} // verus!
