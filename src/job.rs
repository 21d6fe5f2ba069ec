use vstd::prelude::*;
use crate::command::{build_args, command_args};
use crate::error::JobError;
use crate::options::VideoOptions;
use crate::command::view_opt;
use crate::output::{output_path_of, resolve_output_path};
use crate::progress::{event_of_line, next_state, ProgressEvent, ProgressParser};

verus! {

/// Where a job stands. It runs from `Running` to exactly one of the others.
#[derive(PartialEq, Eq, Structural, Clone, Copy, Debug)]
pub enum JobPhase {
    Running,
    Completed,
    Failed,
    Cancelled,
}

/// How a job ended.
#[derive(Debug)]
pub enum JobOutcome {
    /// The output was written; its path.
    Completed(String),
    Failed(JobError),
    /// Stopped on request; the partial output is to be removed.
    Cancelled,
}

/// What the caller is to do after handing a line to the job.
#[derive(Debug)]
pub enum LineAction {
    /// Nothing to report.
    Continue,
    /// Publish this reading.
    Report(ProgressEvent),
    /// Kill the encoder and remove the partial output file.
    Cancel,
}

/// How the encoder process ended, as the caller observed it.
#[derive(Debug)]
pub enum ProcessEnd {
    /// It exited; `success` for a zero status, with the exit code if any.
    Exited { success: bool, code: Option<i32> },
    /// Waiting for it failed.
    WaitFailed(String),
}

/// One transcoding job, from a started encoder to its terminal outcome.
pub struct ConversionJob {
    phase: JobPhase,
    output_path: String,
    args: Vec<String>,
    parser: ProgressParser,
}

impl ConversionJob {
    pub closed spec fn spec_phase(&self) -> JobPhase {
        self.phase
    }

    pub closed spec fn spec_output_path(&self) -> Seq<char> {
        self.output_path@
    }

    pub closed spec fn spec_args(&self) -> Seq<Seq<char>> {
        self.args.deep_view()
    }

    pub closed spec fn spec_parser(&self) -> ProgressParser {
        self.parser
    }

    pub closed spec fn wf(&self) -> bool {
        self.parser.wf()
    }

    /// Starts a job: takes the result of making the encoder available,
    /// resolves the output path and builds the encoder's arguments. A missing
    /// encoder is reported first, then an input without parent directory or
    /// base name.
    pub fn start(
        input: &str,
        options: &VideoOptions,
        encoder: Result<(), String>,
    ) -> (r: Result<ConversionJob, JobError>)
        ensures
            match encoder {
                Err(e) => r == Err::<ConversionJob, JobError>(JobError::PrerequisiteMissing(e)),
                Ok(_) => {
                    &&& r is Err ==> r == Err::<ConversionJob, JobError>(JobError::InvalidPath)
                    &&& r is Ok <==> output_path_of(
                        input@,
                        view_opt(options.output_directory),
                        options.format.spec_extension(),
                    ) is Some
                },
            },
            encoder is Ok && input@.len() == 0 ==> r is Err,
            r matches Ok(job) ==> output_path_of(
                input@,
                view_opt(options.output_directory),
                options.format.spec_extension(),
            ) == Some(job.spec_output_path()),
            match r {
                Ok(job) => {
                    &&& job.wf()
                    &&& job.spec_phase() == JobPhase::Running
                    &&& job.spec_args() == command_args(input@, *options, job.spec_output_path())
                    &&& job.spec_parser()@.current_ms == 0
                    &&& job.spec_parser()@.total_ms is None
                },
                Err(_) => true,
            },
    {
        if let Err(e) = encoder {
            return Err(JobError::PrerequisiteMissing(e));
        }
        let output_path = resolve_output_path(input, &options.output_directory, options.format.extension())?;
        let args = build_args(input, options, output_path.as_str());
        Ok(ConversionJob { phase: JobPhase::Running, output_path, args, parser: ProgressParser::new() })
    }

    /// Two jobs started from the same input and options hold the same
    /// arguments: the list depends on nothing else.
    pub proof fn lemma_start_deterministic(input: Seq<char>, o: VideoOptions, a: ConversionJob, b: ConversionJob)
        requires
            a.spec_args() == command_args(input, o, a.spec_output_path()),
            b.spec_args() == command_args(input, o, b.spec_output_path()),
            output_path_of(input, view_opt(o.output_directory), o.format.spec_extension()) == Some(a.spec_output_path()),
            output_path_of(input, view_opt(o.output_directory), o.format.spec_extension()) == Some(b.spec_output_path()),
        ensures
            a.spec_args() == b.spec_args(),
    {
    }

    pub fn phase(&self) -> (r: JobPhase)
        ensures
            r == self.spec_phase(),
    {
        self.phase
    }

    /// Where the encoder writes.
    pub fn output_path(&self) -> (r: &str)
        ensures
            r@ == self.spec_output_path(),
    {
        self.output_path.as_str()
    }

    /// The encoder's arguments.
    pub fn args(&self) -> (r: &Vec<String>)
        ensures
            r.deep_view() == self.spec_args(),
    {
        &self.args
    }

    /// The progress read so far.
    pub fn progress(&self) -> (r: &ProgressParser)
        ensures
            r == self.spec_parser(),
    {
        &self.parser
    }

    /// Handles one diagnostic line of the running encoder. A cancellation
    /// seen here ends the job at once, however far it had come; otherwise the
    /// line goes to the progress parser and its reading, if any, is to be
    /// published.
    pub fn on_line(&mut self, line: &str, cancel_requested: bool) -> (r: LineAction)
        requires
            old(self).wf(),
            old(self).spec_phase() == JobPhase::Running,
        ensures
            final(self).wf(),
            final(self).spec_output_path() == old(self).spec_output_path(),
            final(self).spec_args() == old(self).spec_args(),
            cancel_requested ==> {
                &&& r is Cancel
                &&& final(self).spec_phase() == JobPhase::Cancelled
                &&& final(self).spec_parser() == old(self).spec_parser()
            },
            !cancel_requested ==> {
                &&& final(self).spec_phase() == JobPhase::Running
                &&& final(self).spec_parser()@ == next_state(old(self).spec_parser()@, line@)
                &&& r == match event_of_line(old(self).spec_parser()@, line@) {
                    Some(e) => LineAction::Report(e),
                    None => LineAction::Continue,
                }
            },
    {
        if cancel_requested {
            self.phase = JobPhase::Cancelled;
            return LineAction::Cancel;
        }
        match self.parser.feed_line(line) {
            Some(e) => LineAction::Report(e),
            None => LineAction::Continue,
        }
    }

    /// The encoder could not be started.
    pub fn on_spawn_failure(&mut self, message: String) -> (r: JobOutcome)
        requires
            old(self).spec_phase() == JobPhase::Running,
        ensures
            r == JobOutcome::Failed(JobError::SpawnFailure(message)),
            final(self).spec_phase() == JobPhase::Failed,
            final(self).wf() == old(self).wf(),
    {
        self.phase = JobPhase::Failed;
        JobOutcome::Failed(JobError::SpawnFailure(message))
    }

    /// The encoder ended without being cancelled. Success needs both a zero
    /// status and the output file; a failing status is an encoding failure
    /// whether or not a file of that name exists.
    pub fn on_exit(&mut self, end: ProcessEnd, output_exists: bool) -> (r: JobOutcome)
        requires
            old(self).spec_phase() == JobPhase::Running,
        ensures
            final(self).wf() == old(self).wf(),
            final(self).spec_output_path() == old(self).spec_output_path(),
            match end {
                ProcessEnd::WaitFailed(m) => {
                    &&& r == JobOutcome::Failed(JobError::WaitFailure(m))
                    &&& final(self).spec_phase() == JobPhase::Failed
                },
                ProcessEnd::Exited { success, code } => if !success {
                    &&& r == JobOutcome::Failed(JobError::EncodingFailure(code))
                    &&& final(self).spec_phase() == JobPhase::Failed
                } else if !output_exists {
                    &&& r == JobOutcome::Failed(JobError::OutputMissing)
                    &&& final(self).spec_phase() == JobPhase::Failed
                } else {
                    &&& r matches JobOutcome::Completed(p) && p@ == old(self).spec_output_path()
                    &&& final(self).spec_phase() == JobPhase::Completed
                },
            },
    {
        match end {
            ProcessEnd::WaitFailed(m) => {
                self.phase = JobPhase::Failed;
                JobOutcome::Failed(JobError::WaitFailure(m))
            },
            ProcessEnd::Exited { success, code } => {
                if !success {
                    self.phase = JobPhase::Failed;
                    JobOutcome::Failed(JobError::EncodingFailure(code))
                } else if !output_exists {
                    self.phase = JobPhase::Failed;
                    JobOutcome::Failed(JobError::OutputMissing)
                } else {
                    self.phase = JobPhase::Completed;
                    JobOutcome::Completed(self.output_path.clone())
                }
            },
        }
    }
}

} // verus!
