use vstd::prelude::*;

verus! {

/// Why a conversion did not produce its output.
#[derive(Debug)]
pub enum JobError {
    /// The encoder binary could not be found or fetched.
    PrerequisiteMissing(String),
    /// The input path lacks a parent directory or a base name.
    InvalidPath,
    /// The operating system did not start the encoder.
    SpawnFailure(String),
    /// Waiting for the encoder to end failed.
    WaitFailure(String),
    /// The encoder ended with a failing status; its exit code, if it had one.
    EncodingFailure(Option<i32>),
    /// The encoder reported success but the output file is not there.
    OutputMissing,
}

} // verus!
