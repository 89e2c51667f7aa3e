//! The one error type that a job reports.

use vstd::prelude::*;
use crate::geometry::GeometryError;
use crate::output_path::PathError;
use crate::pipeline::BuildError;
use crate::raster::PreprocessError;

verus! {

/// Why the driver gave up before any event was read.
#[derive(Clone, Copy, Debug, PartialEq, Eq, Structural)]
pub enum DriverError {
    /// The graph refused to start playing.
    StateChangeRejected,
}

/// Why a job failed. Nothing is retried: the first failure ends the job.
#[derive(Clone, Debug, PartialEq, Eq)]
pub enum JobError {
    /// A file was not chosen, or a path names no file. No job was attempted.
    InvalidInput,
    /// The logo has a degenerate size.
    InvalidGeometry,
    /// The logo could not be decoded, scaled or written.
    Preprocess(PreprocessError),
    /// The graph could not be built.
    Build(BuildError),
    /// The graph could not be started.
    Driver(DriverError),
    /// The running graph reported an error; its cause is kept word for word.
    PipelineRuntime(String),
}

/// What `JobError::message` says of an error.
pub open spec fn message_of(error: JobError) -> Seq<char> {
    match error {
        JobError::InvalidInput => "input incomplete"@,
        JobError::InvalidGeometry => "the logo has no valid size"@,
        JobError::Preprocess(PreprocessError::Decode) => "the logo could not be decoded"@,
        JobError::Preprocess(PreprocessError::Resize) => "the logo could not be scaled"@,
        JobError::Preprocess(PreprocessError::Io) => "the scaled logo could not be written"@,
        JobError::Build(BuildError::Unparsable) => "the pipeline could not be constructed"@,
        JobError::Build(BuildError::MissingStage(_)) => "the pipeline lacks a stage"@,
        JobError::Build(BuildError::PropertyRejected(_, _)) => "a stage rejected a value"@,
        JobError::Driver(DriverError::StateChangeRejected) => "the pipeline refused to start"@,
        JobError::PipelineRuntime(cause) => cause@,
    }
}

impl JobError {
    /// The text shown to the user. The cause of a failure of the running
    /// graph is handed on unchanged.
    pub fn message(&self) -> (text: String)
        ensures
            text@ == message_of(*self),
    {
        match self {
            JobError::InvalidInput => String::from_str("input incomplete"),
            JobError::InvalidGeometry => String::from_str("the logo has no valid size"),
            JobError::Preprocess(PreprocessError::Decode) => String::from_str(
                "the logo could not be decoded",
            ),
            JobError::Preprocess(PreprocessError::Resize) => String::from_str(
                "the logo could not be scaled",
            ),
            JobError::Preprocess(PreprocessError::Io) => String::from_str(
                "the scaled logo could not be written",
            ),
            JobError::Build(BuildError::Unparsable) => String::from_str(
                "the pipeline could not be constructed",
            ),
            JobError::Build(BuildError::MissingStage(_)) => String::from_str(
                "the pipeline lacks a stage",
            ),
            JobError::Build(BuildError::PropertyRejected(_, _)) => String::from_str(
                "a stage rejected a value",
            ),
            JobError::Driver(DriverError::StateChangeRejected) => String::from_str(
                "the pipeline refused to start",
            ),
            JobError::PipelineRuntime(cause) => cause.clone(),
        }
    }

    /// The job error that stands for a failed geometry.
    pub fn from_geometry(error: GeometryError) -> (job: JobError)
        ensures
            job == JobError::InvalidGeometry,
    {
        match error {
            GeometryError::InvalidGeometry => JobError::InvalidGeometry,
        }
    }

    /// The job error that stands for a source path that names no file.
    pub fn from_path(error: PathError) -> (job: JobError)
        ensures
            job == JobError::InvalidInput,
    {
        match error {
            PathError::InvalidPath => JobError::InvalidInput,
        }
    }
}

} // verus!
