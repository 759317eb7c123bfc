//! The stages in sequence: text that was read, decoded, then checked.
//!
//! Reading the file is the caller's part. What was read, or the failure to
//! read it, comes in as a plain value, and the first stage that fails decides
//! the outcome: its failure is handed on as it is, under a variant of its own.

use vstd::prelude::*;
use vstd::string::StringExecFns;
use crate::parse::{parse, parsed, ParseFailure, ParseFailureView};
use crate::record::{ClusterMap, ClusterMapError, ClusterMapView};

verus! {

/// A configuration file could not be read.
#[derive(Debug, PartialEq, Eq)]
pub struct IoFailure {
    /// The path that was asked for.
    pub path: String,
    /// What the system said of the failure.
    pub cause: String,
}

/// What an [`IoFailure`] stands for.
pub ghost struct IoFailureView {
    pub path: Seq<char>,
    pub cause: Seq<char>,
}

impl View for IoFailure {
    type V = IoFailureView;

    open spec fn view(&self) -> IoFailureView {
        IoFailureView { path: self.path@, cause: self.cause@ }
    }
}

impl IoFailureView {
    /// What [`IoFailure::message`] says: the path, then the cause.
    pub open spec fn message_text(self) -> Seq<char> {
        "failed to read config file: "@ + self.path + ": "@ + self.cause
    }
}

impl IoFailure {
    /// The failure in words, as in
    /// `failed to read config file: cluster.json: permission denied`.
    pub fn message(&self) -> (r: String)
        ensures
            r@ == self@.message_text(),
    {
        let mut text: String = String::from_str("failed to read config file: ");
        text.append(self.path.as_str());
        text.append(": ");
        text.append(self.cause.as_str());
        text
    }
}

/// The failure of one stage, kept apart from those of the others.
#[derive(Debug, PartialEq, Eq)]
pub enum PipelineError {
    /// The file could not be read.
    Io(IoFailure),
    /// The text could not be decoded into a record.
    Parse(ParseFailure),
    /// The record was decoded, and is not valid.
    Config(ClusterMapError),
}

/// What a [`PipelineError`] stands for.
pub ghost enum PipelineErrorView {
    Io(IoFailureView),
    Parse(ParseFailureView),
    Config(ClusterMapError),
}

impl View for PipelineError {
    type V = PipelineErrorView;

    open spec fn view(&self) -> PipelineErrorView {
        match self {
            PipelineError::Io(failure) => PipelineErrorView::Io(failure@),
            PipelineError::Parse(failure) => PipelineErrorView::Parse(failure@),
            PipelineError::Config(error) => PipelineErrorView::Config(*error),
        }
    }
}

impl PipelineErrorView {
    /// What [`PipelineError::message`] says: the message of the stage that
    /// failed.
    pub open spec fn message_text(self) -> Seq<char> {
        match self {
            PipelineErrorView::Io(failure) => failure.message_text(),
            PipelineErrorView::Parse(failure) => failure.message_text(),
            PipelineErrorView::Config(error) => error.message_text(),
        }
    }
}

impl PipelineError {
    /// The failure in words, whatever the stage that met it.
    pub fn message(&self) -> (r: String)
        ensures
            r@ == self@.message_text(),
    {
        match self {
            PipelineError::Io(failure) => failure.message(),
            PipelineError::Parse(failure) => failure.message(),
            PipelineError::Config(error) => error.message(),
        }
    }
}

impl From<IoFailure> for PipelineError {
    fn from(failure: IoFailure) -> (r: Self) {
        PipelineError::Io(failure)
    }
}

impl vstd::std_specs::convert::FromSpecImpl<IoFailure> for PipelineError {
    open spec fn obeys_from_spec() -> bool {
        true
    }

    open spec fn from_spec(failure: IoFailure) -> Self {
        PipelineError::Io(failure)
    }
}

impl From<ParseFailure> for PipelineError {
    fn from(failure: ParseFailure) -> (r: Self) {
        PipelineError::Parse(failure)
    }
}

impl vstd::std_specs::convert::FromSpecImpl<ParseFailure> for PipelineError {
    open spec fn obeys_from_spec() -> bool {
        true
    }

    open spec fn from_spec(failure: ParseFailure) -> Self {
        PipelineError::Parse(failure)
    }
}

impl From<ClusterMapError> for PipelineError {
    fn from(error: ClusterMapError) -> (r: Self) {
        PipelineError::Config(error)
    }
}

impl vstd::std_specs::convert::FromSpecImpl<ClusterMapError> for PipelineError {
    open spec fn obeys_from_spec() -> bool {
        true
    }

    open spec fn from_spec(error: ClusterMapError) -> Self {
        PipelineError::Config(error)
    }
}

/// What the outcome of reading stands for.
pub open spec fn loaded_view(loaded: Result<String, IoFailure>) -> Result<
    Seq<char>,
    IoFailureView,
> {
    match loaded {
        Ok(text) => Ok(text@),
        Err(failure) => Err(failure@),
    }
}

/// What the outcome of all stages stands for.
pub open spec fn outcome_view(r: Result<ClusterMap, PipelineError>) -> Result<
    ClusterMapView,
    PipelineErrorView,
> {
    match r {
        Ok(record) => Ok(record@),
        Err(error) => Err(error@),
    }
}

/// The outcome of the stages that follow the read: a failure to read stays
/// what it is; text that does not decode fails with the decoder's verdict; a
/// record that decodes is checked, and comes out only if it is valid.
pub open spec fn cluster_info(loaded: Result<Seq<char>, IoFailureView>) -> Result<
    ClusterMapView,
    PipelineErrorView,
> {
    match loaded {
        Err(failure) => Err(PipelineErrorView::Io(failure)),
        Ok(text) => match parsed(text) {
            Err(failure) => Err(PipelineErrorView::Parse(failure)),
            Ok(record) => match record.validated() {
                Err(error) => Err(PipelineErrorView::Config(error)),
                Ok(valid) => Ok(valid),
            },
        },
    }
}

/// Runs the stages that follow the read on what the read gave.
///
/// `loaded` is the text of the configuration file, or the failure to read it.
/// The stages run in order and the first failure ends the run; see
/// [`cluster_info`] for the outcome.
pub fn get_cluster_info(loaded: Result<String, IoFailure>) -> (r: Result<
    ClusterMap,
    PipelineError,
>)
    ensures
        outcome_view(r) == cluster_info(loaded_view(loaded)),
        loaded matches Err(failure) ==> (r matches Err(error) && error == PipelineError::Io(
            failure,
        )),
{
    let text: String = match loaded {
        Ok(text) => text,
        Err(failure) => { return Err(PipelineError::from(failure)); },
    };
    let record: ClusterMap = match parse(text.as_str()) {
        Ok(record) => record,
        Err(failure) => { return Err(PipelineError::from(failure)); },
    };
    match record.validate() {
        Ok(valid) => Ok(valid),
        Err(error) => Err(PipelineError::from(error)),
    }
}

/// A record that comes out of the stages is valid: its group is in range.
pub proof fn lemma_outcome_is_valid(loaded: Result<Seq<char>, IoFailureView>)
    ensures
        cluster_info(loaded) matches Ok(record) ==> record.valid(),
{
}

/// An outcome names the stage that gave it: a record comes out only of text
/// that decodes to it and is valid; the failure of a read, only of that read;
/// the decoder's verdict, only of text that was read and met it; and a group,
/// only of a record that was decoded and holds that group out of range.
pub proof fn lemma_outcome_names_its_stage(loaded: Result<Seq<char>, IoFailureView>)
    ensures
        match cluster_info(loaded) {
            Ok(record) => loaded matches Ok(text) && parsed(text) matches Ok(decoded)
                && decoded == record && record.valid(),
            Err(PipelineErrorView::Io(failure)) => loaded matches Err(met) && met == failure,
            Err(PipelineErrorView::Parse(failure)) => loaded matches Ok(text)
                && parsed(text) matches Err(met) && met == failure,
            Err(PipelineErrorView::Config(error)) => loaded matches Ok(text)
                && parsed(text) matches Ok(decoded) && !decoded.valid()
                && error == ClusterMapError::InvalidGroup(decoded.group),
        },
{
}

/// Running the stages twice on what was read from an unchanged file gives
/// equal outcomes: two reads that stand for the same value have outcomes that
/// stand for the same value.
pub proof fn lemma_same_input_same_outcome(
    first: Result<String, IoFailure>,
    second: Result<String, IoFailure>,
    first_outcome: Result<ClusterMap, PipelineError>,
    second_outcome: Result<ClusterMap, PipelineError>,
)
    requires
        loaded_view(first) == loaded_view(second),
        outcome_view(first_outcome) == cluster_info(loaded_view(first)),
        outcome_view(second_outcome) == cluster_info(loaded_view(second)),
    ensures
        outcome_view(first_outcome) == outcome_view(second_outcome),
{
}

} // verus!
