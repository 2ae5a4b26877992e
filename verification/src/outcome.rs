//! The typed error taxonomy and probe results: invocation errors, parse
//! errors, fact values, and the tri-state probe outcome.

use vstd::prelude::*;

verus! {

/// Why an external invocation failed.
#[derive(Clone, Copy, Debug, PartialEq, Eq, Structural)]
pub enum InvocationErrorKind {
    /// The executable or library entry point does not exist on this host.
    ExecutableNotFound,
    /// The process or call could not be started.
    SpawnFailed,
    /// The call produced output that was not valid UTF-8 text.
    NonUtf8Output,
    /// The call finished with a failure status.
    NonZeroExit,
    /// A native entry point returned a failure code.
    NativeCallFailed,
    /// The call is not available on this platform at all.
    CallUnavailable,
}

/// A failed external invocation, with the kind of failure and a
/// human-readable detail supplied by the invoking layer.
#[derive(Debug)]
pub struct InvocationError {
    pub kind: InvocationErrorKind,
    pub detail: String,
}

pub struct InvocationErrorView {
    pub kind: InvocationErrorKind,
    pub detail: Seq<char>,
}

impl View for InvocationError {
    type V = InvocationErrorView;

    open spec fn view(&self) -> InvocationErrorView {
        InvocationErrorView { kind: self.kind, detail: self.detail@ }
    }
}

impl InvocationError {
    pub fn new(kind: InvocationErrorKind, detail: String) -> (e: InvocationError)
        ensures
            e.kind == kind,
            e.detail == detail,
    {
        InvocationError { kind, detail }
    }
}

/// Why probe output, though present, could not be interpreted.
#[derive(Debug)]
pub enum ParseError {
    /// An expected delimiter or field was absent.
    MissingField,
    /// A field held a value the parser does not recognize.
    UnexpectedToken(String),
    /// Structured text did not parse as a document at all.
    MalformedDocument,
    /// A named key or array index was absent from the document, or the
    /// node there was not the text the parser expected.
    MissingPathSegment,
    /// A numeric field did not parse or was out of range.
    NotANumber,
    /// The tabular header line lacked the column token.
    HeaderFieldMissing,
    /// Every scanned entry was unreadable and none yielded a name.
    EmptyScan,
    /// The raw output kind did not match what this parser consumes.
    WrongShape,
}

pub enum ParseErrorView {
    MissingField,
    UnexpectedToken(Seq<char>),
    MalformedDocument,
    MissingPathSegment,
    NotANumber,
    HeaderFieldMissing,
    EmptyScan,
    WrongShape,
}

impl View for ParseError {
    type V = ParseErrorView;

    open spec fn view(&self) -> ParseErrorView {
        match self {
            ParseError::MissingField => ParseErrorView::MissingField,
            ParseError::UnexpectedToken(t) => ParseErrorView::UnexpectedToken(t@),
            ParseError::MalformedDocument => ParseErrorView::MalformedDocument,
            ParseError::MissingPathSegment => ParseErrorView::MissingPathSegment,
            ParseError::NotANumber => ParseErrorView::NotANumber,
            ParseError::HeaderFieldMissing => ParseErrorView::HeaderFieldMissing,
            ParseError::EmptyScan => ParseErrorView::EmptyScan,
            ParseError::WrongShape => ParseErrorView::WrongShape,
        }
    }
}

/// One strategy's cause of failure: either its invocation failed or its
/// output did not parse.
#[derive(Debug)]
pub enum ProbeError {
    Invocation(InvocationError),
    Parse(ParseError),
}

pub enum ProbeErrorView {
    Invocation(InvocationErrorView),
    Parse(ParseErrorView),
}

impl View for ProbeError {
    type V = ProbeErrorView;

    open spec fn view(&self) -> ProbeErrorView {
        match self {
            ProbeError::Invocation(e) => ProbeErrorView::Invocation(e@),
            ProbeError::Parse(e) => ProbeErrorView::Parse(e@),
        }
    }
}

/// The typed value of one logical fact.
#[derive(Debug)]
pub enum FactValue {
    /// Wireless radio power: on or off.
    Power(bool),
    /// The name of the currently associated network.
    NetworkName(String),
    /// The distinct names of the nearby networks.
    Networks(Vec<String>),
    /// The raw security-configuration bitfield.
    ConfigBits(u32),
}

pub enum FactValueView {
    Power(bool),
    NetworkName(Seq<char>),
    Networks(Seq<Seq<char>>),
    ConfigBits(u32),
}

impl View for FactValue {
    type V = FactValueView;

    open spec fn view(&self) -> FactValueView {
        match self {
            FactValue::Power(b) => FactValueView::Power(*b),
            FactValue::NetworkName(s) => FactValueView::NetworkName(s@),
            FactValue::Networks(v) => FactValueView::Networks(
                v@.map_values(|s: String| s@),
            ),
            FactValue::ConfigBits(b) => FactValueView::ConfigBits(*b),
        }
    }
}

/// The tri-state result of resolving a logical fact. Never partially
/// populated: either one value, or every eligible strategy's cause, or
/// the statement that nothing was eligible at all.
#[derive(Debug)]
pub enum ProbeOutcome {
    /// The first eligible strategy whose invocation and parse both
    /// succeeded produced this value.
    Success(FactValue),
    /// Every eligible strategy failed; the causes in strategy order.
    Failure(Vec<ProbeError>),
    /// No strategy was eligible on this system: an expected, reportable
    /// condition distinct from failure.
    Unsupported,
}

pub enum ProbeOutcomeView {
    Success(FactValueView),
    Failure(Seq<ProbeErrorView>),
    Unsupported,
}

impl View for ProbeOutcome {
    type V = ProbeOutcomeView;

    open spec fn view(&self) -> ProbeOutcomeView {
        match self {
            ProbeOutcome::Success(v) => ProbeOutcomeView::Success(v@),
            ProbeOutcome::Failure(es) => ProbeOutcomeView::Failure(
                es@.map_values(|e: ProbeError| e@),
            ),
            ProbeOutcome::Unsupported => ProbeOutcomeView::Unsupported,
        }
    }
}

} // verus!
