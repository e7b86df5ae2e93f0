//! Errors that cross the boundary to the host.

use vstd::prelude::*;
use vstd::string::*;

verus! {

/// Why an extraction from a request could not be carried out.
#[derive(Clone, Copy, Debug, PartialEq, Eq, Structural)]
pub enum StructuralFault {
    /// The request holds no subrequest at all.
    NoSubrequests,
    /// The first subrequest is not a plain object query.
    NotObjectQuery,
}

/// A failure on either side of the boundary.
#[derive(Debug, PartialEq, Eq)]
pub enum BridgeError {
    /// The query text does not follow the grammar; carries the parser's diagnostic.
    Parsing(String),
    /// The dialect name is neither `postgres` nor `duckdb`.
    UnsupportedDialect,
    /// An extraction met a request of the wrong shape.
    Structure(StructuralFault),
    /// The host callable failed; carries what the host reported.
    Callback(String),
    /// A callback handle was resolved that the registry does not hold.
    UnknownCallback,
}

/// The mathematical value of a [`BridgeError`].
pub enum BridgeErrorView {
    Parsing(Seq<char>),
    UnsupportedDialect,
    Structure(StructuralFault),
    Callback(Seq<char>),
    UnknownCallback,
}

impl View for BridgeError {
    type V = BridgeErrorView;

    open spec fn view(&self) -> BridgeErrorView {
        match self {
            BridgeError::Parsing(d) => BridgeErrorView::Parsing(d@),
            BridgeError::UnsupportedDialect => BridgeErrorView::UnsupportedDialect,
            BridgeError::Structure(f) => BridgeErrorView::Structure(*f),
            BridgeError::Callback(m) => BridgeErrorView::Callback(m@),
            BridgeError::UnknownCallback => BridgeErrorView::UnknownCallback,
        }
    }
}

/// The text that the host sees for an error.
pub open spec fn message_of(e: BridgeErrorView) -> Seq<char> {
    match e {
        BridgeErrorView::Parsing(d) => "Failed to parse query: "@ + d,
        BridgeErrorView::UnsupportedDialect => "Unsupported SQL dialect"@,
        BridgeErrorView::Structure(StructuralFault::NoSubrequests) => "Request has no subrequest"@,
        BridgeErrorView::Structure(StructuralFault::NotObjectQuery) =>
            "First subrequest is not an object query"@,
        BridgeErrorView::Callback(m) => "Quote callable failed: "@ + m,
        BridgeErrorView::UnknownCallback => "Quote callable is not registered"@,
    }
}

impl BridgeError {
    /// Whether the host should see this error as its distinguished parsing
    /// error rather than as a generic runtime error.
    pub fn is_parsing_error(&self) -> (b: bool)
        ensures
            b == (self@ is Parsing),
    {
        match self {
            BridgeError::Parsing(_) => true,
            _ => false,
        }
    }

    /// The message handed to the host together with the error kind.
    pub fn message(&self) -> (text: String)
        ensures
            text@ == message_of(self@),
    {
        match self {
            BridgeError::Parsing(d) => String::from_str("Failed to parse query: ").concat(
                d.as_str(),
            ),
            BridgeError::UnsupportedDialect => String::from_str("Unsupported SQL dialect"),
            BridgeError::Structure(StructuralFault::NoSubrequests) => String::from_str(
                "Request has no subrequest",
            ),
            BridgeError::Structure(StructuralFault::NotObjectQuery) => String::from_str(
                "First subrequest is not an object query",
            ),
            BridgeError::Callback(m) => String::from_str("Quote callable failed: ").concat(
                m.as_str(),
            ),
            BridgeError::UnknownCallback => String::from_str("Quote callable is not registered"),
        }
    }
}

/// A parsing error's message always carries the parser's diagnostic at its
/// end, so it is non-empty whenever the diagnostic is.
pub proof fn lemma_parsing_message_carries_diagnostic(diagnostic: Seq<char>)
    ensures
        message_of(BridgeErrorView::Parsing(diagnostic)).len() >= diagnostic.len(),
        message_of(BridgeErrorView::Parsing(diagnostic)).subrange(
            message_of(BridgeErrorView::Parsing(diagnostic)).len() - diagnostic.len(),
            message_of(BridgeErrorView::Parsing(diagnostic)).len() as int,
        ) == diagnostic,
{
    let head = "Failed to parse query: "@;
    let full = message_of(BridgeErrorView::Parsing(diagnostic));
    assert(full == head + diagnostic);
    assert(full.subrange(full.len() - diagnostic.len(), full.len() as int) =~= diagnostic);
}

} // verus!
