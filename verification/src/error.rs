//! The ways in which a log search fails, with the code and the message that
//! each one carries to the client.

use vstd::prelude::*;
use crate::block::{tag_text, tag_to_string, BlockTag};

verus! {

/// A block identifier as the search looked it up: a parsed tag or number, or
/// the text of a hash as the client wrote it.
#[derive(Debug, Clone, PartialEq, Eq)]
pub enum BlockIdentifier {
    Tag(BlockTag),
    Hash(String),
}

/// The mathematical content of a [`BlockIdentifier`].
pub enum IdentifierView {
    Tag(BlockTag),
    Hash(Seq<char>),
}

impl View for BlockIdentifier {
    type V = IdentifierView;

    open spec fn view(&self) -> IdentifierView {
        match self {
            BlockIdentifier::Tag(tag) => IdentifierView::Tag(*tag),
            BlockIdentifier::Hash(text) => IdentifierView::Hash(text@),
        }
    }
}

/// Why a log search failed.
#[derive(Debug, Clone, PartialEq, Eq)]
pub enum GetLogsError {
    /// The chain holds no block for this identifier.
    BlockNotFound(BlockIdentifier),
    /// A block hash stands beside a start or an end of a block range.
    AmbiguousRange,
    /// More than four topics.
    TooManyTopics,
    /// A block identifier could not be parsed; the text is the parser's.
    MalformedIdentifier(String),
    /// The chain could not be read; the text is the chain's.
    ResolverUnavailable(String),
    /// The store could not run a query; the text says why.
    QueryExecutionFailure(String),
}

/// The mathematical content of a [`GetLogsError`].
pub enum ErrorView {
    BlockNotFound(IdentifierView),
    AmbiguousRange,
    TooManyTopics,
    MalformedIdentifier(Seq<char>),
    ResolverUnavailable(Seq<char>),
    QueryExecutionFailure(Seq<char>),
}

impl ErrorView {
    /// The code that the error carries to the client.
    pub open spec fn code(self) -> int {
        match self {
            ErrorView::AmbiguousRange => -32001,
            ErrorView::TooManyTopics => 32002,
            ErrorView::QueryExecutionFailure(_) => -32603,
            _ => -1,
        }
    }

    /// The message that the error carries to the client.
    pub open spec fn message(self) -> Seq<char> {
        match self {
            ErrorView::BlockNotFound(IdentifierView::Tag(tag)) =>
                "No block found for block number or tag: "@ + tag_text(tag),
            ErrorView::BlockNotFound(IdentifierView::Hash(text)) =>
                "No block found for block hash: "@ + text,
            ErrorView::AmbiguousRange =>
                "Parameters fromBlock and toBlock cannot be used if blockHash parameter is present"@,
            ErrorView::TooManyTopics => "Only up to four topics are allowed"@,
            ErrorView::MalformedIdentifier(detail) => detail,
            ErrorView::ResolverUnavailable(detail) => detail,
            ErrorView::QueryExecutionFailure(detail) => detail,
        }
    }
}

impl View for GetLogsError {
    type V = ErrorView;

    open spec fn view(&self) -> ErrorView {
        match self {
            GetLogsError::BlockNotFound(identifier) => ErrorView::BlockNotFound(identifier@),
            GetLogsError::AmbiguousRange => ErrorView::AmbiguousRange,
            GetLogsError::TooManyTopics => ErrorView::TooManyTopics,
            GetLogsError::MalformedIdentifier(detail) => ErrorView::MalformedIdentifier(detail@),
            GetLogsError::ResolverUnavailable(detail) => ErrorView::ResolverUnavailable(detail@),
            GetLogsError::QueryExecutionFailure(detail) => ErrorView::QueryExecutionFailure(
                detail@,
            ),
        }
    }
}

impl GetLogsError {
    /// The code that the error carries to the client.
    pub fn code(&self) -> (code: i32)
        ensures
            code == self@.code(),
    {
        match self {
            GetLogsError::AmbiguousRange => -32001,
            GetLogsError::TooManyTopics => 32002,
            GetLogsError::QueryExecutionFailure(_) => -32603,
            _ => -1,
        }
    }

    /// The message that the error carries to the client.
    pub fn message(&self) -> (message: String)
        ensures
            message@ == self@.message(),
    {
        match self {
            GetLogsError::BlockNotFound(BlockIdentifier::Tag(tag)) => {
                let name = tag_to_string(*tag);
                String::from_str("No block found for block number or tag: ").concat(
                    name.as_str(),
                )
            },
            GetLogsError::BlockNotFound(BlockIdentifier::Hash(text)) => {
                String::from_str("No block found for block hash: ").concat(text.as_str())
            },
            GetLogsError::AmbiguousRange => String::from_str(
                "Parameters fromBlock and toBlock cannot be used if blockHash parameter is present",
            ),
            GetLogsError::TooManyTopics => String::from_str("Only up to four topics are allowed"),
            GetLogsError::MalformedIdentifier(detail) => detail.clone(),
            GetLogsError::ResolverUnavailable(detail) => detail.clone(),
            GetLogsError::QueryExecutionFailure(detail) => detail.clone(),
        }
    }
}

} // verus!
