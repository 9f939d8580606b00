//! The one failure that the client reports: a message that says what was
//! being done and carries the cause as it was given.

use vstd::prelude::*;
use vstd::string::*;
use crate::text::{contains_text, lemma_suffix_is_contained};

verus! {

/// A failure of the client. It is not classified: it holds a message for a
/// human reader, which ends in the cause.
#[derive(Debug, Clone, PartialEq, Eq)]
pub struct ClientError {
    pub message: String,
}

impl View for ClientError {
    type V = Seq<char>;

    open spec fn view(&self) -> Seq<char> {
        self.message@
    }
}

/// What a failure to set up the connection is introduced with.
pub open spec fn initialization_context() -> Seq<char> {
    "failed to initialize bigtable client: "@
}

/// What a failed batched mutation is introduced with.
pub open spec fn mutate_rows_context() -> Seq<char> {
    "failed to mutate rows: "@
}

/// What a failed read call is introduced with.
pub open spec fn read_rows_context() -> Seq<char> {
    "failed to read rows: "@
}

/// What a failure to receive the read's response is introduced with.
pub open spec fn read_response_context() -> Seq<char> {
    "failed to read response: "@
}

impl ClientError {
    /// The failure whose message is `context` followed by `cause`.
    fn with_context(context: &str, cause: &str) -> (error: ClientError)
        ensures
            error@ == context@ + cause@,
            contains_text(error@, cause@),
    {
        proof {
            lemma_suffix_is_contained(context@, cause@);
        }
        ClientError { message: String::from_str(context).concat(cause) }
    }

    /// The connection could not be set up, for `cause`.
    pub fn initialization(cause: &str) -> (error: ClientError)
        ensures
            error@ == initialization_context() + cause@,
            contains_text(error@, cause@),
    {
        ClientError::with_context("failed to initialize bigtable client: ", cause)
    }

    /// The batched mutation was refused or did not get through, for `cause`.
    pub fn mutate_rows(cause: &str) -> (error: ClientError)
        ensures
            error@ == mutate_rows_context() + cause@,
            contains_text(error@, cause@),
    {
        ClientError::with_context("failed to mutate rows: ", cause)
    }

    /// The read call was refused or did not get through, for `cause`.
    pub fn read_rows(cause: &str) -> (error: ClientError)
        ensures
            error@ == read_rows_context() + cause@,
            contains_text(error@, cause@),
    {
        ClientError::with_context("failed to read rows: ", cause)
    }

    /// The read was accepted but its response could not be received, for
    /// `cause`.
    pub fn read_response(cause: &str) -> (error: ClientError)
        ensures
            error@ == read_response_context() + cause@,
            contains_text(error@, cause@),
    {
        ClientError::with_context("failed to read response: ", cause)
    }

    /// The message, for a log line or a reply.
    pub fn message(&self) -> (message: String)
        ensures
            message@ == self@,
    {
        self.message.clone()
    }
}

} // verus!
