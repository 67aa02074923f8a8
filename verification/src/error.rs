//! Failures of the replicated service.

use vstd::prelude::*;

use crate::text::{decimal, decimal_text, join, signed_decimal, signed_decimal_text};

verus! {

#[derive(Debug)]
pub enum S2CError {
    ApplicationResultUnavailable,
    CommitError,
    ConcurrentStateModification,
    RequestOutOfSequence { next_seq_num: u64 },
    LowRankNode { highest_rank: i32 },
    OperationNotPermitted,
    ObjectCorrupted(String),
    NonTransientS3(String),
    ReplayerBroken(String),
    Io(String),
}

impl Clone for S2CError {
    fn clone(&self) -> (copy: Self)
        ensures
            copy == *self,
    {
        match self {
            S2CError::ApplicationResultUnavailable => S2CError::ApplicationResultUnavailable,
            S2CError::CommitError => S2CError::CommitError,
            S2CError::ConcurrentStateModification => S2CError::ConcurrentStateModification,
            S2CError::RequestOutOfSequence { next_seq_num } => S2CError::RequestOutOfSequence {
                next_seq_num: *next_seq_num,
            },
            S2CError::LowRankNode { highest_rank } => S2CError::LowRankNode {
                highest_rank: *highest_rank,
            },
            S2CError::OperationNotPermitted => S2CError::OperationNotPermitted,
            S2CError::ObjectCorrupted(detail) => S2CError::ObjectCorrupted(detail.clone()),
            S2CError::NonTransientS3(detail) => S2CError::NonTransientS3(detail.clone()),
            S2CError::ReplayerBroken(detail) => S2CError::ReplayerBroken(detail.clone()),
            S2CError::Io(detail) => S2CError::Io(detail.clone()),
        }
    }
}

/// What an [`S2CError`] says to a reader.
pub open spec fn s2c_error_text(error: S2CError) -> Seq<char> {
    match error {
        S2CError::ApplicationResultUnavailable => "application result unavailable"@,
        S2CError::CommitError => "commit failure"@,
        S2CError::ConcurrentStateModification => "concurrent state modification"@,
        S2CError::RequestOutOfSequence { next_seq_num } => "request out of sequence; next expected: "@
            + decimal(next_seq_num as nat),
        S2CError::LowRankNode { highest_rank } => "low-rank node; highest rank seen: "@
            + signed_decimal(highest_rank as int),
        S2CError::OperationNotPermitted => "operation not permitted: node is not the leader"@,
        S2CError::ObjectCorrupted(detail) => "object corrupted: "@ + detail@,
        S2CError::NonTransientS3(detail) => "non-transient S3 error: "@ + detail@,
        S2CError::ReplayerBroken(detail) => "log replayer broken: "@ + detail@,
        S2CError::Io(detail) => "IO error: "@ + detail@,
    }
}

impl S2CError {
    /// The error as text.
    pub fn message(&self) -> (text: String)
        ensures
            text@ == s2c_error_text(*self),
    {
        match self {
            S2CError::ApplicationResultUnavailable => "application result unavailable".to_owned(),
            S2CError::CommitError => "commit failure".to_owned(),
            S2CError::ConcurrentStateModification => "concurrent state modification".to_owned(),
            S2CError::RequestOutOfSequence { next_seq_num } => join(
                "request out of sequence; next expected: ",
                decimal_text(*next_seq_num).as_str(),
            ),
            S2CError::LowRankNode { highest_rank } => join(
                "low-rank node; highest rank seen: ",
                signed_decimal_text(*highest_rank).as_str(),
            ),
            S2CError::OperationNotPermitted => "operation not permitted: node is not the leader".to_owned(),
            S2CError::ObjectCorrupted(detail) => join("object corrupted: ", detail.as_str()),
            S2CError::NonTransientS3(detail) => join("non-transient S3 error: ", detail.as_str()),
            S2CError::ReplayerBroken(detail) => join("log replayer broken: ", detail.as_str()),
            S2CError::Io(detail) => join("IO error: ", detail.as_str()),
        }
    }
}

/// A failed input or output operation, as std reports it.
#[verifier::external_type_specification]
#[verifier::external_body]
pub struct ExIoError(std::io::Error);

/// A failed input or output operation can describe itself with this text.
pub uninterp spec fn io_error_reads(error: std::io::Error, text: Seq<char>) -> bool;

/// Calls `to_string` of std's `std::io::Error`. What the text says is up to the operating
/// system and its language, so all that is said is whose text it is.
#[verifier::external_body]
fn io_error_text(error: &std::io::Error) -> (text: String)
    ensures
        io_error_reads(*error, text@),
{
    error.to_string()
}

impl From<std::io::Error> for S2CError {
    /// Keeps the text of a failed input or output operation.
    fn from(err: std::io::Error) -> (error: Self)
        ensures
            error matches S2CError::Io(text) && io_error_reads(err, text@),
    {
        S2CError::Io(io_error_text(&err))
    }
}

impl vstd::std_specs::convert::FromSpecImpl<std::io::Error> for S2CError {
    open spec fn obeys_from_spec() -> bool {
        false
    }

    open spec fn from_spec(v: std::io::Error) -> Self {
        arbitrary()
    }
}

/// What an error says to a reader names the kind of failure, followed by the number or the detail
/// that it carries, whatever that is.
pub proof fn law_s2c_errors_say_what_failed(seq_num: u64, rank: i32, detail: String)
    ensures
        s2c_error_text(S2CError::ApplicationResultUnavailable) == "application result unavailable"@,
        s2c_error_text(S2CError::CommitError) == "commit failure"@,
        s2c_error_text(S2CError::ConcurrentStateModification) == "concurrent state modification"@,
        s2c_error_text(S2CError::OperationNotPermitted)
            == "operation not permitted: node is not the leader"@,
        s2c_error_text(S2CError::RequestOutOfSequence { next_seq_num: seq_num })
            == "request out of sequence; next expected: "@ + decimal(seq_num as nat),
        s2c_error_text(S2CError::LowRankNode { highest_rank: rank })
            == "low-rank node; highest rank seen: "@ + signed_decimal(rank as int),
        s2c_error_text(S2CError::ObjectCorrupted(detail)) == "object corrupted: "@ + detail@,
        s2c_error_text(S2CError::NonTransientS3(detail)) == "non-transient S3 error: "@ + detail@,
        s2c_error_text(S2CError::ReplayerBroken(detail)) == "log replayer broken: "@ + detail@,
        s2c_error_text(S2CError::Io(detail)) == "IO error: "@ + detail@,
{
}

} // verus!
