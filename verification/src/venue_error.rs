//! Failures of a command on its way to the venue, and what they say about the order.

use crate::execution_write::ExecutionWriteGateError;
use vstd::prelude::*;

verus! {

/// The venue took a request whose outcome its own bus did not report.
pub const BINANCE_UNEXPECTED_RESPONSE_CODE: i64 = -1006;

/// The venue timed out on a request whose outcome is unknown.
pub const BINANCE_STATUS_UNKNOWN_CODE: i64 = -1007;

/// The venue rejected a new order.
pub const BINANCE_NEW_ORDER_REJECTED_CODE: i64 = -2010;

/// The venue rejected a post-only order that would have crossed.
pub const BINANCE_GTX_ORDER_REJECT_CODE: i64 = -5022;

/// What the venue says of a post-only Spot order that would have crossed.
pub open spec fn post_only_reject_text() -> Seq<char> {
    "Order would immediately match and take."@
}

/// A failure of the Spot HTTP client.
#[derive(Clone, Debug, PartialEq, Eq)]
pub enum BinanceSpotHttpError {
    /// The venue answered with an error.
    BinanceError {
        /// Error code.
        code: i64,
        /// Error message.
        message: String,
    },
    /// The request needs credentials that were not given.
    MissingCredentials,
    /// The request was malformed and did not leave.
    ValidationError(String),
    /// The request or its answer was lost.
    NetworkError(String),
    /// Any other failure, in which the request may have left.
    Other(String),
}

/// A failure of a command, whatever part of the way it happened on.
#[derive(Clone, Debug, PartialEq, Eq)]
pub enum CommandError {
    /// The HTTP client failed.
    Http(BinanceSpotHttpError),
    /// The write gate failed.
    Gate(ExecutionWriteGateError),
    /// Something else failed.
    Other(String),
}

/// Whether a venue code and message say that a post-only order would have crossed.
pub open spec fn post_only_rejection(code: int, message: Seq<char>) -> bool {
    code == BINANCE_GTX_ORDER_REJECT_CODE || (code == BINANCE_NEW_ORDER_REJECTED_CODE && message
        == post_only_reject_text())
}

/// Whether a venue code leaves the outcome of a write open.
pub open spec fn ambiguous_code(code: int) -> bool {
    code == BINANCE_UNEXPECTED_RESPONSE_CODE || code == BINANCE_STATUS_UNKNOWN_CODE
}

/// Whether an HTTP failure says that a post-only order would have crossed.
pub open spec fn http_post_only_rejection(error: BinanceSpotHttpError) -> bool {
    error matches BinanceSpotHttpError::BinanceError { code, message } && post_only_rejection(
        code as int,
        message@,
    )
}

/// Whether an HTTP failure happened before the request left.
pub open spec fn local_http_failure(error: BinanceSpotHttpError) -> bool {
    error is MissingCredentials || error is ValidationError
}

/// Whether the venue itself answered with an error.
pub open spec fn structured_rejection(error: CommandError) -> bool {
    error matches CommandError::Http(e) && e is BinanceError
}

/// Whether the venue answered that it does not know the outcome.
pub open spec fn ambiguous_error(error: CommandError) -> bool {
    error matches CommandError::Http(BinanceSpotHttpError::BinanceError { code, .. })
        && ambiguous_code(code as int)
}

/// Whether the command failed before its request left.
pub open spec fn local_failure(error: CommandError) -> bool {
    error matches CommandError::Http(e) && local_http_failure(e)
}

/// Whether a venue code leaves the outcome of a write open.
pub fn is_ambiguous_code(code: i64) -> (r: bool)
    ensures
        r == ambiguous_code(code as int),
{
    code == BINANCE_UNEXPECTED_RESPONSE_CODE || code == BINANCE_STATUS_UNKNOWN_CODE
}

/// Whether a venue code and message say that a post-only order would have crossed: the code of a
/// GTX order, or that of a new order with the message of a limit maker.
pub fn is_post_only_code(code: i64, message: &String) -> (r: bool)
    ensures
        r == post_only_rejection(code as int, message@),
{
    code == BINANCE_GTX_ORDER_REJECT_CODE || (code == BINANCE_NEW_ORDER_REJECTED_CODE && *message
        == "Order would immediately match and take.".to_owned())
}

/// Whether an HTTP failure says that a post-only order would have crossed.
pub fn is_spot_post_only_rejection(error: &BinanceSpotHttpError) -> (r: bool)
    ensures
        r == http_post_only_rejection(*error),
{
    match error {
        BinanceSpotHttpError::BinanceError { code, message } => is_post_only_code(*code, message),
        _ => false,
    }
}

/// Whether the venue itself answered with an error.
pub fn is_structured_venue_rejection(err: &CommandError) -> (r: bool)
    ensures
        r == structured_rejection(*err),
{
    match err {
        CommandError::Http(BinanceSpotHttpError::BinanceError { .. }) => true,
        _ => false,
    }
}

/// Whether the venue answered that it does not know the outcome.
pub fn is_ambiguous_submit_error(err: &CommandError) -> (r: bool)
    ensures
        r == ambiguous_error(*err),
{
    match err {
        CommandError::Http(BinanceSpotHttpError::BinanceError { code, .. }) => is_ambiguous_code(
            *code,
        ),
        _ => false,
    }
}

/// Whether the command failed before its request left.
pub fn is_local_command_failure(err: &CommandError) -> (r: bool)
    ensures
        r == local_failure(*err),
{
    match err {
        CommandError::Http(error) => is_local_http_command_failure(error),
        _ => false,
    }
}

/// Whether an HTTP failure happened before the request left.
pub fn is_local_http_command_failure(err: &BinanceSpotHttpError) -> (r: bool)
    ensures
        r == local_http_failure(*err),
{
    match err {
        BinanceSpotHttpError::MissingCredentials => true,
        BinanceSpotHttpError::ValidationError(_) => true,
        _ => false,
    }
}

/// An ambiguous failure is an answer of the venue, and no answer of the venue is a local
/// failure.
pub proof fn law_failure_classes(error: CommandError)
    ensures
        ambiguous_error(error) ==> structured_rejection(error),
        !(structured_rejection(error) && local_failure(error)),
        error matches CommandError::Http(e) && http_post_only_rejection(e) ==> structured_rejection(
            error,
        ) && !ambiguous_error(error),
{
}

} // verus!
