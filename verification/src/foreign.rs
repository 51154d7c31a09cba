//! Errors of other libraries.

use vstd::prelude::*;

verus! {

/// `std::io::Error`, the failure of an input or output operation.
#[verifier::external_type_specification]
#[verifier::external_body]
pub struct ExIoError(std::io::Error);

/// `serde_json::Error`, the failure to encode or decode JSON.
#[verifier::external_type_specification]
#[verifier::external_body]
pub struct ExJsonError(serde_json::Error);

/// Calls `Display` of `std::io::Error`. The operating system words some of the
/// messages, so nothing is said of the text.
#[verifier::external_body]
fn write_io_error(err: &std::io::Error) -> String {
    err.to_string()
}

/// Calls `Display` of `serde_json::Error`. An error that came from reading or
/// writing shows the message of its `std::io::Error`, so nothing is said of the
/// text.
#[verifier::external_body]
fn write_json_error(err: &serde_json::Error) -> String {
    err.to_string()
}

/// Whether `text` is a message that `err` can be shown with.
pub closed spec fn shows_io(err: std::io::Error, text: String) -> bool {
    call_ensures(write_io_error, (&err,), text)
}

/// The message of an input or output error.
pub fn io_error_text(err: &std::io::Error) -> (res: String)
    ensures
        shows_io(*err, res),
{
    write_io_error(err)
}

/// Whether `text` is a message that `err` can be shown with.
pub closed spec fn shows_json(err: serde_json::Error, text: String) -> bool {
    call_ensures(write_json_error, (&err,), text)
}

/// The message of a JSON error.
pub fn json_error_text(err: &serde_json::Error) -> (res: String)
    ensures
        shows_json(*err, res),
{
    write_json_error(err)
}

} // verus!
