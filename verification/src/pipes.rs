use vstd::prelude::*;
use vstd::utf8::{decode_utf8, valid_utf8};
use crate::test_errors::ExecutionError;

verus! {

/// Relies on std's String::from_utf8: yields the text those bytes
/// encode exactly when they are valid UTF-8.
#[verifier::external_body]
fn bytes_to_string(bytes: Vec<u8>) -> (r: Option<String>)
    ensures
        r is Some <==> valid_utf8(bytes@),
        r matches Some(s) ==> s@ == decode_utf8(bytes@),
{
    String::from_utf8(bytes).ok()
}

/// Judges what a capture pipe delivered: `None` means the pipe broke
/// while reading, bytes that are not UTF-8 are an invalid output, and
/// valid bytes decode to the captured text.
pub fn decode_pipe_output(data: Option<Vec<u8>>) -> (r: Result<String, ExecutionError>)
    ensures
        data is None <==> r matches Err(ExecutionError::PipeError),
        data matches Some(bytes) ==> {
            if valid_utf8(bytes@) {
                r matches Ok(s) && s@ == decode_utf8(bytes@)
            } else {
                r matches Err(ExecutionError::OutputNotUtf8)
            }
        },
{
    match data {
        None => Err(ExecutionError::PipeError),
        Some(bytes) => {
            match bytes_to_string(bytes) {
                Some(text) => Ok(text),
                None => Err(ExecutionError::OutputNotUtf8),
            }
        },
    }
}

} // verus!
