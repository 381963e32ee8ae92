use crate::status::BridgeError;
use vstd::prelude::*;
use vstd::utf8::{decode_utf8, valid_utf8};

verus! {

/// Relies on `String::from_utf8`: it accepts exactly the byte strings that
/// are valid UTF-8 and then holds the characters they encode.
#[verifier::external_body]
fn text_from_utf8(bytes: Vec<u8>) -> (r: Option<String>)
    ensures
        r is Some <==> valid_utf8(bytes@),
        r matches Some(s) ==> s@ == decode_utf8(bytes@),
{
    String::from_utf8(bytes).ok()
}

/// Decodes one path, given as the bytes before its terminating NUL.
pub fn decode_path(bytes: Vec<u8>) -> (r: Result<String, BridgeError>)
    ensures
        r is Ok <==> valid_utf8(bytes@),
        r matches Ok(s) ==> s@ == decode_utf8(bytes@),
        r matches Err(e) ==> e == BridgeError::InvalidEncoding,
{
    match text_from_utf8(bytes) {
        Some(s) => Ok(s),
        None => Err(BridgeError::InvalidEncoding),
    }
}

/// Checks and decodes the input and output path arguments of a call, where
/// `None` stands for an absent argument.
///
/// An absent argument is reported before any decoding is tried; after that,
/// a path that is not valid UTF-8 is reported.
pub fn decode_paths(input: Option<Vec<u8>>, output: Option<Vec<u8>>) -> (r: Result<
    (String, String),
    BridgeError,
>)
    ensures
        (input is None || output is None) <==> r == Err::<(String, String), BridgeError>(
            BridgeError::MissingArgument,
        ),
        (input matches Some(i) && output matches Some(o) && !(valid_utf8(i@) && valid_utf8(o@)))
            <==> r == Err::<(String, String), BridgeError>(BridgeError::InvalidEncoding),
        r is Ok <==> (input matches Some(i) && output matches Some(o) && valid_utf8(i@)
            && valid_utf8(o@)),
        r matches Ok(p) ==> p.0@ == decode_utf8(input->0@) && p.1@ == decode_utf8(output->0@),
{
    match (input, output) {
        (Some(i), Some(o)) => {
            let i = decode_path(i)?;
            let o = decode_path(o)?;
            Ok((i, o))
        },
        _ => Err(BridgeError::MissingArgument),
    }
}

} // verus!
