use crate::status::BridgeError;
use optivorbis::remuxer::ogg_to_ogg::{OggVorbisStreamPassthroughMangler, RemuxError};
use optivorbis::{OggToOgg, Remuxer};
use vstd::prelude::*;

verus! {

/// The error that optivorbis's Ogg-to-Ogg remuxer reports.
#[verifier::external_type_specification]
#[verifier::external_body]
pub struct ExRemuxError(RemuxError);

/// Relies on optivorbis's `OggToOgg::remux`, with the remuxer's default
/// settings, reading an Ogg container from memory and writing the optimised
/// container into a fresh buffer. Its stream serials are drawn at random, so
/// nothing is known of the bytes it writes; an empty source holds no Vorbis
/// stream, which the default settings report as an error.
#[verifier::external_body]
pub(crate) fn remux_with_defaults(container: &[u8]) -> (r: Result<Vec<u8>, RemuxError>)
    ensures
        container@.len() == 0 ==> r is Err,
{
    OggToOgg::<OggVorbisStreamPassthroughMangler>::new_with_defaults().remux(
        std::io::Cursor::new(container),
        Vec::new(),
    )
}

/// Maps what the remuxing engine returned onto the library's outcome: the
/// optimised bytes, or a remux failure whatever the engine's own reason.
pub fn remux_outcome(res: Result<Vec<u8>, RemuxError>) -> (r: Result<Vec<u8>, BridgeError>)
    ensures
        res is Ok <==> r is Ok,
        r matches Ok(b) ==> res matches Ok(c) && b@ == c@,
        r matches Err(e) ==> e == BridgeError::Remux,
{
    match res {
        Ok(bytes) => Ok(bytes),
        Err(_) => Err(BridgeError::Remux),
    }
}

/// Remuxes a whole Ogg container held in memory with the engine's default
/// settings. Any failure of the engine is a remux failure, and an empty
/// container always fails.
pub fn optimize(container: &[u8]) -> (r: Result<Vec<u8>, BridgeError>)
    ensures
        r matches Err(e) ==> e == BridgeError::Remux,
        container@.len() == 0 ==> r == Err::<Vec<u8>, BridgeError>(BridgeError::Remux),
{
    remux_outcome(remux_with_defaults(container))
}

} // verus!
