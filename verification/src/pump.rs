//! The stdio pump: relaying a child's output to the host log.
//!
//! The host drains the child's stdio event stream and hands each event to
//! [`pump_event`], which decodes the bytes as UTF-8 with lossy replacement
//! and says whether the line belongs on the host's stdout, its stderr, or
//! nowhere. The host performs the printing.

use vstd::prelude::*;

verus! {

/// What the lossy UTF-8 decoding of a byte sequence reads as.
pub uninterp spec fn lossy_utf8(bytes: Seq<u8>) -> Seq<char>;

/// One event drained from a child's stdio stream: a chunk of stdout, a
/// chunk of stderr, or anything else (exit notifications and the like).
#[derive(Debug, PartialEq, Eq)]
pub enum StdioEvent {
    Stdout(Vec<u8>),
    Stderr(Vec<u8>),
    Other,
}

/// Where one decoded line belongs: the host's stdout, its stderr, or
/// nowhere.
#[derive(Debug, PartialEq, Eq)]
pub enum PumpOutput {
    PrintOut(String),
    PrintErr(String),
    Skip,
}

/// Relies on `String::from_utf8_lossy`: the decoding depends on the bytes
/// alone, and bytes below 128 (plain ASCII, valid UTF-8) decode to
/// themselves.
#[verifier::external_body]
fn decode_lossy(bytes: &Vec<u8>) -> (r: String)
    ensures
        r@ == lossy_utf8(bytes@),
        (forall|i: int| 0 <= i < bytes@.len() ==> bytes@[i] < 128) ==> r@ == bytes@.map_values(
            |b: u8| b as char,
        ),
{
    String::from_utf8_lossy(bytes.as_slice()).into_owned()
}

/// Decide what to do with one stdio event: decode stdout and stderr chunks
/// lossily and route them to the matching host stream; ignore everything
/// else.
pub fn pump_event(event: &StdioEvent) -> (r: PumpOutput)
    ensures
        event matches StdioEvent::Stdout(b) ==> (r matches PumpOutput::PrintOut(s) && s@
            == lossy_utf8(b@)),
        event matches StdioEvent::Stderr(b) ==> (r matches PumpOutput::PrintErr(s) && s@
            == lossy_utf8(b@)),
        event is Other ==> r is Skip,
{
    match event {
        StdioEvent::Stdout(bytes) => PumpOutput::PrintOut(decode_lossy(bytes)),
        StdioEvent::Stderr(bytes) => PumpOutput::PrintErr(decode_lossy(bytes)),
        StdioEvent::Other => PumpOutput::Skip,
    }
}

} // verus!
