//! What becomes of one log event: whether it is written, to which stream,
//! and as which bytes.

use crate::config::{OutputStream, PspLoggerConfig};
use crate::level::Level;
use vstd::prelude::*;
use vstd::utf8::encode_utf8;

verus! {

/// The bytes of one write: the message in UTF-8, a line feed, and the zero
/// byte that the kernel's write call expects at the end.
pub open spec fn wire_format(message: Seq<char>) -> Seq<u8> {
    encode_utf8(message) + seq![0x0Au8, 0x00u8]
}

/// Builds the bytes of one write from the text of a message.
pub fn frame(message: &str) -> (bytes: Vec<u8>)
    ensures
        bytes@ == wire_format(message@),
{
    let mut bytes: Vec<u8> = message.as_bytes_vec();
    bytes.push(0x0Au8);
    bytes.push(0x00u8);
    assert(bytes@ =~= wire_format(message@));
    bytes
}

impl PspLoggerConfig {
    /// Decides what becomes of one event under this configuration: nothing,
    /// where the threshold rejects its level; else one write, given as the
    /// stream of its level and the framed message.
    pub fn emit(&self, level: Level, message: &str) -> (r: Option<(OutputStream, Vec<u8>)>)
        ensures
            r is Some <==> self.enables(level),
            r matches Some(write) ==> write.0 == self.stream_of(level) && write.1@ == wire_format(
                message@,
            ),
    {
        if self.is_enabled(level) {
            Some((self.get_stream(level), frame(message)))
        } else {
            None
        }
    }
}

} // verus!
