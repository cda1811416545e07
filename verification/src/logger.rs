//! The writer that turns what the logging facility prints into log lines on
//! the bridge.

use crate::bridge::EventSender;
use vstd::prelude::*;
use vstd::utf8::{decode_utf8, valid_utf8};

verus! {

/// The text that `String::from_utf8_lossy` gives for `bytes`.
pub uninterp spec fn lossy_text(bytes: Seq<u8>) -> Seq<char>;

/// `String::from_utf8_lossy`, made an owned string: the text of `bytes`, in
/// which each ill-formed part is replaced by U+FFFD. Bytes that are UTF-8
/// throughout are decoded as they are.
#[verifier::external_body]
fn from_utf8_lossy(bytes: &[u8]) -> (text: String)
    ensures
        text@ == lossy_text(bytes@),
        valid_utf8(bytes@) ==> text@ == decode_utf8(bytes@),
{
    String::from_utf8_lossy(bytes).to_string()
}

/// A writer whose output becomes log lines on an event channel.
pub struct LogWriter {
    tx: EventSender,
}

impl LogWriter {
    /// The producer's end that the writer sends its lines to.
    pub closed spec fn sender(&self) -> EventSender {
        self.tx
    }

    /// A writer that sends to `tx`.
    pub fn new(tx: EventSender) -> (w: LogWriter)
        ensures
            w.sender() == tx,
    {
        LogWriter { tx }
    }

    /// The log line for one chunk of output: its text, with what is not
    /// UTF-8 replaced.
    pub fn line(buf: &[u8]) -> (text: String)
        ensures
            text@ == lossy_text(buf@),
            valid_utf8(buf@) ==> text@ == decode_utf8(buf@),
    {
        from_utf8_lossy(buf)
    }

    /// Sends the chunk as one log line and reports all of it written, also
    /// where the consumer is gone and the line is lost.
    pub fn write(&mut self, buf: &[u8]) -> (written: usize)
        ensures
            written == buf@.len(),
    {
        let line = LogWriter::line(buf);
        let _ = self.tx.send(line);
        buf.len()
    }

    /// Nothing is held back, so there is nothing to flush.
    pub fn flush(&mut self) {
    }

    /// One more writer to the same channel.
    pub fn make_writer(&self) -> (w: LogWriter)
        ensures
            w.sender() == self.sender(),
    {
        LogWriter { tx: self.tx.duplicate() }
    }
}

} // verus!
