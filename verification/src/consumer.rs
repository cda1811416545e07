//! The bridge consumer: it drains the two event channels, keeps the bounded
//! history and log, and holds what the user is about to send to the phone.

use crate::bridge::{EventReceiver, Polled};
use crate::buffers::{history_after, history_push, log_after, log_push, texts, History, LogBuffer};
use crate::qr::{qr_image, qr_matrix, rgba, QrImage};
use crate::slot::OutboundSlot;
use crate::text::{decimal, decimal_string};
use vstd::prelude::*;
use vstd::string::StringExecFns;
use vstd::utf8::encode_utf8;

verus! {

/// The name of the protocol under which the listener is reached.
pub open spec fn scheme(use_https: bool) -> Seq<char> {
    if use_https {
        "https"@
    } else {
        "http"@
    }
}

/// The address that the phone opens: protocol, host and port.
pub open spec fn join_url(use_https: bool, ip: Seq<char>, port: u16) -> Seq<char> {
    scheme(use_https) + "://"@ + ip + ":"@ + decimal(port as nat)
}

/// The last text that came, or what was shown before where none came.
pub open spec fn last_of(shown: Seq<char>, msgs: Seq<Seq<char>>) -> Seq<char> {
    if msgs.len() == 0 {
        shown
    } else {
        msgs.last()
    }
}

/// The state of the consumer.
pub struct TpApp {
    /// The consumer's end of the inbound channel.
    pub rx: EventReceiver,
    /// The consumer's end of the log channel.
    pub log_rx: EventReceiver,
    /// The inbound message that came last.
    pub last_content: String,
    /// The inbound messages, newest first.
    pub history: History,
    /// The log lines, oldest first.
    pub logs: LogBuffer,
    /// The address of this machine on the local network, written out.
    pub ip: String,
    /// The port of the listener.
    pub port: u16,
    /// Whether the listener speaks HTTPS.
    pub use_https: bool,
    /// Whether the log is on display.
    pub show_logs: bool,
    /// The text that the user is editing, to be offered to the phone.
    pub input_content: String,
}

impl TpApp {
    /// A consumer of the two channels that has seen nothing yet.
    pub fn new(
        rx: EventReceiver,
        log_rx: EventReceiver,
        ip: String,
        port: u16,
        use_https: bool,
    ) -> (app: TpApp)
        ensures
            app.last_content@ == "Waiting for content..."@,
            app.history@ == Seq::<Seq<char>>::empty(),
            app.logs@ == Seq::<Seq<char>>::empty(),
            app.ip@ == ip@,
            app.port == port,
            app.use_https == use_https,
            !app.show_logs,
            app.input_content@ == Seq::<char>::empty(),
    {
        TpApp {
            rx,
            log_rx,
            last_content: String::from_str("Waiting for content..."),
            history: History::new(),
            logs: LogBuffer::new(),
            ip,
            port,
            use_https,
            show_logs: false,
            input_content: String::new(),
        }
    }

    /// Takes one inbound message in: it becomes the last content and the
    /// newest entry of the history. Returns the text to mirror into the
    /// clipboard.
    pub fn on_inbound(&mut self, msg: String) -> (mirror: String)
        ensures
            mirror@ == msg@,
            final(self).last_content@ == msg@,
            final(self).history@ == history_push(old(self).history@, msg@),
            final(self).rx == old(self).rx,
            final(self).log_rx == old(self).log_rx,
            final(self).logs@ == old(self).logs@,
            final(self).input_content@ == old(self).input_content@,
            final(self).ip@ == old(self).ip@,
            final(self).port == old(self).port,
            final(self).use_https == old(self).use_https,
            final(self).show_logs == old(self).show_logs,
    {
        self.last_content = msg.clone();
        self.history.push(msg.clone());
        msg
    }

    /// Takes one log line in, at the end of the log.
    pub fn on_log(&mut self, line: String)
        ensures
            final(self).logs@ == log_push(old(self).logs@, line@),
            final(self).history@ == old(self).history@,
            final(self).last_content@ == old(self).last_content@,
            final(self).input_content@ == old(self).input_content@,
            final(self).ip@ == old(self).ip@,
            final(self).port == old(self).port,
            final(self).use_https == old(self).use_https,
            final(self).show_logs == old(self).show_logs,
    {
        self.logs.push(line);
    }

    /// Drains the inbound channel without waiting: every message that is
    /// there goes into the history, up to `budget` of them. Returns the
    /// messages in the order in which they came, for the clipboard.
    pub fn poll_inbound(&mut self, budget: usize) -> (drained: Vec<String>)
        ensures
            drained@.len() <= budget,
            final(self).history@ == history_after(old(self).history@, texts(drained@)),
            final(self).last_content@ == last_of(old(self).last_content@, texts(drained@)),
            final(self).rx == old(self).rx,
            final(self).log_rx == old(self).log_rx,
            final(self).logs@ == old(self).logs@,
            final(self).input_content@ == old(self).input_content@,
            final(self).ip@ == old(self).ip@,
            final(self).port == old(self).port,
            final(self).use_https == old(self).use_https,
            final(self).show_logs == old(self).show_logs,
    {
        let mut drained: Vec<String> = Vec::new();
        let ghost history0 = self.history@;
        let ghost shown0 = self.last_content@;
        let ghost rx0 = self.rx;
        let ghost log_rx0 = self.log_rx;
        let ghost logs0 = self.logs@;
        let ghost input0 = self.input_content@;
        let ghost ip0 = self.ip@;
        let ghost port0 = self.port;
        let ghost https0 = self.use_https;
        let ghost show0 = self.show_logs;
        let mut left: usize = budget;
        while left > 0
            invariant
                drained@.len() + left <= budget,
                self.history@ == history_after(history0, texts(drained@)),
                self.last_content@ == last_of(shown0, texts(drained@)),
                self.rx == rx0,
                self.log_rx == log_rx0,
                self.logs@ == logs0,
                self.input_content@ == input0,
                self.ip@ == ip0,
                self.port == port0,
                self.use_https == https0,
                self.show_logs == show0,
            decreases left,
        {
            match self.rx.try_recv() {
                Polled::Message(msg) => {
                    let ghost before = texts(drained@);
                    let mirror = self.on_inbound(msg);
                    drained.push(mirror);
                    proof {
                        assert(texts(drained@).drop_last() =~= before);
                        assert(texts(drained@).last() == mirror@);
                    }
                    left = left - 1;
                },
                Polled::Empty => {
                    left = 0;
                },
                Polled::Closed => {
                    left = 0;
                },
            }
        }
        drained
    }

    /// Drains the log channel without waiting: every line that is there goes
    /// to the end of the log, up to `budget` of them. Returns how many came.
    pub fn poll_logs(&mut self, budget: usize) -> (count: usize)
        ensures
            count <= budget,
            exists|lines: Seq<Seq<char>>|
                lines.len() == count && final(self).logs@ == #[trigger] log_after(
                    old(self).logs@,
                    lines,
                ),
            final(self).history@ == old(self).history@,
            final(self).last_content@ == old(self).last_content@,
            final(self).input_content@ == old(self).input_content@,
            final(self).ip@ == old(self).ip@,
            final(self).port == old(self).port,
            final(self).use_https == old(self).use_https,
            final(self).show_logs == old(self).show_logs,
    {
        let ghost logs0 = self.logs@;
        let ghost history0 = self.history@;
        let ghost shown0 = self.last_content@;
        let ghost input0 = self.input_content@;
        let ghost ip0 = self.ip@;
        let ghost port0 = self.port;
        let ghost https0 = self.use_https;
        let ghost show0 = self.show_logs;
        let ghost mut lines: Seq<Seq<char>> = Seq::empty();
        let mut count: usize = 0;
        let mut left: usize = budget;
        while left > 0
            invariant
                count + left <= budget,
                lines.len() == count,
                self.logs@ == log_after(logs0, lines),
                self.history@ == history0,
                self.last_content@ == shown0,
                self.input_content@ == input0,
                self.ip@ == ip0,
                self.port == port0,
                self.use_https == https0,
                self.show_logs == show0,
            decreases left,
        {
            match self.log_rx.try_recv() {
                Polled::Message(line) => {
                    proof {
                        assert(lines.push(line@).drop_last() =~= lines);
                        lines = lines.push(line@);
                    }
                    self.on_log(line);
                    count = count + 1;
                    left = left - 1;
                },
                Polled::Empty => {
                    left = 0;
                },
                Polled::Closed => {
                    left = 0;
                },
            }
        }
        count
    }

    /// One tick of the consumer: drains the inbound channel, then the log
    /// channel, each up to `budget`. Returns the inbound messages in the
    /// order in which they came, for the clipboard.
    pub fn poll(&mut self, budget: usize) -> (drained: Vec<String>)
        ensures
            drained@.len() <= budget,
            final(self).history@ == history_after(old(self).history@, texts(drained@)),
            final(self).last_content@ == last_of(old(self).last_content@, texts(drained@)),
            exists|lines: Seq<Seq<char>>|
                lines.len() <= budget && final(self).logs@ == #[trigger] log_after(
                    old(self).logs@,
                    lines,
                ),
            final(self).input_content@ == old(self).input_content@,
            final(self).ip@ == old(self).ip@,
            final(self).port == old(self).port,
            final(self).use_https == old(self).use_https,
            final(self).show_logs == old(self).show_logs,
    {
        let drained = self.poll_inbound(budget);
        let _ = self.poll_logs(budget);
        drained
    }

    /// Offers the text that the user has edited to the phone: the slot then
    /// holds exactly that text.
    pub fn push_outbound(&self, slot: &mut OutboundSlot)
        ensures
            final(slot)@ == self.input_content@,
    {
        slot.write(self.input_content.clone());
    }

    /// Puts what the clipboard held into the text that the user edits; a
    /// clipboard that gave nothing leaves the text as it is.
    pub fn paste(&mut self, clip: Option<String>)
        ensures
            final(self).input_content@ == match clip {
                Some(text) => text@,
                None => old(self).input_content@,
            },
            final(self).history@ == old(self).history@,
            final(self).logs@ == old(self).logs@,
            final(self).last_content@ == old(self).last_content@,
            final(self).ip@ == old(self).ip@,
            final(self).port == old(self).port,
            final(self).use_https == old(self).use_https,
            final(self).show_logs == old(self).show_logs,
    {
        match clip {
            Some(text) => {
                self.input_content = text;
            },
            None => {},
        }
    }

    /// The address that the phone opens.
    pub fn url(&self) -> (url: String)
        ensures
            url@ == join_url(self.use_https, self.ip@, self.port),
    {
        let protocol = if self.use_https {
            "https"
        } else {
            "http"
        };
        let mut url = String::from_str(protocol);
        url.append("://");
        url.append(self.ip.as_str());
        url.append(":");
        url.append(decimal_string(self.port).as_str());
        url
    }

    /// The QR code of the address that the phone opens, as an image; `None`
    /// where the address is too long for a QR code.
    pub fn qr(&self) -> (image: Option<QrImage>)
        ensures
            match qr_matrix(encode_utf8(join_url(self.use_https, self.ip@, self.port))) {
                Some((width, dark)) => image matches Some(img) && img.width == width
                    && img.pixels@ == rgba(dark) && img.pixels@.len() == 4 * (width * width),
                None => image is None,
            },
    {
        let url = self.url();
        qr_image(url.as_str())
    }
}

} // verus!
