//! The decisions of the transfer listener: what each request is answered
//! with, and which text goes on to the consumer.

use crate::bridge::EventSender;
use crate::slot::{slot_after, OutboundSlot};
use vstd::prelude::*;

verus! {

/// The status of a request that was served.
pub const STATUS_OK: u16 = 200;

/// The status of a submit request without a readable `content` field.
pub const STATUS_MALFORMED: u16 = 422;

/// The port that the listener takes where none is asked for.
pub const DEFAULT_PORT: u16 = 3000;

/// The body of a submit request, once decoded: its `content` field.
pub struct MsgForm {
    pub content: String,
}

/// What the listener shares between its requests: the producer's end of the
/// inbound channel, and whether a forward has already found the consumer
/// gone.
pub struct ServerState {
    pub tx: EventSender,
    pub closed: bool,
}

/// How the listener speaks to its clients. It is fixed at startup.
pub enum Transport {
    /// Plain HTTP.
    Plain,
    /// HTTPS with this certificate and private key, both DER-encoded.
    Secure { cert: Vec<u8>, key: Vec<u8> },
}

/// What the listener starts with.
pub struct Startup {
    /// The state that its requests share.
    pub state: ServerState,
    /// The port to bind, on every address of this machine.
    pub port: u16,
    /// The transport to serve with.
    pub transport: Transport,
}

/// An answer to the client.
pub struct Reply {
    pub status: u16,
    pub body: String,
}

/// What the listener decides on a submit request before it touches the
/// channel.
pub struct SubmitPlan {
    /// The status that the client gets.
    pub status: u16,
    /// The text to hand to the inbound channel, if any.
    pub forward: Option<String>,
}

/// What became of a submit request.
pub struct SubmitOutcome {
    /// The status that the client gets.
    pub status: u16,
    /// Whether the text was handed to the inbound channel.
    pub attempted: bool,
    /// Whether the channel took it.
    pub delivered: bool,
    /// Whether this request is the one that found the consumer gone, which is
    /// to be logged.
    pub report_closed: bool,
}

/// The `content` of a decoded form, or `None` for a request that had none.
pub open spec fn form_text(form: Option<MsgForm>) -> Option<Seq<char>> {
    match form {
        Some(f) => Some(f.content@),
        None => None,
    }
}

/// The text of an optional string.
pub open spec fn text_of(text: Option<String>) -> Option<Seq<char>> {
    match text {
        Some(t) => Some(t@),
        None => None,
    }
}

/// The body that `GET /content` serves for what the slot holds: the text as
/// it is.
pub open spec fn served_body(slot: Seq<char>) -> Seq<char> {
    slot
}

/// The status of a submit request: success for every request that carries a
/// `content` field, whatever becomes of the text afterwards.
pub open spec fn submit_status(form: Option<Seq<char>>) -> u16 {
    if form is Some {
        STATUS_OK
    } else {
        STATUS_MALFORMED
    }
}

/// The text that a submit request sends on: its content, unchanged, unless
/// the consumer is known to be gone.
pub open spec fn submit_forward(closed: bool, form: Option<Seq<char>>) -> Option<Seq<char>> {
    if closed {
        None
    } else {
        form
    }
}

/// The texts that a run of submit requests sends on while the consumer
/// lives, in the order of the requests.
pub open spec fn forwards(forms: Seq<Option<Seq<char>>>) -> Seq<Seq<char>>
    decreases forms.len(),
{
    if forms.len() == 0 {
        Seq::empty()
    } else {
        let before = forwards(forms.drop_last());
        match submit_forward(false, forms.last()) {
            Some(text) => before.push(text),
            None => before,
        }
    }
}

/// How many of the first `i` requests carry a `content` field.
pub open spec fn accepted_before(forms: Seq<Option<Seq<char>>>, i: int) -> nat
    decreases i,
{
    if i <= 0 {
        0
    } else {
        accepted_before(forms, i - 1) + if forms[i - 1] is Some {
            1nat
        } else {
            0nat
        }
    }
}

/// The page that `GET /` serves.
pub const INDEX_PAGE: &'static str = r#"<!DOCTYPE html>
<html lang="en">
<head>
    <meta charset="UTF-8">
    <meta name="viewport" content="width=device-width, initial-scale=1.0">
    <title>TP - Transfer</title>
    <style>
        body { 
            font-family: -apple-system, BlinkMacSystemFont, "Segoe UI", Roboto, Helvetica, Arial, sans-serif; 
            padding: 20px; 
            max-width: 600px; 
            margin: 0 auto; 
            background-color: #ffffff; 
            color: #333333; 
        }
        h2 { color: #110b00ff; }
        textarea { 
            width: 100%; 
            height: 150px; 
            margin-bottom: 15px; 
            padding: 12px; 
            box-sizing: border-box; 
            border: 1px solid #ccc; 
            border-radius: 8px; 
            font-size: 16px; /* Prevent zoom on iOS */
        }
        button { 
            padding: 15px 20px; 
            font-size: 1.2em; 
            width: 100%; 
            background-color: #001c3aff; 
            color: white; 
            border: none; 
            border-radius: 8px; 
            cursor: pointer; 
            transition: background-color 0.2s;
        }
        button:hover { background-color: #00244bff; }
        button:active { background-color: #000000ff; }
        #status { margin-top: 15px; font-weight: bold; min-height: 1.2em; text-align: center; }
    </style>
</head>
<body>
    <h2>Send to PC</h2>
    <noscript>
        <p style="color: red;">JavaScript is required to use this app.</p>
    </noscript>
    <form id="msgForm">
        <textarea id="content" name="content" placeholder="Paste text here..." autofocus></textarea>
        <br>
        <button type="submit">Send</button>
    </form>
    <div id="status"></div>

    <script>
        document.getElementById('msgForm').addEventListener('submit', async (e) => {
            e.preventDefault();
            const content = document.getElementById('content').value;
            const statusDiv = document.getElementById('status');
            
            if (!content) {
                statusDiv.innerHTML = '<p style="color: orange;">Please enter some text.</p>';
                return;
            }

            statusDiv.innerHTML = '<p style="color: blue;">Sending...</p>';
            
            try {
                const response = await fetch('/send', {
                    method: 'POST',
                    headers: {
                        'Content-Type': 'application/x-www-form-urlencoded',
                    },
                    body: 'content=' + encodeURIComponent(content)
                });
                
                if (response.ok) {
                    statusDiv.innerHTML = '<p style="color: green;">Sent successfully!</p>';
                    document.getElementById('content').value = '';
                    setTimeout(() => { statusDiv.innerHTML = ''; }, 3000);
                } else {
                    statusDiv.innerHTML = '<p style="color: red;">Error sending.</p>';
                }
            } catch (error) {
                console.error('Error:', error);
                statusDiv.innerHTML = '<p style="color: red;">Network error.</p>';
            }
        });
    </script>
</body>
</html>
"#;

/// The start of the listener: it forwards to `tx`, has not yet found the
/// consumer gone, binds `port`, and speaks HTTPS exactly if it is given a
/// certificate and key.
pub fn start_server(port: u16, tx: EventSender, cert_key: Option<(Vec<u8>, Vec<u8>)>) -> (plan:
    Startup)
    ensures
        plan.state.tx == tx,
        !plan.state.closed,
        plan.port == port,
        match cert_key {
            Some((cert, key)) => plan.transport matches Transport::Secure { cert: c, key: k }
                && c@ == cert@ && k@ == key@,
            None => plan.transport is Plain,
        },
{
    let transport = match cert_key {
        Some((cert, key)) => Transport::Secure { cert, key },
        None => Transport::Plain,
    };
    Startup { state: ServerState { tx, closed: false }, port, transport }
}

/// `GET /`: the page, the same whatever the state of the bridge.
pub fn index() -> (page: &'static str)
    ensures
        page@ == INDEX_PAGE@,
{
    INDEX_PAGE
}

/// `GET /content`: what the outbound slot holds, as it is.
pub fn content(slot: &OutboundSlot) -> (reply: Reply)
    ensures
        reply.status == STATUS_OK,
        reply.body@ == served_body(slot@),
{
    Reply { status: STATUS_OK, body: slot.read() }
}

/// `POST /send`, before the channel is touched: a request with a `content`
/// field succeeds and sends that text on, unless the consumer is known to be
/// gone; a request without one is refused and sends nothing on.
pub fn decide_submit(closed: bool, form: Option<MsgForm>) -> (plan: SubmitPlan)
    ensures
        plan.status == submit_status(form_text(form)),
        text_of(plan.forward) == submit_forward(closed, form_text(form)),
{
    match form {
        Some(f) => {
            if closed {
                SubmitPlan { status: STATUS_OK, forward: None }
            } else {
                SubmitPlan { status: STATUS_OK, forward: Some(f.content) }
            }
        },
        None => SubmitPlan { status: STATUS_MALFORMED, forward: None },
    }
}

/// `POST /send`, after the channel was tried: the status stays what it was
/// planned to be, and the first forward that finds the consumer gone is the
/// one to report.
pub fn settle_submit(status: u16, attempted: bool, queued: bool) -> (outcome: SubmitOutcome)
    ensures
        outcome.status == status,
        outcome.attempted == attempted,
        outcome.delivered == (attempted && queued),
        outcome.report_closed == (attempted && !queued),
{
    SubmitOutcome {
        status,
        attempted,
        delivered: attempted && queued,
        report_closed: attempted && !queued,
    }
}

/// `POST /send`: answers the request and hands its text to the inbound
/// channel. Whether the channel takes the text is the consumer's doing; the
/// answer does not depend on it.
pub fn receive_msg(state: &mut ServerState, form: Option<MsgForm>) -> (outcome: SubmitOutcome)
    ensures
        outcome.status == submit_status(form_text(form)),
        outcome.attempted == (submit_forward(old(state).closed, form_text(form)) is Some),
        outcome.delivered ==> outcome.attempted,
        outcome.report_closed == (outcome.attempted && !outcome.delivered),
        final(state).closed == (old(state).closed || outcome.report_closed),
        final(state).tx == old(state).tx,
{
    let plan = decide_submit(state.closed, form);
    match plan.forward {
        Some(text) => {
            let queued = state.tx.send(text).is_ok();
            if !queued {
                state.closed = true;
            }
            settle_submit(plan.status, true, queued)
        },
        None => settle_submit(plan.status, false, false),
    }
}

/// The port to listen on: any but 0.
pub fn listen_port(requested: u16) -> (port: Option<u16>)
    ensures
        port == if requested >= 1 {
            Some(requested)
        } else {
            None
        },
{
    if requested >= 1 {
        Some(requested)
    } else {
        None
    }
}

/// While the consumer lives, every submit request with a `content` field
/// sends exactly one text on, its own content, and the texts go on in the
/// order of their requests; a request without the field sends none.
pub proof fn lemma_accepted_submits_forwarded_once_in_order(forms: Seq<Option<Seq<char>>>)
    ensures
        forwards(forms).len() == accepted_before(forms, forms.len() as int),
        forall|i: int|
            0 <= i < forms.len() && forms[i] is Some ==> accepted_before(forms, i) < forwards(
                forms,
            ).len() && #[trigger] forwards(forms)[accepted_before(forms, i) as int] == forms[i]->0,
        forall|i: int, j: int|
            0 <= i < j <= forms.len() && forms[i] is Some ==> #[trigger] accepted_before(forms, i)
                < #[trigger] accepted_before(forms, j),
    decreases forms.len(),
{
    if forms.len() > 0 {
        let init = forms.drop_last();
        lemma_accepted_submits_forwarded_once_in_order(init);
        assert forall|i: int| 0 <= i <= init.len() implies accepted_before(forms, i)
            == accepted_before(init, i) by {
            lemma_accepted_before_agrees(forms, init, i);
        }
    }
}

/// The count of accepted requests among the first `i` is the same in two
/// runs that agree on their first `i` requests.
proof fn lemma_accepted_before_agrees(
    a: Seq<Option<Seq<char>>>,
    b: Seq<Option<Seq<char>>>,
    i: int,
)
    requires
        0 <= i <= a.len(),
        i <= b.len(),
        forall|j: int| 0 <= j < i ==> a[j] == b[j],
    ensures
        accepted_before(a, i) == accepted_before(b, i),
    decreases i,
{
    if i > 0 {
        lemma_accepted_before_agrees(a, b, i - 1);
    }
}

/// A request without a `content` field is refused with a client error and
/// sends nothing on, whatever came before it.
pub proof fn lemma_malformed_submit_forwards_nothing(forms: Seq<Option<Seq<char>>>, closed: bool)
    ensures
        400 <= submit_status(None) < 500,
        submit_forward(closed, None) is None,
        forwards(forms.push(None)) == forwards(forms),
{
    assert(forms.push(None).drop_last() =~= forms);
}

/// What `GET /content` serves after any run of writes to the slot is the
/// text of the last write.
pub proof fn lemma_content_serves_last_write(
    held: Seq<char>,
    writes: Seq<Seq<char>>,
    last: Seq<char>,
)
    ensures
        served_body(slot_after(held, writes.push(last))) == last,
        served_body(slot_after(slot_after(held, writes), seq![last])) == last,
{
}

} // verus!
