//! What a session reports: tagged lines of text for the log.

use crate::addr::Endpoint;
use crate::lifecycle::IoFailure;
use vstd::prelude::*;
use vstd::string::StringExecFns;

verus! {

/// The coarse kind of a reported line.
#[derive(Clone, Copy, Debug, PartialEq, Eq, Structural)]
pub enum Tag {
    /// Data went out.
    Send,
    /// Data came in.
    Recv,
    /// Something failed.
    Error,
    /// A change of state.
    Info,
}

/// One reported line.
#[derive(Clone, Debug, PartialEq, Eq)]
pub struct Event {
    pub tag: Tag,
    pub text: String,
}

/// The transport that a line is about.
#[derive(Clone, Copy, Debug, PartialEq, Eq, Structural)]
pub enum Transport {
    Udp,
    TcpServer,
    TcpClient,
}

impl Transport {
    /// The transport's name as it stands in a line.
    pub open spec fn label(self) -> Seq<char> {
        match self {
            Transport::Udp => "UDP"@,
            Transport::TcpServer => "TCP SERVER"@,
            Transport::TcpClient => "TCP CLIENT"@,
        }
    }

    /// The transport's name as it stands in a line.
    pub fn name(&self) -> (s: &'static str)
        ensures
            s@ == self.label(),
    {
        match self {
            Transport::Udp => "UDP",
            Transport::TcpServer => "TCP SERVER",
            Transport::TcpClient => "TCP CLIENT",
        }
    }
}

/// The text that `String::from_utf8_lossy` makes of `bytes`.
pub uninterp spec fn lossy_text(bytes: Seq<u8>) -> Seq<char>;

/// The text that formatting with `{:?}` makes of the text `s`.
pub uninterp spec fn debug_text(s: Seq<char>) -> Seq<char>;

/// Decodes `bytes` as UTF-8 with `String::from_utf8_lossy` of std, which puts
/// U+FFFD in place of what is no valid UTF-8. The result depends on the bytes
/// alone.
#[verifier::external_body]
fn utf8_lossy(bytes: &Vec<u8>) -> (s: String)
    ensures
        s@ == lossy_text(bytes@),
{
    String::from_utf8_lossy(bytes).into_owned()
}

/// Writes `s` as `{:?}` does, through the `Debug` impl of `str` in std: in
/// double quotes, with escapes. The result depends on the text alone.
#[verifier::external_body]
fn quoted(s: &str) -> (q: String)
    ensures
        q@ == debug_text(s@),
{
    format!("{:?}", s)
}

/// The line for data that went out: `[<transport> SEND] <payload> to <to>`.
pub open spec fn send_line(via: Transport, payload: Seq<char>, to: Seq<char>) -> Seq<char> {
    "["@ + via.label() + " SEND] "@ + payload + " to "@ + to
}

/// The line for data that came in: `[<transport> RECV] <payload> from <from>`.
pub open spec fn recv_line(via: Transport, payload: Seq<char>, from: Seq<char>) -> Seq<char> {
    "["@ + via.label() + " RECV] "@ + payload + " from "@ + from
}

/// The line for data that could not be sent.
pub open spec fn send_error_line(payload: Seq<char>, to: Seq<char>, why: Seq<char>) -> Seq<char> {
    "error sending "@ + payload + " to "@ + to + ", "@ + why
}

/// The line for a failed receive or accept.
pub open spec fn recv_error_line(why: Seq<char>) -> Seq<char> {
    "receiving error: "@ + why
}

/// The event for data that went out to `to`. `payload` is the data as it is to
/// be shown.
pub fn send_event(via: Transport, payload: &str, to: &str) -> (e: Event)
    ensures
        e.tag == Tag::Send,
        e.text@ == send_line(via, payload@, to@),
{
    let mut text = String::from_str("[");
    text.append(via.name());
    text.append(" SEND] ");
    text.append(payload);
    text.append(" to ");
    text.append(to);
    Event { tag: Tag::Send, text }
}

/// The event for data that came in from `from`. `payload` is the data as it is
/// to be shown.
pub fn recv_event(via: Transport, payload: &str, from: &str) -> (e: Event)
    ensures
        e.tag == Tag::Recv,
        e.text@ == recv_line(via, payload@, from@),
{
    let mut text = String::from_str("[");
    text.append(via.name());
    text.append(" RECV] ");
    text.append(payload);
    text.append(" from ");
    text.append(from);
    Event { tag: Tag::Recv, text }
}

/// The event for data that could not be sent to `to`.
pub fn send_error_event(payload: &str, to: &str, why: &str) -> (e: Event)
    ensures
        e.tag == Tag::Error,
        e.text@ == send_error_line(payload@, to@, why@),
{
    let mut text = String::from_str("error sending ");
    text.append(payload);
    text.append(" to ");
    text.append(to);
    text.append(", ");
    text.append(why);
    Event { tag: Tag::Error, text }
}

/// The event for a failed receive or accept.
pub fn recv_error_event(why: &str) -> (e: Event)
    ensures
        e.tag == Tag::Error,
        e.text@ == recv_error_line(why@),
{
    let mut text = String::from_str("receiving error: ");
    text.append(why);
    Event { tag: Tag::Error, text }
}

/// An event with the tag and the text given.
pub fn plain_event(tag: Tag, line: &str) -> (e: Event)
    ensures
        e.tag == tag,
        e.text@ == line@,
{
    Event { tag, text: String::from_str(line) }
}

/// The text as it is shown for a payload of bytes: decoded leniently, then
/// quoted.
pub open spec fn shown_bytes(bytes: Seq<u8>) -> Seq<char> {
    debug_text(lossy_text(bytes))
}

/// What is shown for a payload of bytes.
pub fn show_bytes(bytes: &Vec<u8>) -> (s: String)
    ensures
        s@ == shown_bytes(bytes@),
{
    let decoded = utf8_lossy(bytes);
    quoted(decoded.as_str())
}

/// What is shown for a payload of text.
pub fn show_text(msg: &str) -> (s: String)
    ensures
        s@ == debug_text(msg@),
{
    quoted(msg)
}

/// Bytes that arrived, with the address they came from.
#[derive(Clone, Debug, PartialEq, Eq)]
pub struct Datagram {
    pub bytes: Vec<u8>,
    pub from: Endpoint,
}

/// What a worker reports for one outcome of a receive on its socket: the data
/// with its sender, nothing when the wait merely ran out, the error otherwise.
/// The worker goes on in every case.
pub open spec fn received_line(via: Transport, outcome: Result<Datagram, IoFailure>) -> Option<
    (Tag, Seq<char>),
> {
    match outcome {
        Ok(d) => Some((Tag::Recv, recv_line(via, shown_bytes(d.bytes@), d.from.text()))),
        Err(e) => if e.transient() {
            None
        } else {
            Some((Tag::Error, recv_error_line(e.text@)))
        },
    }
}

/// The event, if any, for one outcome of a worker's receive. Whatever the
/// outcome, the worker goes on: only the running flag ends it.
pub fn received_event(via: Transport, outcome: &Result<Datagram, IoFailure>) -> (r: Option<Event>)
    ensures
        match received_line(via, *outcome) {
            Some((tag, line)) => r is Some && r->0.tag == tag && r->0.text@ == line,
            None => r is None,
        },
{
    match outcome {
        Ok(d) => {
            let shown = show_bytes(&d.bytes);
            let from = d.from.to_text();
            Some(recv_event(via, shown.as_str(), from.as_str()))
        },
        Err(e) => {
            if e.is_transient() {
                None
            } else {
                Some(recv_error_event(e.text.as_str()))
            }
        },
    }
}

/// What a send asks of the caller.
#[derive(Clone, Debug, PartialEq, Eq)]
pub enum SendStep {
    /// A socket is there: the caller sends `payload` to `to` and reports how
    /// that went.
    Transmit { payload: Vec<u8>, to: String },
    /// No socket is there: nothing is sent, and this is reported.
    Refused(Event),
}

/// Tag and text of the line for a send that went as `outcome` says. `shown`
/// is the payload as it is to be shown.
pub open spec fn sent_line(
    via: Transport,
    shown: Seq<char>,
    to: Seq<char>,
    outcome: Result<usize, IoFailure>,
) -> (Tag, Seq<char>) {
    match outcome {
        Ok(_) => (Tag::Send, send_line(via, shown, to)),
        Err(f) => (Tag::Error, send_error_line(shown, to, f.text@)),
    }
}

/// The event for a send of `msg` to `to` that went as `outcome` says: sends
/// are best effort, and a failure is reported, not returned.
pub fn sent_event(via: Transport, msg: &str, to: &str, outcome: &Result<usize, IoFailure>) -> (e:
    Event)
    ensures
        e.tag == sent_line(via, debug_text(msg@), to@, *outcome).0,
        e.text@ == sent_line(via, debug_text(msg@), to@, *outcome).1,
{
    let shown = show_text(msg);
    match outcome {
        Ok(_) => send_event(via, shown.as_str(), to),
        Err(f) => send_error_event(shown.as_str(), to, f.text.as_str()),
    }
}

} // verus!
