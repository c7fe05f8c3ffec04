//! One step of the output relay: turn one event from a supervised process's
//! stream into what the shell must publish.
//!
//! The relay loop itself lives in the shell: it awaits the next event, hands
//! it here, publishes the returned text under the sidecar-log label and the
//! returned URL under the tunnel-url label, and stops when told the stream is
//! over. Publication failures are swallowed there; nothing here can fail.

use vstd::prelude::*;
use vstd::string::StrSliceExecFns;
use vstd::utf8::encode_utf8;

use crate::extract::{announces_tunnel, extract_tunnel_url, first_url_token_at};
use crate::store::Slot;
use crate::text::{append_bytes, lossy_decode, lossy_utf8};

verus! {

/// One event from a supervised process's output stream, as the shell hands
/// it in: raw bytes of one stdout or stderr line, or the end of the stream
/// with the exit status when the process reported one.
pub enum OutputEvent {
    Stdout(Vec<u8>),
    Stderr(Vec<u8>),
    Terminated(Option<i32>),
}

/// What one relay step asks the shell to do: publish `log_line` under the
/// sidecar-log label, publish `tunnel_url` under the tunnel-url label, and
/// end the relay loop once `terminated` is set.
pub struct RelayStep {
    pub log_line: Option<String>,
    pub tunnel_url: Option<String>,
    pub terminated: bool,
}

/// The tag put before a relayed line: the slot's label, with the stream kind
/// where the slot's labelling distinguishes it.
pub open spec fn line_tag(slot: Slot, stderr: bool) -> Seq<u8> {
    match slot {
        Slot::PrimaryService => if stderr {
            encode_utf8("[ApexKit ERROR] "@)
        } else {
            encode_utf8("[ApexKit] "@)
        },
        Slot::Tunnel => encode_utf8("[Tunnel] "@),
    }
}

/// The text published for one output line: the tagged bytes, decoded with
/// lossy UTF-8 replacement, so malformed bytes become replacement characters
/// and never an error.
pub open spec fn relayed_line(slot: Slot, stderr: bool, line: Seq<u8>) -> Seq<char> {
    lossy_utf8(line_tag(slot, stderr) + line)
}

/// The tag as bytes.
fn line_tag_bytes(slot: Slot, stderr: bool) -> (r: Vec<u8>)
    ensures
        r@ == line_tag(slot, stderr),
{
    match slot {
        Slot::PrimaryService => if stderr {
            "[ApexKit ERROR] ".as_bytes_vec()
        } else {
            "[ApexKit] ".as_bytes_vec()
        },
        Slot::Tunnel => "[Tunnel] ".as_bytes_vec(),
    }
}

/// The log text for one output line. A non-empty line never yields empty
/// text: lossy decoding turns malformed bytes into replacement characters
/// instead of dropping them.
pub fn relay_line(slot: Slot, stderr: bool, line: &Vec<u8>) -> (r: String)
    ensures
        r@ == relayed_line(slot, stderr, line@),
        line@.len() > 0 ==> r@.len() > 0,
{
    let mut buf = line_tag_bytes(slot, stderr);
    append_bytes(&mut buf, line);
    lossy_decode(&buf)
}

/// One step of the relay. Every stdout and stderr line is turned into one
/// tagged log text, whatever bytes it holds. A stderr line of the tunnel
/// slot that announces an endpoint additionally yields the announcement's
/// payload — the first whitespace-delimited token holding the scheme prefix,
/// lossily decoded — and the log text is still produced beside it. The end
/// of the stream yields nothing but the instruction to stop.
pub fn relay_event(slot: Slot, event: OutputEvent) -> (r: RelayStep)
    ensures
        r.terminated <==> event is Terminated,
        event matches OutputEvent::Stdout(line) ==> {
            &&& r.log_line is Some
            &&& r.log_line->0@ == relayed_line(slot, false, line@)
            &&& r.tunnel_url is None
            &&& line@.len() > 0 ==> r.log_line->0@.len() > 0
        },
        event matches OutputEvent::Stderr(line) ==> {
            &&& r.log_line is Some
            &&& r.log_line->0@ == relayed_line(slot, true, line@)
            &&& line@.len() > 0 ==> r.log_line->0@.len() > 0
            &&& (slot == Slot::Tunnel && announces_tunnel(line@)) ==> r.tunnel_url is Some
                && exists|i: int, j: int|
                first_url_token_at(line@, i, j) && r.tunnel_url->0@ == lossy_utf8(
                    line@.subrange(i, j),
                )
            &&& !(slot == Slot::Tunnel && announces_tunnel(line@)) ==> r.tunnel_url is None
        },
        event is Terminated ==> r.log_line is None && r.tunnel_url is None,
{
    match event {
        OutputEvent::Stdout(line) => RelayStep {
            log_line: Some(relay_line(slot, false, &line)),
            tunnel_url: None,
            terminated: false,
        },
        OutputEvent::Stderr(line) => {
            let log = relay_line(slot, true, &line);
            let tunnel_url = if slot == Slot::Tunnel {
                match extract_tunnel_url(&line) {
                    Some(token) => Some(lossy_decode(&token)),
                    None => None,
                }
            } else {
                None
            };
            RelayStep { log_line: Some(log), tunnel_url, terminated: false }
        }
        OutputEvent::Terminated(_) => RelayStep {
            log_line: None,
            tunnel_url: None,
            terminated: true,
        },
    }
}

} // verus!
