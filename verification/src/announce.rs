//! Decision logic of the periodic announce loop. The loop itself performs
//! network round-trips and sleeps, which live outside the library; every
//! decision it takes — what to ask, which messages to emit, how long to
//! wait — is a function here.

use vstd::prelude::*;
use crate::ip::PeerAddr;
use crate::tracker::{TrackerEvent, TrackerReq, TrackerResp};

verus! {

/// A message to the transfer engine: a peer was discovered at this address
/// and port.
#[derive(Clone, Copy, Debug, PartialEq, Eq, Structural)]
pub enum ChanMsg {
    NewPeer(PeerAddr, u16),
}

/// The fixed identity an announce session reports: content identifier,
/// client identifier and listen port, passed in at startup.
pub struct AnnounceConfig {
    pub info_hash: Vec<u8>,
    pub peer_id: Vec<u8>,
    pub port: u32,
}

/// What the loop owns between cycles: the current wait in seconds and the
/// cumulative transfer counters.
pub struct AnnounceState {
    pub interval: u64,
    pub uploaded: u64,
    pub downloaded: u64,
    pub left: u64,
}

/// Builds the request for one announce cycle from the fixed identity and
/// the current counters. The flags are off and the optional fields unset,
/// as a plain periodic announce sends them.
pub fn build_request(config: &AnnounceConfig, state: &AnnounceState, event: TrackerEvent) -> (r:
    TrackerReq)
    ensures
        r.info_hash@ == config.info_hash@,
        r.peer_id@ == config.peer_id@,
        r.port == config.port,
        r.uploaded == state.uploaded,
        r.downloaded == state.downloaded,
        r.left == state.left,
        r.compact == false,
        r.no_peer_id == false,
        r.event == event,
        r.ip is None,
        r.numwant is None,
        r.key is None,
        r.trackerid is None,
{
    TrackerReq {
        info_hash: crate::tracker::copy_bytes(&config.info_hash),
        peer_id: crate::tracker::copy_bytes(&config.peer_id),
        port: config.port,
        uploaded: state.uploaded,
        downloaded: state.downloaded,
        left: state.left,
        compact: false,
        no_peer_id: false,
        event,
        ip: None,
        numwant: None,
        key: None,
        trackerid: None,
    }
}

/// Decides a successful cycle: one `NewPeer` message per discovered peer,
/// in list order, and the response's `interval`, when present, adopted as
/// the new wait (the server's suggestion is honoured; when it sends none,
/// the previous wait is kept). The counters are untouched. A failed cycle
/// changes nothing and emits nothing: the loop retries at once, a
/// deliberate choice of the simplest policy over backoff with jitter.
pub fn on_response(state: &mut AnnounceState, resp: &TrackerResp) -> (msgs: Vec<ChanMsg>)
    ensures
        msgs@.len() == resp.peers@.len(),
        forall|i: int|
            0 <= i < msgs@.len() ==> msgs@[i] == ChanMsg::NewPeer(
                resp.peers@[i].ip,
                resp.peers@[i].port,
            ),
        final(state).interval == match resp.interval {
            Some(iv) => iv as u64,
            None => old(state).interval,
        },
        final(state).uploaded == old(state).uploaded,
        final(state).downloaded == old(state).downloaded,
        final(state).left == old(state).left,
{
    let mut msgs: Vec<ChanMsg> = Vec::new();
    let mut i: usize = 0;
    while i < resp.peers.len()
        invariant
            i <= resp.peers@.len(),
            msgs@.len() == i,
            forall|j: int|
                0 <= j < i ==> msgs@[j] == ChanMsg::NewPeer(
                    resp.peers@[j].ip,
                    resp.peers@[j].port,
                ),
        decreases resp.peers@.len() - i,
    {
        let p = &resp.peers[i];
        msgs.push(ChanMsg::NewPeer(p.ip, p.port));
        i += 1;
    }
    match resp.interval {
        Some(iv) => {
            state.interval = iv as u64;
        },
        None => {},
    }
    msgs
}

} // verus!
