//! Tracker announce protocol: the request value and its canonical encoding
//! as an ordered list of percent-encoded query pairs.

use vstd::prelude::*;
use crate::bvalue::{dict_get, lookup, BValue};
use crate::encode::{decimal_of, decimal_string, percent_encode, url_encode, url_encode_str};
use crate::ip::{parse_ip, spec_parse_ip, PeerAddr};

verus! {

/// The lifecycle event an announce reports.
#[derive(Clone, Copy, Debug, PartialEq, Eq, Structural)]
pub enum TrackerEvent {
    Started,
    Stopped,
    Completed,
}

/// The exact wire text of a lifecycle event. `Completed` maps to
/// `"complete"`, not `"completed"`; trackers depend on this spelling.
pub open spec fn spec_event_string(e: TrackerEvent) -> Seq<char> {
    match e {
        TrackerEvent::Started => "started"@,
        TrackerEvent::Stopped => "stopped"@,
        TrackerEvent::Completed => "complete"@,
    }
}

impl TrackerEvent {
    /// The wire text of this event.
    pub fn to_string(&self) -> (r: String)
        ensures
            r@ == spec_event_string(*self),
    {
        match self {
            TrackerEvent::Started => "started".to_string(),
            TrackerEvent::Stopped => "stopped".to_string(),
            TrackerEvent::Completed => "complete".to_string(),
        }
    }
}

/// One announce request: fixed identifiers, progress counters, flags and
/// optional extras. Consumed once per announce.
pub struct TrackerReq {
    pub info_hash: Vec<u8>,
    pub peer_id: Vec<u8>,
    pub port: u32,
    pub uploaded: u64,
    pub downloaded: u64,
    pub left: u64,
    pub compact: bool,
    pub no_peer_id: bool,
    pub event: TrackerEvent,
    pub ip: Option<String>,
    pub numwant: Option<u32>,
    pub key: Option<String>,
    pub trackerid: Option<String>,
}

/// The full ordered query-pair list of an announce request: the nine
/// mandatory keys in fixed order, then `ip`, `numwant`, `key`, each present
/// exactly when the corresponding optional field is set.
pub open spec fn spec_query_pairs(req: TrackerReq) -> Seq<(Seq<char>, Seq<char>)> {
    let mandatory = seq![
        ("info_hash"@, percent_encode(req.info_hash@)),
        ("peer_id"@, percent_encode(req.peer_id@)),
        ("port"@, decimal_of(req.port as nat)),
        ("uploaded"@, decimal_of(req.uploaded as nat)),
        ("downloaded"@, decimal_of(req.downloaded as nat)),
        ("left"@, decimal_of(req.left as nat)),
        ("compact"@, if req.compact { "1"@ } else { "0"@ }),
        ("no_peer_id"@, if req.no_peer_id { "1"@ } else { "0"@ }),
        ("event"@, spec_event_string(req.event)),
    ];
    let with_ip = match req.ip {
        Some(ip) => mandatory.push(("ip"@, percent_encode(vstd::utf8::encode_utf8(ip@)))),
        None => mandatory,
    };
    let with_numwant = match req.numwant {
        Some(n) => with_ip.push(("numwant"@, decimal_of(n as nat))),
        None => with_ip,
    };
    match req.key {
        Some(k) => with_numwant.push(("key"@, percent_encode(vstd::utf8::encode_utf8(k@)))),
        None => with_numwant,
    }
}

impl TrackerReq {
    /// Encodes this request as the ordered key/value pairs of the announce
    /// query string: exactly the nine mandatory keys in fixed order, then
    /// each optional field that is set, and nothing else.
    pub fn to_query_string_pairs(&self) -> (r: Vec<(String, String)>)
        ensures
            r@.map_values(|p: (String, String)| (p.0@, p.1@)) == spec_query_pairs(*self),
    {
        let mut pairs: Vec<(String, String)> = Vec::new();
        pairs.push(("info_hash".to_string(), url_encode(self.info_hash.as_slice())));
        pairs.push(("peer_id".to_string(), url_encode(self.peer_id.as_slice())));
        pairs.push(("port".to_string(), decimal_string(self.port as u64)));
        pairs.push(("uploaded".to_string(), decimal_string(self.uploaded)));
        pairs.push(("downloaded".to_string(), decimal_string(self.downloaded)));
        pairs.push(("left".to_string(), decimal_string(self.left)));
        pairs.push((
            "compact".to_string(),
            if self.compact {
                "1".to_string()
            } else {
                "0".to_string()
            },
        ));
        pairs.push((
            "no_peer_id".to_string(),
            if self.no_peer_id {
                "1".to_string()
            } else {
                "0".to_string()
            },
        ));
        pairs.push(("event".to_string(), self.event.to_string()));
        match &self.ip {
            Some(ip) => pairs.push(("ip".to_string(), url_encode_str(ip.as_str()))),
            None => {},
        }
        match &self.numwant {
            Some(n) => pairs.push(("numwant".to_string(), decimal_string(*n as u64))),
            None => {},
        }
        match &self.key {
            Some(k) => pairs.push(("key".to_string(), url_encode_str(k.as_str()))),
            None => {},
        }
        proof {
            assert(pairs@.map_values(|p: (String, String)| (p.0@, p.1@))
                =~= spec_query_pairs(*self));
        }
        pairs
    }
}

/// The query-pair list always holds exactly the nine mandatory keys, in
/// fixed order, followed only by the optional fields that are set: a pair
/// keyed `ip`, `numwant` or `key` appears exactly when the corresponding
/// field is set, and no other key ever appears.
pub proof fn lemma_query_pairs_shape(req: TrackerReq)
    ensures
        spec_query_pairs(req).len() == 9 + (if req.ip is Some {
            1int
        } else {
            0int
        }) + (if req.numwant is Some {
            1int
        } else {
            0int
        }) + (if req.key is Some {
            1int
        } else {
            0int
        }),
        spec_query_pairs(req)[0].0 == "info_hash"@,
        spec_query_pairs(req)[1].0 == "peer_id"@,
        spec_query_pairs(req)[2].0 == "port"@,
        spec_query_pairs(req)[3].0 == "uploaded"@,
        spec_query_pairs(req)[4].0 == "downloaded"@,
        spec_query_pairs(req)[5].0 == "left"@,
        spec_query_pairs(req)[6].0 == "compact"@,
        spec_query_pairs(req)[7].0 == "no_peer_id"@,
        spec_query_pairs(req)[8].0 == "event"@,
        req.ip is None ==> forall|i: int|
            0 <= i < spec_query_pairs(req).len() ==> spec_query_pairs(req)[i].0 != "ip"@,
        req.numwant is None ==> forall|i: int|
            0 <= i < spec_query_pairs(req).len() ==> spec_query_pairs(req)[i].0 != "numwant"@,
        req.key is None ==> forall|i: int|
            0 <= i < spec_query_pairs(req).len() ==> spec_query_pairs(req)[i].0 != "key"@,
{
    reveal_strlit("info_hash");
    reveal_strlit("peer_id");
    reveal_strlit("port");
    reveal_strlit("uploaded");
    reveal_strlit("downloaded");
    reveal_strlit("left");
    reveal_strlit("compact");
    reveal_strlit("no_peer_id");
    reveal_strlit("event");
    reveal_strlit("ip");
    reveal_strlit("numwant");
    reveal_strlit("key");
    assert("info_hash"@.len() == 9);
    assert("peer_id"@.len() == 7);
    assert("port"@.len() == 4);
    assert("uploaded"@.len() == 8);
    assert("downloaded"@.len() == 10);
    assert("left"@.len() == 4);
    assert("compact"@.len() == 7);
    assert("no_peer_id"@.len() == 10);
    assert("event"@.len() == 5);
    assert("ip"@.len() == 2);
    assert("numwant"@.len() == 7);
    assert("key"@.len() == 3);
    assert("numwant"@[0] == 'n' && "peer_id"@[0] == 'p' && "compact"@[0] == 'c');
    let ps = spec_query_pairs(req);
    assert forall|i: int| 0 <= i < ps.len() implies (ps[i].0 == "info_hash"@ || ps[i].0
        == "peer_id"@ || ps[i].0 == "port"@ || ps[i].0 == "uploaded"@ || ps[i].0 == "downloaded"@
        || ps[i].0 == "left"@ || ps[i].0 == "compact"@ || ps[i].0 == "no_peer_id"@ || ps[i].0
        == "event"@ || (req.ip is Some && ps[i].0 == "ip"@) || (req.numwant is Some && ps[i].0
        == "numwant"@) || (req.key is Some && ps[i].0 == "key"@)) by {}
}

/// A compact `peers` byte string decodes to exactly one peer per six
/// bytes; a length that is not a multiple of six is a decode error naming
/// `peers`.
pub proof fn lemma_compact_length(bs: Vec<u8>)
    ensures
        bs@.len() % 6 == 0 ==> spec_peers(Some(BValue::Str(bs))) == Ok::<
            Seq<PeerModel>,
            (DecodeErrorKind, Seq<char>),
        >(spec_compact_peers(bs@)) && spec_compact_peers(bs@).len() == bs@.len() / 6,
        bs@.len() % 6 != 0 ==> spec_peers(Some(BValue::Str(bs))) == Err::<
            Seq<PeerModel>,
            (DecodeErrorKind, Seq<char>),
        >((DecodeErrorKind::Malformed, "peers"@)),
{
}

/// A response dictionary with no `peers` entry at all decodes to an error
/// naming the field `peers`.
pub proof fn lemma_missing_peers(d: Seq<(String, BValue)>)
    requires
        lookup(d, "peers"@) is None,
    ensures
        spec_decode(d) == Err::<RespModel, (DecodeErrorKind, Seq<char>)>(
            (DecodeErrorKind::MissingField, "peers"@),
        ),
{
}

/// How a field of a response failed to decode: the key was absent, or it
/// was present with the wrong shape or a malformed value.
#[derive(Clone, Copy, Debug, PartialEq, Eq, Structural)]
pub enum DecodeErrorKind {
    MissingField,
    Malformed,
}

/// A decode failure, naming the field it arose on.
#[derive(Debug)]
pub struct DecodeError {
    pub kind: DecodeErrorKind,
    pub field: String,
}

/// One peer taken from a tracker response.
#[derive(Debug)]
pub struct Peer {
    pub peer_id: Option<Vec<u8>>,
    pub ip: PeerAddr,
    pub port: u16,
}

/// The mathematical value of a `Peer`.
#[verifier::ext_equal]
pub struct PeerModel {
    pub peer_id: Option<Seq<u8>>,
    pub ip: PeerAddr,
    pub port: u16,
}

impl View for Peer {
    type V = PeerModel;

    open spec fn view(&self) -> PeerModel {
        PeerModel {
            peer_id: match self.peer_id {
                Some(v) => Some(v@),
                None => None,
            },
            ip: self.ip,
            port: self.port,
        }
    }
}

/// A decoded tracker response: every scalar field optional, the peer list
/// mandatory.
#[derive(Debug)]
pub struct TrackerResp {
    pub failure_reason: Option<Vec<u8>>,
    pub warning_message: Option<Vec<u8>>,
    pub interval: Option<u32>,
    pub min_interval: Option<u32>,
    pub tracker_id: Option<Vec<u8>>,
    pub complete: Option<u32>,
    pub peers: Vec<Peer>,
}

/// The mathematical value of a `TrackerResp`.
#[verifier::ext_equal]
pub struct RespModel {
    pub failure_reason: Option<Seq<u8>>,
    pub warning_message: Option<Seq<u8>>,
    pub interval: Option<u32>,
    pub min_interval: Option<u32>,
    pub tracker_id: Option<Seq<u8>>,
    pub complete: Option<u32>,
    pub peers: Seq<PeerModel>,
}

pub open spec fn opt_bytes_view(o: Option<Vec<u8>>) -> Option<Seq<u8>> {
    match o {
        Some(v) => Some(v@),
        None => None,
    }
}

impl View for TrackerResp {
    type V = RespModel;

    open spec fn view(&self) -> RespModel {
        RespModel {
            failure_reason: opt_bytes_view(self.failure_reason),
            warning_message: opt_bytes_view(self.warning_message),
            interval: self.interval,
            min_interval: self.min_interval,
            tracker_id: opt_bytes_view(self.tracker_id),
            complete: self.complete,
            peers: self.peers@.map_values(|p: Peer| p@),
        }
    }
}

/// The byte-string field under `key`, when present with that shape.
pub open spec fn spec_str_field(d: Seq<(String, BValue)>, key: Seq<char>) -> Option<Seq<u8>> {
    match lookup(d, key) {
        Some(BValue::Str(b)) => Some(b@),
        _ => None,
    }
}

/// The low 32 bits of a wire integer, as the unsigned cast keeps them.
pub open spec fn spec_trunc_u32(v: i64) -> u32 {
    (v & 0xFFFF_FFFF) as u32
}

/// The integer field under `key`, when present with that shape, truncated
/// to 32 bits.
pub open spec fn spec_u32_field(d: Seq<(String, BValue)>, key: Seq<char>) -> Option<u32> {
    match lookup(d, key) {
        Some(BValue::Int(v)) => Some(spec_trunc_u32(v)),
        _ => None,
    }
}

/// The peers a compact byte string holds: one per 6-byte group, bytes 0-3
/// the IPv4 octets in order, bytes 4-5 the port in network byte order.
pub open spec fn spec_compact_peers(bs: Seq<u8>) -> Seq<PeerModel> {
    Seq::new(
        (bs.len() / 6) as nat,
        |k: int|
            PeerModel {
                peer_id: None,
                ip: PeerAddr::V4(bs[6 * k], bs[6 * k + 1], bs[6 * k + 2], bs[6 * k + 3]),
                port: (256 * bs[6 * k + 4] + bs[6 * k + 5]) as u16,
            },
    )
}

/// Decodes one entry of the list-of-dictionaries peer form: `ip` and `port`
/// are required, `peer id` optional; malformed address text or a port
/// outside 16 bits is a decode error naming the sub-field.
pub open spec fn spec_peer_fields(d: Seq<(String, BValue)>) -> Result<
    PeerModel,
    (DecodeErrorKind, Seq<char>),
> {
    match lookup(d, "ip"@) {
        None => Err((DecodeErrorKind::MissingField, "ip"@)),
        Some(BValue::Str(ipb)) => match lookup(d, "port"@) {
            None => Err((DecodeErrorKind::MissingField, "port"@)),
            Some(BValue::Int(p)) => match spec_parse_ip(ipb@) {
                None => Err((DecodeErrorKind::Malformed, "ip"@)),
                Some(addr) => if 0 <= p <= 65535 {
                    Ok(PeerModel { peer_id: spec_str_field(d, "peer id"@), ip: addr, port: p as u16 })
                } else {
                    Err((DecodeErrorKind::Malformed, "port"@))
                },
            },
            Some(_) => Err((DecodeErrorKind::Malformed, "port"@)),
        },
        Some(_) => Err((DecodeErrorKind::Malformed, "ip"@)),
    }
}

/// A peer-list entry must be a dictionary.
pub open spec fn spec_peer_entry(v: BValue) -> Result<PeerModel, (DecodeErrorKind, Seq<char>)> {
    match v {
        BValue::Dict(entries) => spec_peer_fields(entries@),
        _ => Err((DecodeErrorKind::Malformed, "peers"@)),
    }
}

/// Decodes the list-of-dictionaries peer form, in order, stopping at the
/// first failing entry.
pub open spec fn spec_peer_list(items: Seq<BValue>) -> Result<
    Seq<PeerModel>,
    (DecodeErrorKind, Seq<char>),
>
    decreases items.len(),
{
    if items.len() == 0 {
        Ok(Seq::empty())
    } else {
        match spec_peer_entry(items[0]) {
            Err(e) => Err(e),
            Ok(p) => match spec_peer_list(items.drop_first()) {
                Err(e) => Err(e),
                Ok(ps) => Ok(seq![p] + ps),
            },
        }
    }
}

/// Decodes the mandatory `peers` value: a byte string whose length is a
/// multiple of 6 (compact form), or a list of dictionaries. Absence, any
/// other shape, or a bad compact length is an error naming `peers`.
pub open spec fn spec_peers(pv: Option<BValue>) -> Result<
    Seq<PeerModel>,
    (DecodeErrorKind, Seq<char>),
> {
    match pv {
        None => Err((DecodeErrorKind::MissingField, "peers"@)),
        Some(BValue::Str(bs)) => if bs@.len() % 6 == 0 {
            Ok(spec_compact_peers(bs@))
        } else {
            Err((DecodeErrorKind::Malformed, "peers"@))
        },
        Some(BValue::List(items)) => spec_peer_list(items@),
        Some(_) => Err((DecodeErrorKind::Malformed, "peers"@)),
    }
}

/// The decoded response a dictionary denotes: the optional scalar fields
/// read where present with the right shape, and the mandatory peer list.
pub open spec fn spec_decode(d: Seq<(String, BValue)>) -> Result<
    RespModel,
    (DecodeErrorKind, Seq<char>),
> {
    match spec_peers(lookup(d, "peers"@)) {
        Err(e) => Err(e),
        Ok(ps) => Ok(
            RespModel {
                failure_reason: spec_str_field(d, "failure reason"@),
                warning_message: spec_str_field(d, "warning message"@),
                interval: spec_u32_field(d, "interval"@),
                min_interval: spec_u32_field(d, "min interval"@),
                tracker_id: spec_str_field(d, "tracker id"@),
                complete: spec_u32_field(d, "complete"@),
                peers: ps,
            },
        ),
    }
}

/// A fresh copy of a byte vector.
pub(crate) fn copy_bytes(b: &Vec<u8>) -> (r: Vec<u8>)
    ensures
        r@ == b@,
{
    let mut out: Vec<u8> = Vec::new();
    let mut i: usize = 0;
    while i < b.len()
        invariant
            i <= b@.len(),
            out@ == b@.take(i as int),
        decreases b@.len() - i,
    {
        out.push(b[i]);
        proof {
            assert(b@.take(i + 1 as int) =~= b@.take(i as int).push(b@[i as int]));
        }
        i += 1;
    }
    proof {
        assert(b@.take(b@.len() as int) =~= b@);
    }
    out
}

/// The byte-string field under `key`, copied out, when present.
fn str_field(d: &Vec<(String, BValue)>, key: &String) -> (r: Option<Vec<u8>>)
    ensures
        opt_bytes_view(r) == spec_str_field(d@, key@),
{
    match dict_get(d, key) {
        Some(BValue::Str(b)) => Some(copy_bytes(b)),
        _ => None,
    }
}

/// The low 32 bits of a wire integer.
fn trunc_u32(v: i64) -> (r: u32)
    ensures
        r == spec_trunc_u32(v),
{
    proof {
        assert(0 <= (v & 0xFFFF_FFFF) < 0x1_0000_0000i64) by (bit_vector);
    }
    (v & 0xFFFF_FFFF) as u32
}

/// The integer field under `key`, truncated to 32 bits, when present.
fn u32_field(d: &Vec<(String, BValue)>, key: &String) -> (r: Option<u32>)
    ensures
        r == spec_u32_field(d@, key@),
{
    match dict_get(d, key) {
        Some(BValue::Int(v)) => Some(trunc_u32(*v)),
        _ => None,
    }
}

/// Decodes a compact peer byte string: one peer per 6-byte group.
fn decode_compact(bs: &Vec<u8>) -> (r: Vec<Peer>)
    requires
        bs@.len() % 6 == 0,
    ensures
        r@.map_values(|p: Peer| p@) == spec_compact_peers(bs@),
{
    let count: usize = bs.len() / 6;
    proof {
        vstd::arithmetic::div_mod::lemma_fundamental_div_mod(bs@.len() as int, 6);
        assert(6 * (count as int) == bs@.len());
        assert(bs.len() == bs@.len());
    }
    let mut out: Vec<Peer> = Vec::new();
    let mut k: usize = 0;
    while k < count
        invariant
            k <= count,
            count == bs@.len() / 6,
            6 * (count as int) == bs@.len(),
            bs@.len() <= usize::MAX,
            out@.len() == k,
            forall|t: int| 0 <= t < k ==> out@[t]@ == spec_compact_peers(bs@)[t],
        decreases count - k,
    {
        proof {
            assert(6 * (k as int) + 5 < bs@.len());
        }
        let base: usize = k * 6;
        let port: u16 = 256 * (bs[base + 4] as u16) + (bs[base + 5] as u16);
        let p = Peer {
            peer_id: None,
            ip: PeerAddr::V4(bs[base], bs[base + 1], bs[base + 2], bs[base + 3]),
            port,
        };
        proof {
            assert(p@ =~= spec_compact_peers(bs@)[k as int]);
        }
        out.push(p);
        k += 1;
    }
    proof {
        assert(out@.map_values(|p: Peer| p@) =~= spec_compact_peers(bs@));
    }
    out
}

/// Decodes one entry of the list-of-dictionaries peer form.
fn decode_peer_entry(v: &BValue) -> (r: Result<Peer, DecodeError>)
    ensures
        match r {
            Ok(p) => spec_peer_entry(*v) == Ok::<PeerModel, (DecodeErrorKind, Seq<char>)>(p@),
            Err(e) => spec_peer_entry(*v) == Err::<PeerModel, (DecodeErrorKind, Seq<char>)>(
                (e.kind, e.field@),
            ),
        },
{
    match v {
        BValue::Dict(entries) => {
            let ipv = dict_get(entries, &"ip".to_string());
            match ipv {
                None => Err(
                    DecodeError { kind: DecodeErrorKind::MissingField, field: "ip".to_string() },
                ),
                Some(BValue::Str(ipb)) => {
                    let portv = dict_get(entries, &"port".to_string());
                    match portv {
                        None => Err(
                            DecodeError {
                                kind: DecodeErrorKind::MissingField,
                                field: "port".to_string(),
                            },
                        ),
                        Some(BValue::Int(p)) => {
                            match parse_ip(ipb) {
                                None => Err(
                                    DecodeError {
                                        kind: DecodeErrorKind::Malformed,
                                        field: "ip".to_string(),
                                    },
                                ),
                                Some(addr) => {
                                    if 0 <= *p && *p <= 65535 {
                                        let peer = Peer {
                                            peer_id: str_field(entries, &"peer id".to_string()),
                                            ip: addr,
                                            port: *p as u16,
                                        };
                                        proof {
                                            assert(spec_peer_fields(entries@) matches Ok(m)
                                                && m =~= peer@);
                                        }
                                        Ok(peer)
                                    } else {
                                        Err(
                                            DecodeError {
                                                kind: DecodeErrorKind::Malformed,
                                                field: "port".to_string(),
                                            },
                                        )
                                    }
                                },
                            }
                        },
                        Some(_) => Err(
                            DecodeError {
                                kind: DecodeErrorKind::Malformed,
                                field: "port".to_string(),
                            },
                        ),
                    }
                },
                Some(_) => Err(
                    DecodeError { kind: DecodeErrorKind::Malformed, field: "ip".to_string() },
                ),
            }
        },
        _ => Err(DecodeError { kind: DecodeErrorKind::Malformed, field: "peers".to_string() }),
    }
}

/// Decodes the list-of-dictionaries peer form, in order.
fn decode_peer_list(items: &Vec<BValue>) -> (r: Result<Vec<Peer>, DecodeError>)
    ensures
        match r {
            Ok(ps) => spec_peer_list(items@) == Ok::<Seq<PeerModel>, (DecodeErrorKind, Seq<char>)>(
                ps@.map_values(|p: Peer| p@),
            ),
            Err(e) => spec_peer_list(items@) == Err::<Seq<PeerModel>, (DecodeErrorKind, Seq<char>)>(
                (e.kind, e.field@),
            ),
        },
{
    let mut out: Vec<Peer> = Vec::new();
    let mut i: usize = 0;
    proof {
        assert(items@.skip(0) =~= items@);
    }
    while i < items.len()
        invariant
            i <= items@.len(),
            out@.len() == i,
            spec_peer_list(items@.skip(i as int)) matches Ok(rest) ==> spec_peer_list(items@)
                == Ok::<Seq<PeerModel>, (DecodeErrorKind, Seq<char>)>(
                out@.map_values(|p: Peer| p@) + rest,
            ),
            spec_peer_list(items@.skip(i as int)) is Err ==> spec_peer_list(items@)
                == spec_peer_list(items@.skip(i as int)),
        decreases items@.len() - i,
    {
        proof {
            assert(items@.skip(i as int)[0] == items@[i as int]);
            assert(items@.skip(i as int).drop_first() =~= items@.skip(i + 1 as int));
        }
        match decode_peer_entry(&items[i]) {
            Err(e) => {
                return Err(e);
            },
            Ok(p) => {
                let ghost old_out = out@;
                out.push(p);
                proof {
                    assert(out@.map_values(|q: Peer| q@) =~= old_out.map_values(|q: Peer| q@)
                        + seq![p@]);
                    match spec_peer_list(items@.skip(i + 1 as int)) {
                        Ok(rest) => {
                            assert(old_out.map_values(|q: Peer| q@) + (seq![p@] + rest) =~= out@
                                .map_values(|q: Peer| q@) + rest);
                        },
                        Err(_) => {},
                    }
                }
                i += 1;
            },
        }
    }
    proof {
        assert(items@.skip(items@.len() as int) =~= Seq::<BValue>::empty());
        assert(out@.map_values(|p: Peer| p@) + Seq::<PeerModel>::empty() =~= out@.map_values(
            |p: Peer| p@,
        ));
    }
    Ok(out)
}

impl TrackerResp {
    /// Decodes a parsed response dictionary. `peers` is mandatory, in either
    /// of its two wire forms; the scalar fields are read where present with
    /// the right shape and ignored otherwise. On failure, the error names
    /// the field it arose on.
    pub fn decode(dict: &Vec<(String, BValue)>) -> (r: Result<TrackerResp, DecodeError>)
        ensures
            match r {
                Ok(resp) => spec_decode(dict@) == Ok::<RespModel, (DecodeErrorKind, Seq<char>)>(
                    resp@,
                ),
                Err(e) => spec_decode(dict@) == Err::<RespModel, (DecodeErrorKind, Seq<char>)>(
                    (e.kind, e.field@),
                ),
            },
    {
        let peers_val = dict_get(dict, &"peers".to_string());
        let peers: Vec<Peer> = match peers_val {
            None => {
                return Err(
                    DecodeError { kind: DecodeErrorKind::MissingField, field: "peers".to_string() },
                );
            },
            Some(BValue::Str(bs)) => {
                if bs.len() % 6 == 0 {
                    decode_compact(bs)
                } else {
                    return Err(
                        DecodeError { kind: DecodeErrorKind::Malformed, field: "peers".to_string() },
                    );
                }
            },
            Some(BValue::List(items)) => {
                match decode_peer_list(items) {
                    Ok(ps) => ps,
                    Err(e) => {
                        return Err(e);
                    },
                }
            },
            Some(_) => {
                return Err(
                    DecodeError { kind: DecodeErrorKind::Malformed, field: "peers".to_string() },
                );
            },
        };
        let resp = TrackerResp {
            failure_reason: str_field(dict, &"failure reason".to_string()),
            warning_message: str_field(dict, &"warning message".to_string()),
            interval: u32_field(dict, &"interval".to_string()),
            min_interval: u32_field(dict, &"min interval".to_string()),
            tracker_id: str_field(dict, &"tracker id".to_string()),
            complete: u32_field(dict, &"complete".to_string()),
            peers,
        };
        proof {
            assert(spec_decode(dict@) matches Ok(m) && m =~= resp@);
        }
        Ok(resp)
    }
}

} // verus!
