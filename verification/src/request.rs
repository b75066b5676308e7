//! The blob exchange: a request/response protocol over a connection-
//! oriented transport. A request is a 4-byte little-endian ordinal naming a
//! tag; the response is an 8-byte little-endian length followed by exactly
//! that many payload bytes, a zero length signalling that nothing is
//! registered under the tag. The store that backs the server keeps one
//! optional blob per tag; the embedding program shares it behind a lock and
//! does the socket work, calling into here for every byte it puts on or
//! takes off the wire.

use crate::protocol::ProtocolViolation;
use vstd::bytes::*;
use vstd::prelude::*;

verus! {

broadcast use vstd::array::group_array_axioms;

/// A request tag, the closed set of things a peer can ask for. `Connect`
/// is reserved for future live-channel negotiation; it is a recognized tag
/// and answers like any other lookup, so a requester always gets a reply.
#[derive(Clone, Copy, PartialEq, Eq, Hash, Structural, Debug)]
pub enum Request {
    KeyMap,
    Connect,
}

/// The 4-byte ordinal a request tag travels as.
pub open spec fn spec_request_ord(r: Request) -> u32 {
    match r {
        Request::KeyMap => 0,
        Request::Connect => 1,
    }
}

/// The request named by a 4-byte buffer, if its ordinal is a known tag.
pub open spec fn spec_parse_request(s: Seq<u8>) -> Option<Request> {
    if spec_u32_from_le_bytes(s) == 0 {
        Some(Request::KeyMap)
    } else if spec_u32_from_le_bytes(s) == 1 {
        Some(Request::Connect)
    } else {
        None
    }
}

impl Request {
    /// The ordinal this tag travels as.
    pub fn ordinal(&self) -> (r: u32)
        ensures
            r == spec_request_ord(*self),
    {
        match *self {
            Request::KeyMap => 0,
            Request::Connect => 1,
        }
    }

    /// Reads a request tag from the 4 bytes a requester sent. An ordinal
    /// outside the closed set is a protocol violation.
    pub fn try_from(buf: [u8; 4]) -> (r: Result<Request, ProtocolViolation>)
        ensures
            r == match spec_parse_request(buf@) {
                Some(req) => Ok::<Request, ProtocolViolation>(req),
                None => Err::<Request, ProtocolViolation>(ProtocolViolation),
            },
    {
        let val = u32_from_le_bytes(buf.as_slice());
        if val == 0 {
            Ok(Request::KeyMap)
        } else if val == 1 {
            Ok(Request::Connect)
        } else {
            Err(ProtocolViolation)
        }
    }
}

/// Encodes a request tag as the 4 bytes the requester writes.
pub fn encode_request(req: Request) -> (r: Vec<u8>)
    ensures
        r@ == spec_u32_to_le_bytes(spec_request_ord(req)),
        r@.len() == 4,
        spec_parse_request(r@) == Some(req),
{
    proof {
        lemma_auto_spec_u32_to_from_le_bytes();
    }
    u32_to_le_bytes(req.ordinal())
}

/// The response the server sends for a looked-up tag: an 8-byte
/// little-endian length and the payload, or a bare zero length when
/// nothing is registered under the tag.
pub open spec fn spec_response(blob: Option<Seq<u8>>) -> Seq<u8> {
    match blob {
        Some(d) => spec_u64_to_le_bytes(d.len() as u64) + d,
        None => spec_u64_to_le_bytes(0),
    }
}

/// The in-memory store behind the blob server: one optional immutable blob
/// per request tag, installed by a local producer and looked up by inbound
/// requests. An entry persists until a later offer for the same tag
/// replaces it.
pub struct Server {
    keymap: Option<Vec<u8>>,
    connect: Option<Vec<u8>>,
}

/// The relation `offer_data` establishes between the store before and
/// after a call: the offered tag holds exactly the new bytes, every other
/// tag is untouched.
pub open spec fn offer_post(pre: Server, post: Server, req: Request, data: Seq<u8>) -> bool {
    &&& post.blob(req) == Some(data)
    &&& forall|other: Request| other != req ==> post.blob(other) == pre.blob(other)
}

impl Server {
    /// The bytes registered under a tag, if any. This is the store's whole
    /// abstract state: every contract below speaks in terms of it.
    pub closed spec fn blob(self, r: Request) -> Option<Seq<u8>> {
        match r {
            Request::KeyMap => match self.keymap {
                Some(d) => Some(d@),
                None => None,
            },
            Request::Connect => match self.connect {
                Some(d) => Some(d@),
                None => None,
            },
        }
    }

    /// A fresh store with nothing registered.
    pub fn new() -> (s: Server)
        ensures
            forall|r: Request| s.blob(r) is None,
    {
        Server { keymap: None, connect: None }
    }

    /// Installs or replaces the blob for a tag; other tags keep what they
    /// held.
    pub fn offer_data(&mut self, req: Request, data: Vec<u8>)
        ensures
            offer_post(*old(self), *final(self), req, data@),
    {
        match req {
            Request::KeyMap => {
                self.keymap = Some(data);
            },
            Request::Connect => {
                self.connect = Some(data);
            },
        }
    }

    /// Builds the full response for a recognized tag: the stored blob
    /// behind its length prefix, or the zero length when the tag holds
    /// nothing.
    pub fn build_response(&self, req: Request) -> (resp: Vec<u8>)
        ensures
            resp@ == spec_response(self.blob(req)),
    {
        let blob = match req {
            Request::KeyMap => &self.keymap,
            Request::Connect => &self.connect,
        };
        match blob {
            None => u64_to_le_bytes(0),
            Some(d) => {
                let mut resp = u64_to_le_bytes(d.len() as u64);
                let mut i: usize = 0;
                while i < d.len()
                    invariant
                        i <= d@.len(),
                        resp@ == spec_u64_to_le_bytes(d@.len() as u64) + d@.subrange(0, i as int),
                    decreases d@.len() - i,
                {
                    let byte = d[i];
                    resp.push(byte);
                    proof {
                        assert(resp@ =~= spec_u64_to_le_bytes(d@.len() as u64) + d@.subrange(
                            0,
                            i + 1,
                        ));
                    }
                    i = i + 1;
                }
                proof {
                    assert(resp@ =~= spec_response(self.blob(req)));
                }
                resp
            },
        }
    }

    /// One whole server turn for an accepted connection: reads the 4 bytes
    /// the requester sent as a tag and yields the response to write back,
    /// or nothing when the tag is unrecognized, in which case the
    /// connection is abandoned without a reply.
    pub fn handle_request(&self, tag: [u8; 4]) -> (r: Option<Vec<u8>>)
        ensures
            match spec_parse_request(tag@) {
                Some(req) => r matches Some(resp) && resp@ == spec_response(self.blob(req)),
                None => r is None,
            },
    {
        match Request::try_from(tag) {
            Ok(req) => Some(self.build_response(req)),
            Err(_) => None,
        }
    }
}

/// Reads the 8-byte length prefix of a response. A zero result means the
/// tag was absent on the server and no payload follows.
pub fn parse_response_len(header: [u8; 8]) -> (r: u64)
    ensures
        r == spec_u64_from_le_bytes(header@),
{
    u64_from_le_bytes(header.as_slice())
}

/// Absence law: the response for a tag with nothing registered is exactly
/// the 8-byte zero length — a definite indicator the requester can act on,
/// never a stall.
pub proof fn lemma_absent_response()
    ensures
        spec_response(None).len() == 8,
        spec_u64_from_le_bytes(spec_response(None)) == 0,
{
    lemma_auto_spec_u64_to_from_le_bytes();
}

/// Round-trip law: the response built for a stored blob carries exactly
/// that blob — the length prefix reads back as its byte count, and the
/// bytes after the prefix are the blob itself. A requester that reads the
/// prefix and then that many bytes recovers what was offered.
pub proof fn lemma_response_round_trip(data: Seq<u8>)
    requires
        data.len() <= u64::MAX,
    ensures
        spec_response(Some(data)).len() == 8 + data.len(),
        spec_u64_from_le_bytes(spec_response(Some(data)).subrange(0, 8)) == data.len(),
        spec_response(Some(data)).subrange(8, spec_response(Some(data)).len() as int) == data,
{
    lemma_auto_spec_u64_to_from_le_bytes();
    let r = spec_response(Some(data));
    assert(r.subrange(0, 8) =~= spec_u64_to_le_bytes(data.len() as u64));
    assert(r.subrange(8, r.len() as int) =~= data);
}

/// Overwrite law: after two sequential offers for the same tag, the store
/// holds the second blob only, and tags the offers did not touch still
/// hold what they held at the start — a later lookup sees the second blob,
/// never the first and never a mix.
pub proof fn lemma_second_offer_wins(
    s0: Server,
    s1: Server,
    s2: Server,
    req: Request,
    a: Seq<u8>,
    b: Seq<u8>,
)
    requires
        offer_post(s0, s1, req, a),
        offer_post(s1, s2, req, b),
    ensures
        s2.blob(req) == Some(b),
        forall|other: Request| other != req ==> s2.blob(other) == s0.blob(other),
{
}

} // verus!
