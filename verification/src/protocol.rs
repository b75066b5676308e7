//! The event codec: each input event travels as one fixed-size 21-byte
//! frame. Byte 0 is the variant tag; every multi-byte field is written in
//! little-endian order so that heterogeneous hosts interoperate; trailing
//! bytes a short variant does not use are zero on encode and ignored on
//! decode.
//!
//! Floating-point coordinates cross the wire as their 8-byte IEEE-754
//! bit patterns. The codec carries them as the `u64` holding exactly those
//! bits, so a round trip preserves every value bit for bit; the embedding
//! program converts at the boundary with `f64::to_bits`/`f64::from_bits`.

use vstd::bytes::*;
use vstd::prelude::*;

verus! {

broadcast use vstd::array::group_array_axioms;

/// Error reported when a frame or a request carries an unrecognized tag or
/// an out-of-range enumerated field. The offending frame is dropped and the
/// process continues.
#[derive(Clone, Copy, PartialEq, Eq, Structural, Debug)]
pub struct ProtocolViolation;

/// State of a pointer button: byte 1 on the wire when pressed, 0 when
/// released.
#[derive(Clone, Copy, PartialEq, Eq, Structural, Debug)]
pub enum ButtonState {
    Pressed,
    Released,
}

/// Scroll axis of an axis event: byte 0 on the wire for vertical, 1 for
/// horizontal.
#[derive(Clone, Copy, PartialEq, Eq, Structural, Debug)]
pub enum AxisKind {
    Vertical,
    Horizontal,
}

/// State of a key: byte 1 on the wire when pressed, 0 when released.
#[derive(Clone, Copy, PartialEq, Eq, Structural, Debug)]
pub enum KeyState {
    Pressed,
    Released,
}

/// One input event, the unit carried by a single datagram frame.
///
/// `x`, `y` and `v` hold the IEEE-754 bit pattern of the corresponding
/// `f64` coordinate or scroll value.
#[allow(inconsistent_fields)]
#[derive(Clone, Copy, PartialEq, Eq, Structural, Debug)]
pub enum Event {
    Mouse { t: u32, x: u64, y: u64 },
    Button { t: u32, b: u32, s: ButtonState },
    Axis { t: u32, a: AxisKind, v: u64 },
    Key { t: u32, k: u32, s: KeyState },
    KeyModifier { mods_depressed: u32, mods_latched: u32, mods_locked: u32, group: u32 },
}

/// Every frame is exactly this long, whatever the variant.
pub const FRAME_LEN: usize = 21;

/// The wire byte for a button state.
pub open spec fn spec_button_state_byte(s: ButtonState) -> u8 {
    match s {
        ButtonState::Released => 0,
        ButtonState::Pressed => 1,
    }
}

/// The wire byte for an axis kind.
pub open spec fn spec_axis_byte(a: AxisKind) -> u8 {
    match a {
        AxisKind::Vertical => 0,
        AxisKind::Horizontal => 1,
    }
}

/// The wire byte for a key state.
pub open spec fn spec_key_state_byte(s: KeyState) -> u8 {
    match s {
        KeyState::Released => 0,
        KeyState::Pressed => 1,
    }
}

/// `n` zero bytes, the padding that fills a short variant out to the fixed
/// frame length.
pub open spec fn zero_pad(n: nat) -> Seq<u8> {
    Seq::new(n, |i: int| 0u8)
}

/// The exact 21 bytes that encode an event.
pub open spec fn spec_encode(e: Event) -> Seq<u8> {
    match e {
        Event::Mouse { t, x, y } => seq![0u8] + spec_u32_to_le_bytes(t) + spec_u64_to_le_bytes(x)
            + spec_u64_to_le_bytes(y),
        Event::Button { t, b, s } => seq![1u8] + spec_u32_to_le_bytes(t) + spec_u32_to_le_bytes(b)
            + seq![spec_button_state_byte(s)] + zero_pad(11),
        Event::Axis { t, a, v } => seq![2u8] + spec_u32_to_le_bytes(t) + seq![spec_axis_byte(a)]
            + spec_u64_to_le_bytes(v) + zero_pad(7),
        Event::Key { t, k, s } => seq![3u8] + spec_u32_to_le_bytes(t) + spec_u32_to_le_bytes(k)
            + seq![spec_key_state_byte(s)] + zero_pad(11),
        Event::KeyModifier { mods_depressed, mods_latched, mods_locked, group } => seq![4u8]
            + spec_u32_to_le_bytes(mods_depressed) + spec_u32_to_le_bytes(mods_latched)
            + spec_u32_to_le_bytes(mods_locked) + spec_u32_to_le_bytes(group) + zero_pad(4),
    }
}

/// Whether a 21-byte buffer is a well-formed frame: a known tag, and, for
/// the variants that carry an enumerated byte, that byte in range. Decoding
/// succeeds exactly on these buffers.
pub open spec fn frame_valid(s: Seq<u8>) -> bool {
    &&& s.len() == FRAME_LEN
    &&& (s[0] == 0 || s[0] == 1 || s[0] == 2 || s[0] == 3 || s[0] == 4)
    &&& ((s[0] == 1 || s[0] == 3) ==> (s[9] == 0 || s[9] == 1))
    &&& (s[0] == 2 ==> (s[5] == 0 || s[5] == 1))
}

/// The event a well-formed frame denotes.
pub open spec fn spec_decode(s: Seq<u8>) -> Event
    recommends
        frame_valid(s),
{
    if s[0] == 0 {
        Event::Mouse {
            t: spec_u32_from_le_bytes(s.subrange(1, 5)),
            x: spec_u64_from_le_bytes(s.subrange(5, 13)),
            y: spec_u64_from_le_bytes(s.subrange(13, 21)),
        }
    } else if s[0] == 1 {
        Event::Button {
            t: spec_u32_from_le_bytes(s.subrange(1, 5)),
            b: spec_u32_from_le_bytes(s.subrange(5, 9)),
            s: if s[9] == 0 {
                ButtonState::Released
            } else {
                ButtonState::Pressed
            },
        }
    } else if s[0] == 2 {
        Event::Axis {
            t: spec_u32_from_le_bytes(s.subrange(1, 5)),
            a: if s[5] == 0 {
                AxisKind::Vertical
            } else {
                AxisKind::Horizontal
            },
            v: spec_u64_from_le_bytes(s.subrange(6, 14)),
        }
    } else if s[0] == 3 {
        Event::Key {
            t: spec_u32_from_le_bytes(s.subrange(1, 5)),
            k: spec_u32_from_le_bytes(s.subrange(5, 9)),
            s: if s[9] == 0 {
                KeyState::Released
            } else {
                KeyState::Pressed
            },
        }
    } else {
        Event::KeyModifier {
            mods_depressed: spec_u32_from_le_bytes(s.subrange(1, 5)),
            mods_latched: spec_u32_from_le_bytes(s.subrange(5, 9)),
            mods_locked: spec_u32_from_le_bytes(s.subrange(9, 13)),
            group: spec_u32_from_le_bytes(s.subrange(13, 17)),
        }
    }
}

/// Appends `n` zero bytes.
fn push_zeros(buf: &mut Vec<u8>, n: usize)
    requires
        old(buf)@.len() + n <= usize::MAX,
    ensures
        final(buf)@ == old(buf)@ + zero_pad(n as nat),
{
    let mut i: usize = 0;
    while i < n
        invariant
            i <= n,
            buf@ == old(buf)@ + zero_pad(i as nat),
        decreases n - i,
    {
        buf.push(0u8);
        proof {
            assert(buf@ =~= old(buf)@ + zero_pad((i + 1) as nat));
        }
        i = i + 1;
    }
    proof {
        assert(buf@ =~= old(buf)@ + zero_pad(n as nat));
    }
}

impl Event {
    /// Encodes the event as one fixed-size frame: the tag byte, the
    /// variant's fields in little-endian order, and zero padding out to the
    /// full frame length.
    pub fn encode(&self) -> (r: Vec<u8>)
        ensures
            r@ == spec_encode(*self),
            r@.len() == FRAME_LEN,
    {
        let mut buf: Vec<u8> = Vec::new();
        match *self {
            Event::Mouse { t, x, y } => {
                buf.push(0u8);
                let mut tb = u32_to_le_bytes(t);
                buf.append(&mut tb);
                let mut xb = u64_to_le_bytes(x);
                buf.append(&mut xb);
                let mut yb = u64_to_le_bytes(y);
                buf.append(&mut yb);
            },
            Event::Button { t, b, s } => {
                buf.push(1u8);
                let mut tb = u32_to_le_bytes(t);
                buf.append(&mut tb);
                let mut bb = u32_to_le_bytes(b);
                buf.append(&mut bb);
                buf.push(
                    match s {
                        ButtonState::Released => 0u8,
                        ButtonState::Pressed => 1u8,
                    },
                );
                push_zeros(&mut buf, 11);
            },
            Event::Axis { t, a, v } => {
                buf.push(2u8);
                let mut tb = u32_to_le_bytes(t);
                buf.append(&mut tb);
                buf.push(
                    match a {
                        AxisKind::Vertical => 0u8,
                        AxisKind::Horizontal => 1u8,
                    },
                );
                let mut vb = u64_to_le_bytes(v);
                buf.append(&mut vb);
                push_zeros(&mut buf, 7);
            },
            Event::Key { t, k, s } => {
                buf.push(3u8);
                let mut tb = u32_to_le_bytes(t);
                buf.append(&mut tb);
                let mut kb = u32_to_le_bytes(k);
                buf.append(&mut kb);
                buf.push(
                    match s {
                        KeyState::Released => 0u8,
                        KeyState::Pressed => 1u8,
                    },
                );
                push_zeros(&mut buf, 11);
            },
            Event::KeyModifier { mods_depressed, mods_latched, mods_locked, group } => {
                buf.push(4u8);
                let mut db = u32_to_le_bytes(mods_depressed);
                buf.append(&mut db);
                let mut lb = u32_to_le_bytes(mods_latched);
                buf.append(&mut lb);
                let mut ob = u32_to_le_bytes(mods_locked);
                buf.append(&mut ob);
                let mut gb = u32_to_le_bytes(group);
                buf.append(&mut gb);
                push_zeros(&mut buf, 4);
            },
        }
        proof {
            assert(buf@ =~= spec_encode(*self));
            lemma_encode_len(*self);
        }
        buf
    }

    /// Decodes one received frame. Succeeds exactly on well-formed frames;
    /// an unknown tag byte or an out-of-range enumerated byte is reported
    /// as a protocol violation, never mapped to a default.
    pub fn decode(buf: [u8; 21]) -> (r: Result<Event, ProtocolViolation>)
        ensures
            frame_valid(buf@) ==> r == Ok::<Event, ProtocolViolation>(spec_decode(buf@)),
            !frame_valid(buf@) ==> r == Err::<Event, ProtocolViolation>(ProtocolViolation),
    {
        let tag = buf[0];
        if tag == 0 {
            let t = u32_from_le_bytes(vstd::slice::slice_subrange(buf.as_slice(), 1, 5));
            let x = u64_from_le_bytes(vstd::slice::slice_subrange(buf.as_slice(), 5, 13));
            let y = u64_from_le_bytes(vstd::slice::slice_subrange(buf.as_slice(), 13, 21));
            Ok(Event::Mouse { t, x, y })
        } else if tag == 1 {
            let t = u32_from_le_bytes(vstd::slice::slice_subrange(buf.as_slice(), 1, 5));
            let b = u32_from_le_bytes(vstd::slice::slice_subrange(buf.as_slice(), 5, 9));
            if buf[9] == 0 {
                Ok(Event::Button { t, b, s: ButtonState::Released })
            } else if buf[9] == 1 {
                Ok(Event::Button { t, b, s: ButtonState::Pressed })
            } else {
                Err(ProtocolViolation)
            }
        } else if tag == 2 {
            let t = u32_from_le_bytes(vstd::slice::slice_subrange(buf.as_slice(), 1, 5));
            let v = u64_from_le_bytes(vstd::slice::slice_subrange(buf.as_slice(), 6, 14));
            if buf[5] == 0 {
                Ok(Event::Axis { t, a: AxisKind::Vertical, v })
            } else if buf[5] == 1 {
                Ok(Event::Axis { t, a: AxisKind::Horizontal, v })
            } else {
                Err(ProtocolViolation)
            }
        } else if tag == 3 {
            let t = u32_from_le_bytes(vstd::slice::slice_subrange(buf.as_slice(), 1, 5));
            let k = u32_from_le_bytes(vstd::slice::slice_subrange(buf.as_slice(), 5, 9));
            if buf[9] == 0 {
                Ok(Event::Key { t, k, s: KeyState::Released })
            } else if buf[9] == 1 {
                Ok(Event::Key { t, k, s: KeyState::Pressed })
            } else {
                Err(ProtocolViolation)
            }
        } else if tag == 4 {
            let mods_depressed = u32_from_le_bytes(
                vstd::slice::slice_subrange(buf.as_slice(), 1, 5),
            );
            let mods_latched = u32_from_le_bytes(vstd::slice::slice_subrange(buf.as_slice(), 5, 9));
            let mods_locked = u32_from_le_bytes(vstd::slice::slice_subrange(buf.as_slice(), 9, 13));
            let group = u32_from_le_bytes(vstd::slice::slice_subrange(buf.as_slice(), 13, 17));
            Ok(Event::KeyModifier { mods_depressed, mods_latched, mods_locked, group })
        } else {
            Err(ProtocolViolation)
        }
    }
}

/// Frame size law: every variant encodes to exactly the fixed frame length.
pub proof fn lemma_encode_len(e: Event)
    ensures
        spec_encode(e).len() == FRAME_LEN,
{
    lemma_auto_spec_u32_to_from_le_bytes();
    lemma_auto_spec_u64_to_from_le_bytes();
}

/// Every encoded frame is well formed: its tag byte is known and its
/// enumerated bytes are in range, so decoding it cannot fail.
pub proof fn lemma_encode_valid(e: Event)
    ensures
        frame_valid(spec_encode(e)),
{
    lemma_auto_spec_u32_to_from_le_bytes();
    lemma_auto_spec_u64_to_from_le_bytes();
    lemma_encode_len(e);
}

/// Round-trip law: decoding an encoded event yields the event back, field
/// for field, bit pattern for bit pattern.
pub proof fn lemma_round_trip(e: Event)
    ensures
        frame_valid(spec_encode(e)),
        spec_decode(spec_encode(e)) == e,
{
    lemma_auto_spec_u32_to_from_le_bytes();
    lemma_auto_spec_u64_to_from_le_bytes();
    lemma_encode_valid(e);
    let s = spec_encode(e);
    match e {
        Event::Mouse { t, x, y } => {
            assert(s.subrange(1, 5) =~= spec_u32_to_le_bytes(t));
            assert(s.subrange(5, 13) =~= spec_u64_to_le_bytes(x));
            assert(s.subrange(13, 21) =~= spec_u64_to_le_bytes(y));
        },
        Event::Button { t, b, s: st } => {
            assert(s.subrange(1, 5) =~= spec_u32_to_le_bytes(t));
            assert(s.subrange(5, 9) =~= spec_u32_to_le_bytes(b));
        },
        Event::Axis { t, a, v } => {
            assert(s.subrange(1, 5) =~= spec_u32_to_le_bytes(t));
            assert(s.subrange(6, 14) =~= spec_u64_to_le_bytes(v));
        },
        Event::Key { t, k, s: st } => {
            assert(s.subrange(1, 5) =~= spec_u32_to_le_bytes(t));
            assert(s.subrange(5, 9) =~= spec_u32_to_le_bytes(k));
        },
        Event::KeyModifier { mods_depressed, mods_latched, mods_locked, group } => {
            assert(s.subrange(1, 5) =~= spec_u32_to_le_bytes(mods_depressed));
            assert(s.subrange(5, 9) =~= spec_u32_to_le_bytes(mods_latched));
            assert(s.subrange(9, 13) =~= spec_u32_to_le_bytes(mods_locked));
            assert(s.subrange(13, 17) =~= spec_u32_to_le_bytes(group));
        },
    }
}

/// How many leading bytes of a frame with this tag byte carry meaning:
/// the rest is padding, zero on encode and ignored on decode.
pub open spec fn meaningful_len(tag: u8) -> int {
    if tag == 0 {
        21
    } else if tag == 1 || tag == 3 {
        10
    } else if tag == 2 {
        14
    } else {
        17
    }
}

/// Padding law: every byte an encoded frame does not use for the variant's
/// fields is zero.
pub proof fn lemma_encode_padding_zero(e: Event)
    ensures
        forall|i: int|
            meaningful_len(spec_encode(e)[0]) <= i < 21 ==> #[trigger] spec_encode(e)[i] == 0,
{
    lemma_auto_spec_u32_to_from_le_bytes();
    lemma_auto_spec_u64_to_from_le_bytes();
    lemma_encode_len(e);
}

/// Tolerance law: decoding reads nothing past a variant's meaningful
/// prefix — two well-formed frames that agree on that prefix decode to the
/// same event, whatever their trailing bytes hold.
pub proof fn lemma_decode_ignores_padding(s1: Seq<u8>, s2: Seq<u8>)
    requires
        frame_valid(s1),
        frame_valid(s2),
        s1.subrange(0, meaningful_len(s1[0])) == s2.subrange(0, meaningful_len(s2[0])),
    ensures
        spec_decode(s1) == spec_decode(s2),
{
    let p = s1.subrange(0, meaningful_len(s1[0]));
    let q = s2.subrange(0, meaningful_len(s2[0]));
    assert(p[0] == s1[0] && q[0] == s2[0]);
    assert(s1[0] == s2[0]);
    let m = meaningful_len(s1[0]);
    assert forall|i: int| 0 <= i < m implies s1[i] == s2[i] by {
        assert(p[i] == s1[i] && q[i] == s2[i]);
    }
    if s1[0] == 0 {
        assert(s1.subrange(1, 5) =~= s2.subrange(1, 5));
        assert(s1.subrange(5, 13) =~= s2.subrange(5, 13));
        assert(s1.subrange(13, 21) =~= s2.subrange(13, 21));
    } else if s1[0] == 1 || s1[0] == 3 {
        assert(s1.subrange(1, 5) =~= s2.subrange(1, 5));
        assert(s1.subrange(5, 9) =~= s2.subrange(5, 9));
    } else if s1[0] == 2 {
        assert(s1.subrange(1, 5) =~= s2.subrange(1, 5));
        assert(s1.subrange(6, 14) =~= s2.subrange(6, 14));
    } else {
        assert(s1.subrange(1, 5) =~= s2.subrange(1, 5));
        assert(s1.subrange(5, 9) =~= s2.subrange(5, 9));
        assert(s1.subrange(9, 13) =~= s2.subrange(9, 13));
        assert(s1.subrange(13, 17) =~= s2.subrange(13, 17));
    }
}

/// Tag rejection law: a buffer whose tag byte is outside the known range is
/// not a well-formed frame, so decoding reports a protocol violation.
pub proof fn lemma_tag_rejection(s: Seq<u8>)
    requires
        s.len() == FRAME_LEN,
        s[0] != 0 && s[0] != 1 && s[0] != 2 && s[0] != 3 && s[0] != 4,
    ensures
        !frame_valid(s),
{
}

/// State rejection law: a button or key frame whose state byte is neither 0
/// nor 1 is not a well-formed frame, so decoding reports a protocol
/// violation.
pub proof fn lemma_state_rejection(s: Seq<u8>)
    requires
        s.len() == FRAME_LEN,
        s[0] == 1 || s[0] == 3,
        s[9] != 0 && s[9] != 1,
    ensures
        !frame_valid(s),
{
}

} // verus!
