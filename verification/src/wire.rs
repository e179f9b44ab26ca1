//! The outbound wire value: the tagged union every encoded parameter is
//! classified into, and its serialization into the protocol's binary
//! format.
//!
//! Every serialized value is a 4-byte big-endian length followed by the
//! payload. A nested sequence value is serialized as its total byte
//! length, the element count, then each element in order, each with its
//! own length prefix.

use vstd::prelude::*;
use vstd::string::StrSliceExecFns;
use vstd::utf8::encode_utf8;
use crate::host::{InetAddr, InetModel};

verus! {

/// A value classified for parameter binding, ready to serialize.
///
/// Floating-point payloads are carried as the bit patterns of their IEEE
/// forms; a UUID as its 128 bits in big-endian byte order. The narrower
/// integer and float kinds exist for callers whose context fixes a
/// narrower wire type; the generic classifier always widens.
#[derive(Debug, PartialEq)]
pub enum PyToValue {
    Text(String),
    BigInt(i64),
    Int(i32),
    SmallInt(i16),
    Bool(bool),
    Double(u64),
    Float(u32),
    Bytes(Vec<u8>),
    Uuid(u128),
    Inet(InetAddr),
    List(Vec<PyToValue>),
}

/// Mathematical model of a wire value.
pub enum WireModel {
    Text(Seq<char>),
    BigInt(i64),
    Int(i32),
    SmallInt(i16),
    Bool(bool),
    Double(u64),
    Float(u32),
    Bytes(Seq<u8>),
    Uuid(u128),
    Inet(InetModel),
    List(Seq<WireModel>),
}

/// The model of each element of a prefix of a sequence of wire values.
pub open spec fn wire_models_prefix(s: Seq<PyToValue>, n: int) -> Seq<WireModel>
    decreases s, n,
        when n <= s.len()
{
    if n <= 0 {
        Seq::empty()
    } else {
        wire_models_prefix(s, n - 1).push(wire_model(s[n - 1]))
    }
}

/// The mathematical model of a wire value.
pub open spec fn wire_model(v: PyToValue) -> WireModel
    decreases v, 0int,
{
    match v {
        PyToValue::Text(s) => WireModel::Text(s@),
        PyToValue::BigInt(i) => WireModel::BigInt(i),
        PyToValue::Int(i) => WireModel::Int(i),
        PyToValue::SmallInt(i) => WireModel::SmallInt(i),
        PyToValue::Bool(b) => WireModel::Bool(b),
        PyToValue::Double(bits) => WireModel::Double(bits),
        PyToValue::Float(bits) => WireModel::Float(bits),
        PyToValue::Bytes(b) => WireModel::Bytes(b@),
        PyToValue::Uuid(u) => WireModel::Uuid(u),
        PyToValue::Inet(a) => WireModel::Inet(a@),
        PyToValue::List(items) => WireModel::List(
            wire_models_prefix(items@, items@.len() as int),
        ),
    }
}

impl View for PyToValue {
    type V = WireModel;

    open spec fn view(&self) -> WireModel {
        wire_model(*self)
    }
}

/// Each element of the modelled prefix is the model of the element.
pub proof fn lemma_wire_models_prefix(s: Seq<PyToValue>, n: int)
    requires
        0 <= n <= s.len(),
    ensures
        wire_models_prefix(s, n).len() == n,
        forall|i: int| 0 <= i < n ==> wire_models_prefix(s, n)[i] == wire_model(s[i]),
    decreases n,
{
    if n > 0 {
        lemma_wire_models_prefix(s, n - 1);
    }
}

/// The 4-byte big-endian rendering of a 32-bit count.
pub open spec fn be32(n: u32) -> Seq<u8> {
    seq![(n >> 24) as u8, (n >> 16) as u8, (n >> 8) as u8, n as u8]
}

/// The 2-byte big-endian rendering of a 16-bit payload.
pub open spec fn be16(n: u16) -> Seq<u8> {
    seq![(n >> 8) as u8, n as u8]
}

/// The 8-byte big-endian rendering of a 64-bit payload.
pub open spec fn be64(n: u64) -> Seq<u8> {
    seq![
        (n >> 56) as u8,
        (n >> 48) as u8,
        (n >> 40) as u8,
        (n >> 32) as u8,
        (n >> 24) as u8,
        (n >> 16) as u8,
        (n >> 8) as u8,
        n as u8,
    ]
}

/// The 16-byte big-endian rendering of 128 bits.
pub open spec fn be128(n: u128) -> Seq<u8> {
    seq![
        (n >> 120) as u8,
        (n >> 112) as u8,
        (n >> 104) as u8,
        (n >> 96) as u8,
        (n >> 88) as u8,
        (n >> 80) as u8,
        (n >> 72) as u8,
        (n >> 64) as u8,
        (n >> 56) as u8,
        (n >> 48) as u8,
        (n >> 40) as u8,
        (n >> 32) as u8,
        (n >> 24) as u8,
        (n >> 16) as u8,
        (n >> 8) as u8,
        n as u8,
    ]
}

/// The largest value a signed 32-bit length slot can carry.
pub open spec fn max_frame_len() -> int {
    0x7fffffff
}

/// Whether a wire value fits the format's signed 32-bit length slots.
pub open spec fn wire_fits(w: WireModel) -> bool
    decreases w, 0int,
{
    match w {
        WireModel::Text(s) => encode_utf8(s).len() <= max_frame_len(),
        WireModel::Bytes(b) => b.len() <= max_frame_len(),
        WireModel::List(ws) => ws.len() <= max_frame_len() && wire_elems_fit(ws, 0)
            && 4 + wire_elems_bytes(ws, 0).len() <= max_frame_len(),
        _ => true,
    }
}

/// Whether every element from position `i` on fits.
pub open spec fn wire_elems_fit(ws: Seq<WireModel>, i: int) -> bool
    decreases ws, ws.len() - i,
        when 0 <= i
{
    if i >= ws.len() {
        true
    } else {
        wire_fits(ws[i]) && wire_elems_fit(ws, i + 1)
    }
}

/// The serialized bytes of a wire value: a 4-byte big-endian length and
/// the payload.
pub open spec fn wire_bytes(w: WireModel) -> Seq<u8>
    decreases w, 1int,
{
    match w {
        WireModel::Text(s) => be32(encode_utf8(s).len() as u32) + encode_utf8(s),
        WireModel::BigInt(i) => be32(8) + be64(i as u64),
        WireModel::Int(i) => be32(4) + be32(i as u32),
        WireModel::SmallInt(i) => be32(2) + be16(i as u16),
        WireModel::Bool(b) => be32(1) + seq![if b { 1u8 } else { 0u8 }],
        WireModel::Double(bits) => be32(8) + be64(bits),
        WireModel::Float(bits) => be32(4) + be32(bits),
        WireModel::Bytes(b) => be32(b.len() as u32) + b,
        WireModel::Uuid(u) => be32(16) + be128(u),
        WireModel::Inet(InetModel::V4(o)) => be32(4) + o,
        WireModel::Inet(InetModel::V6(o)) => be32(16) + o,
        WireModel::List(ws) => {
            let body = wire_elems_bytes(ws, 0);
            be32((4 + body.len()) as u32) + be32(ws.len() as u32) + body
        },
    }
}

/// The concatenated serializations of the elements from position `i`
/// on.
pub open spec fn wire_elems_bytes(ws: Seq<WireModel>, i: int) -> Seq<u8>
    decreases ws, ws.len() - i,
        when 0 <= i
{
    if i >= ws.len() {
        Seq::empty()
    } else {
        wire_bytes(ws[i]) + wire_elems_bytes(ws, i + 1)
    }
}


/// The failure of a value whose serialized form cannot carry its length
/// in a signed 32-bit slot.
#[derive(Clone, Copy, Debug, PartialEq, Eq, Structural)]
pub struct ValueTooBig;

/// Appends the 4-byte big-endian rendering of a 32-bit count.
fn push_be32(buf: &mut Vec<u8>, n: u32)
    ensures
        final(buf)@ == old(buf)@ + be32(n),
{
    buf.push((n >> 24) as u8);
    buf.push((n >> 16) as u8);
    buf.push((n >> 8) as u8);
    buf.push(n as u8);
    proof {
        assert(buf@ =~= old(buf)@ + be32(n));
    }
}

/// Appends the 2-byte big-endian rendering of a 16-bit payload.
fn push_be16(buf: &mut Vec<u8>, n: u16)
    ensures
        final(buf)@ == old(buf)@ + be16(n),
{
    buf.push((n >> 8) as u8);
    buf.push(n as u8);
    proof {
        assert(buf@ =~= old(buf)@ + be16(n));
    }
}

/// Appends the 8-byte big-endian rendering of a 64-bit payload.
fn push_be64(buf: &mut Vec<u8>, n: u64)
    ensures
        final(buf)@ == old(buf)@ + be64(n),
{
    buf.push((n >> 56) as u8);
    buf.push((n >> 48) as u8);
    buf.push((n >> 40) as u8);
    buf.push((n >> 32) as u8);
    buf.push((n >> 24) as u8);
    buf.push((n >> 16) as u8);
    buf.push((n >> 8) as u8);
    buf.push(n as u8);
    proof {
        assert(buf@ =~= old(buf)@ + be64(n));
    }
}

/// Appends the 16-byte big-endian rendering of 128 bits.
fn push_be128(buf: &mut Vec<u8>, n: u128)
    ensures
        final(buf)@ == old(buf)@ + be128(n),
{
    buf.push((n >> 120) as u8);
    buf.push((n >> 112) as u8);
    buf.push((n >> 104) as u8);
    buf.push((n >> 96) as u8);
    buf.push((n >> 88) as u8);
    buf.push((n >> 80) as u8);
    buf.push((n >> 72) as u8);
    buf.push((n >> 64) as u8);
    buf.push((n >> 56) as u8);
    buf.push((n >> 48) as u8);
    buf.push((n >> 40) as u8);
    buf.push((n >> 32) as u8);
    buf.push((n >> 24) as u8);
    buf.push((n >> 16) as u8);
    buf.push((n >> 8) as u8);
    buf.push(n as u8);
    proof {
        assert(buf@ =~= old(buf)@ + be128(n));
    }
}

/// Serializes a wire value into a fresh byte vector: the length prefix
/// and the payload that `wire_bytes` states, exactly; a value whose
/// length cannot be carried is refused whole.
pub fn serialize_value(v: &PyToValue) -> (r: Result<Vec<u8>, ValueTooBig>)
    ensures
        match r {
            Ok(bytes) => wire_fits(v@) && bytes@ == wire_bytes(v@),
            Err(_) => !wire_fits(v@),
        },
    decreases *v, 0int,
{
    let mut out: Vec<u8> = Vec::new();
    match v {
        PyToValue::Text(s) => {
            let mut bytes = s.as_str().as_bytes_vec();
            if bytes.len() > 0x7fffffff {
                return Err(ValueTooBig);
            }
            push_be32(&mut out, bytes.len() as u32);
            out.append(&mut bytes);
            proof {
                assert(out@ =~= wire_bytes(v@));
            }
            Ok(out)
        },
        PyToValue::BigInt(i) => {
            push_be32(&mut out, 8);
            push_be64(&mut out, *i as u64);
            proof {
                assert(out@ =~= wire_bytes(v@));
            }
            Ok(out)
        },
        PyToValue::Int(i) => {
            push_be32(&mut out, 4);
            push_be32(&mut out, *i as u32);
            proof {
                assert(out@ =~= wire_bytes(v@));
            }
            Ok(out)
        },
        PyToValue::SmallInt(i) => {
            push_be32(&mut out, 2);
            push_be16(&mut out, *i as u16);
            proof {
                assert(out@ =~= wire_bytes(v@));
            }
            Ok(out)
        },
        PyToValue::Bool(b) => {
            push_be32(&mut out, 1);
            if *b {
                out.push(1);
            } else {
                out.push(0);
            }
            proof {
                assert(out@ =~= wire_bytes(v@));
            }
            Ok(out)
        },
        PyToValue::Double(bits) => {
            push_be32(&mut out, 8);
            push_be64(&mut out, *bits);
            proof {
                assert(out@ =~= wire_bytes(v@));
            }
            Ok(out)
        },
        PyToValue::Float(bits) => {
            push_be32(&mut out, 4);
            push_be32(&mut out, *bits);
            proof {
                assert(out@ =~= wire_bytes(v@));
            }
            Ok(out)
        },
        PyToValue::Bytes(b) => {
            if b.len() > 0x7fffffff {
                return Err(ValueTooBig);
            }
            let mut payload = b.clone();
            proof {
                assert(payload@ =~= b@);
            }
            push_be32(&mut out, payload.len() as u32);
            out.append(&mut payload);
            proof {
                assert(out@ =~= wire_bytes(v@));
            }
            Ok(out)
        },
        PyToValue::Uuid(u) => {
            push_be32(&mut out, 16);
            push_be128(&mut out, *u);
            proof {
                assert(out@ =~= wire_bytes(v@));
            }
            Ok(out)
        },
        PyToValue::Inet(a) => {
            match a {
                InetAddr::V4(o) => {
                    push_be32(&mut out, 4);
                    let mut j: usize = 0;
                    while j < 4
                        invariant
                            j <= 4,
                            out@ =~= be32(4) + o@.subrange(0, j as int),
                        decreases 4 - j,
                    {
                        out.push(o[j]);
                        proof {
                            assert(o@.subrange(0, j + 1 as int) =~= o@.subrange(0, j as int)
                                + seq![o@[j as int]]);
                        }
                        j = j + 1;
                    }
                    proof {
                        assert(o@.subrange(0, 4) =~= o@);
                        assert(out@ =~= wire_bytes(v@));
                    }
                },
                InetAddr::V6(o) => {
                    push_be32(&mut out, 16);
                    let mut j: usize = 0;
                    while j < 16
                        invariant
                            j <= 16,
                            out@ =~= be32(16) + o@.subrange(0, j as int),
                        decreases 16 - j,
                    {
                        out.push(o[j]);
                        proof {
                            assert(o@.subrange(0, j + 1 as int) =~= o@.subrange(0, j as int)
                                + seq![o@[j as int]]);
                        }
                        j = j + 1;
                    }
                    proof {
                        assert(o@.subrange(0, 16) =~= o@);
                        assert(out@ =~= wire_bytes(v@));
                    }
                },
            }
            Ok(out)
        },
        PyToValue::List(items) => {
            let ghost ms = wire_models_prefix(items@, items@.len() as int);
            proof {
                lemma_wire_models_prefix(items@, items@.len() as int);
            }
            let mut body: Vec<u8> = Vec::new();
            let mut i: usize = 0;
            while i < items.len()
                invariant
                    i <= items@.len(),
                    ms == wire_models_prefix(items@, items@.len() as int),
                    ms.len() == items@.len(),
                    forall|j: int| 0 <= j < ms.len() ==> ms[j] == wire_model(items@[j]),
                    *v is List,
                    v->List_0@ == items@,
                    v@ == WireModel::List(ms),
                    wire_elems_fit(ms, 0) == wire_elems_fit(ms, i as int),
                    wire_elems_bytes(ms, 0) =~= body@ + wire_elems_bytes(ms, i as int),
                decreases items@.len() - i,
            {
                match serialize_value(&items[i]) {
                    Ok(mut piece) => {
                        proof {
                            assert(wire_elems_bytes(ms, i as int) == wire_bytes(ms[i as int])
                                + wire_elems_bytes(ms, i + 1));
                        }
                        body.append(&mut piece);
                    },
                    Err(e) => {
                        proof {
                            assert(!wire_elems_fit(ms, i as int));
                        }
                        return Err(e);
                    },
                }
                i = i + 1;
            }
            proof {
                assert(wire_elems_bytes(ms, 0) =~= body@);
            }
            if items.len() > 0x7fffffff {
                return Err(ValueTooBig);
            }
            if body.len() > 0x7fffffff - 4 {
                return Err(ValueTooBig);
            }
            push_be32(&mut out, (4 + body.len()) as u32);
            push_be32(&mut out, items.len() as u32);
            out.append(&mut body);
            proof {
                assert(out@ =~= wire_bytes(v@));
            }
            Ok(out)
        },
    }
}

impl PyToValue {
    /// Serializes this wire value onto the end of a buffer, as the
    /// protocol's parameter binding does: the buffer grows by exactly
    /// the value's serialized form, or is left as it was when the value
    /// is refused.
    pub fn serialize(&self, buf: &mut Vec<u8>) -> (r: Result<(), ValueTooBig>)
        ensures
            match r {
                Ok(_) => wire_fits(self@) && final(buf)@ == old(buf)@ + wire_bytes(self@),
                Err(_) => !wire_fits(self@) && final(buf)@ == old(buf)@,
            },
    {
        match serialize_value(self) {
            Ok(mut bytes) => {
                buf.append(&mut bytes);
                Ok(())
            },
            Err(e) => Err(e),
        }
    }
}

} // verus!

