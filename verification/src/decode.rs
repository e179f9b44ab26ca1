//! The inbound value decoder: given a protocol-declared column type
//! descriptor and an optional decoded protocol value, reconstruct the
//! corresponding dynamic host value.
//!
//! An absent protocol value decodes to the host "no value" marker before
//! any type dispatch. Otherwise the dispatch on the descriptor is
//! exhaustive: a value whose internal tag disagrees with the descriptor
//! is an error, never a silent null, and descriptor kinds with no host
//! representation are rejected by name.

use vstd::prelude::*;
use crate::cql::{ColumnType, CqlValue};
use crate::host::{
    host_entry_models_prefix, host_model, host_models_prefix, lemma_host_entry_models_prefix,
    lemma_host_models_prefix, HostModel, HostValue,
};
use crate::text::{format_iso_date, iso_date, uuid_simple, uuid_simple_string};

verus! {

/// The descriptor kind named by an error.
#[derive(Clone, Copy, Debug, PartialEq, Eq, Structural)]
pub enum TypeKind {
    Ascii,
    Boolean,
    Blob,
    Double,
    Float,
    Int,
    BigInt,
    Text,
    SmallInt,
    TinyInt,
    Uuid,
    Timeuuid,
    Duration,
    Timestamp,
    Inet,
    Date,
    List,
    SetOf,
    MapOf,
    Tuple,
    Time,
    Counter,
    Custom,
    Varint,
    Decimal,
    UserDefined,
}

/// Why a decode failed.
#[derive(Clone, Copy, Debug, PartialEq, Eq, Structural)]
pub enum DecodeError {
    /// The protocol value's internal tag disagrees with the declared
    /// descriptor, which expected the named kind.
    Mismatch { expected: TypeKind },
    /// The declared kind has no host representation; never guessed at.
    NotSupported { kind: TypeKind },
    /// The underlying value of a tuple descriptor is not tuple-shaped,
    /// or its arity disagrees with the descriptor's.
    TupleShape,
}

/// The kind of a descriptor.
pub open spec fn kind_of(t: ColumnType) -> TypeKind {
    match t {
        ColumnType::Ascii => TypeKind::Ascii,
        ColumnType::Boolean => TypeKind::Boolean,
        ColumnType::Blob => TypeKind::Blob,
        ColumnType::Double => TypeKind::Double,
        ColumnType::Float => TypeKind::Float,
        ColumnType::Int => TypeKind::Int,
        ColumnType::BigInt => TypeKind::BigInt,
        ColumnType::Text => TypeKind::Text,
        ColumnType::SmallInt => TypeKind::SmallInt,
        ColumnType::TinyInt => TypeKind::TinyInt,
        ColumnType::Uuid => TypeKind::Uuid,
        ColumnType::Timeuuid => TypeKind::Timeuuid,
        ColumnType::Duration => TypeKind::Duration,
        ColumnType::Timestamp => TypeKind::Timestamp,
        ColumnType::Inet => TypeKind::Inet,
        ColumnType::Date => TypeKind::Date,
        ColumnType::List(_) => TypeKind::List,
        ColumnType::SetOf(_) => TypeKind::SetOf,
        ColumnType::MapOf(_, _) => TypeKind::MapOf,
        ColumnType::Tuple(_) => TypeKind::Tuple,
        ColumnType::Time => TypeKind::Time,
        ColumnType::Counter => TypeKind::Counter,
        ColumnType::Custom(_) => TypeKind::Custom,
        ColumnType::Varint => TypeKind::Varint,
        ColumnType::Decimal => TypeKind::Decimal,
        ColumnType::UserDefined { .. } => TypeKind::UserDefined,
    }
}

/// Division truncating toward zero, as a host time-delta conversion
/// truncates: sub-microsecond precision is discarded, never rounded
/// away from zero.
pub open spec fn div_trunc(a: int, b: int) -> int {
    if a >= 0 {
        a / b
    } else {
        -((-a) / b)
    }
}

/// What one present protocol value decodes to under a descriptor.
pub open spec fn decode_model(t: ColumnType, v: CqlValue) -> Result<HostModel, DecodeError>
    decreases t, v, 0int,
{
    match t {
        ColumnType::Ascii => match v {
            CqlValue::Ascii(s) => Ok(HostModel::Str(s@)),
            _ => Err(DecodeError::Mismatch { expected: TypeKind::Ascii }),
        },
        ColumnType::Boolean => match v {
            CqlValue::Boolean(b) => Ok(HostModel::Bool(b)),
            _ => Err(DecodeError::Mismatch { expected: TypeKind::Boolean }),
        },
        ColumnType::Blob => match v {
            CqlValue::Blob(b) => Ok(HostModel::Bytes(b@)),
            _ => Err(DecodeError::Mismatch { expected: TypeKind::Blob }),
        },
        ColumnType::Double => match v {
            CqlValue::Double(bits) => Ok(HostModel::Float(bits)),
            _ => Err(DecodeError::Mismatch { expected: TypeKind::Double }),
        },
        // A float column is read through the double accessor: a
        // single-precision protocol value is reported as a mismatch
        // rather than silently widened here.
        ColumnType::Float => match v {
            CqlValue::Double(bits) => Ok(HostModel::Float(bits)),
            _ => Err(DecodeError::Mismatch { expected: TypeKind::Double }),
        },
        ColumnType::Int => match v {
            CqlValue::Int(i) => Ok(HostModel::Int(i as int)),
            _ => Err(DecodeError::Mismatch { expected: TypeKind::Int }),
        },
        ColumnType::BigInt => match v {
            CqlValue::BigInt(i) => Ok(HostModel::Int(i as int)),
            _ => Err(DecodeError::Mismatch { expected: TypeKind::BigInt }),
        },
        ColumnType::Text => match v {
            CqlValue::Text(s) => Ok(HostModel::Str(s@)),
            _ => Err(DecodeError::Mismatch { expected: TypeKind::Text }),
        },
        ColumnType::SmallInt => match v {
            CqlValue::SmallInt(i) => Ok(HostModel::Int(i as int)),
            _ => Err(DecodeError::Mismatch { expected: TypeKind::SmallInt }),
        },
        ColumnType::TinyInt => match v {
            CqlValue::TinyInt(i) => Ok(HostModel::Int(i as int)),
            _ => Err(DecodeError::Mismatch { expected: TypeKind::TinyInt }),
        },
        ColumnType::Uuid => match v {
            CqlValue::Uuid(u) => Ok(HostModel::Uuid(uuid_simple(u))),
            _ => Err(DecodeError::Mismatch { expected: TypeKind::Uuid }),
        },
        ColumnType::Timeuuid => match v {
            CqlValue::Timeuuid(u) => Ok(HostModel::Uuid(uuid_simple(u))),
            _ => Err(DecodeError::Mismatch { expected: TypeKind::Timeuuid }),
        },
        ColumnType::Duration => match v {
            CqlValue::Duration(ns) => Ok(
                HostModel::Duration(div_trunc(ns as int, 1000)),
            ),
            _ => Err(DecodeError::Mismatch { expected: TypeKind::Duration }),
        },
        ColumnType::Timestamp => match v {
            CqlValue::Timestamp(ms) => Ok(HostModel::Int(ms as int)),
            _ => Err(DecodeError::Mismatch { expected: TypeKind::Timestamp }),
        },
        ColumnType::Inet => match v {
            CqlValue::Inet(a) => Ok(HostModel::Inet(a@)),
            _ => Err(DecodeError::Mismatch { expected: TypeKind::Inet }),
        },
        ColumnType::Date => match v {
            CqlValue::Date(d) => Ok(HostModel::Date(iso_date(d))),
            _ => Err(DecodeError::Mismatch { expected: TypeKind::Date }),
        },
        ColumnType::List(te) => match v {
            CqlValue::List(vs) => match decode_elems_model(*te, vs@, 0) {
                Ok(ms) => Ok(HostModel::List(ms)),
                Err(e) => Err(e),
            },
            _ => Err(DecodeError::Mismatch { expected: TypeKind::List }),
        },
        ColumnType::SetOf(te) => match v {
            CqlValue::SetOf(vs) => match decode_elems_model(*te, vs@, 0) {
                Ok(ms) => Ok(HostModel::SetOf(ms)),
                Err(e) => Err(e),
            },
            _ => Err(DecodeError::Mismatch { expected: TypeKind::SetOf }),
        },
        ColumnType::MapOf(kt, vt) => match v {
            CqlValue::MapOf(ps) => match decode_pairs_model(
                ColumnType::MapOf(kt, vt),
                ps@,
                0,
            ) {
                Ok(ms) => Ok(HostModel::Dict(ms)),
                Err(e) => Err(e),
            },
            _ => Err(DecodeError::Mismatch { expected: TypeKind::MapOf }),
        },
        ColumnType::Tuple(ts) => match v {
            CqlValue::Tuple(data) => if data@.len() != ts@.len() {
                Err(DecodeError::TupleShape)
            } else {
                match decode_tuple_model(ColumnType::Tuple(ts), data@, 0) {
                    Ok(ms) => Ok(HostModel::Tuple(ms)),
                    Err(e) => Err(e),
                }
            },
            _ => Err(DecodeError::TupleShape),
        },
        ColumnType::Time => Err(DecodeError::NotSupported { kind: TypeKind::Time }),
        ColumnType::Counter => Err(DecodeError::NotSupported { kind: TypeKind::Counter }),
        ColumnType::Custom(_) => Err(DecodeError::NotSupported { kind: TypeKind::Custom }),
        ColumnType::Varint => Err(DecodeError::NotSupported { kind: TypeKind::Varint }),
        ColumnType::Decimal => Err(DecodeError::NotSupported { kind: TypeKind::Decimal }),
        ColumnType::UserDefined { .. } => Err(
            DecodeError::NotSupported { kind: TypeKind::UserDefined },
        ),
    }
}

/// What an optional protocol value decodes to: an absent value is the
/// host "no value" marker, whatever the descriptor.
pub open spec fn decode_opt_model(t: ColumnType, v: Option<CqlValue>) -> Result<
    HostModel,
    DecodeError,
>
    decreases t, v, 1int,
{
    match v {
        Option::None => Ok(HostModel::Absent),
        Option::Some(v) => decode_model(t, v),
    }
}

/// What the elements of a list or set value from position `i` on decode
/// to against the element descriptor `te`: every element against `te`,
/// in order, failing fast.
pub open spec fn decode_elems_model(te: ColumnType, vs: Seq<CqlValue>, i: int) -> Result<
    Seq<HostModel>,
    DecodeError,
>
    decreases te, vs, vs.len() - i,
        when 0 <= i
{
    if i >= vs.len() {
        Ok(Seq::empty())
    } else {
        match decode_model(te, vs[i]) {
            Err(e) => Err(e),
            Ok(m) => match decode_elems_model(te, vs, i + 1) {
                Err(e) => Err(e),
                Ok(rest) => Ok(seq![m] + rest),
            },
        }
    }
}

/// What the entries of a map value from position `i` on decode to
/// against a map descriptor: each key against the key descriptor, each
/// value against the value descriptor, in order, failing fast.
pub open spec fn decode_pairs_model(mt: ColumnType, ps: Seq<(CqlValue, CqlValue)>, i: int) -> Result<
    Seq<(HostModel, HostModel)>,
    DecodeError,
>
    decreases mt, ps, ps.len() - i,
        when 0 <= i && mt is MapOf
{
    match mt {
        ColumnType::MapOf(kt, vt) => if i >= ps.len() {
            Ok(Seq::empty())
        } else {
            match decode_model(*kt, ps[i].0) {
                Err(e) => Err(e),
                Ok(k) => match decode_model(*vt, ps[i].1) {
                    Err(e) => Err(e),
                    Ok(w) => match decode_pairs_model(mt, ps, i + 1) {
                        Err(e) => Err(e),
                        Ok(rest) => Ok(seq![(k, w)] + rest),
                    },
                },
            }
        },
        _ => Err(DecodeError::TupleShape),
    }
}

/// What the positions of a tuple value from `i` on decode to against a
/// tuple descriptor: each position against the child descriptor of the
/// same rank, an absent position as the "no value" marker.
pub open spec fn decode_tuple_model(tt: ColumnType, vs: Seq<Option<CqlValue>>, i: int) -> Result<
    Seq<HostModel>,
    DecodeError,
>
    decreases tt, vs, vs.len() - i,
        when 0 <= i && (tt matches ColumnType::Tuple(ts) && vs.len() == ts@.len())
{
    match tt {
        ColumnType::Tuple(ts) => if i >= vs.len() {
            Ok(Seq::empty())
        } else {
            match decode_opt_model(ts@[i], vs[i]) {
                Err(e) => Err(e),
                Ok(m) => match decode_tuple_model(tt, vs, i + 1) {
                    Err(e) => Err(e),
                    Ok(rest) => Ok(seq![m] + rest),
                },
            }
        },
        _ => Err(DecodeError::TupleShape),
    }
}


/// The decoded models of the first `i` elements, when they all decode.
pub open spec fn elem_models(te: ColumnType, vs: Seq<CqlValue>, i: int) -> Seq<HostModel> {
    Seq::new(i as nat, |j: int| decode_model(te, vs[j])->Ok_0)
}

/// Composing a decoded prefix with the decode of the rest: when the
/// first `i` elements decode, the whole sequence decodes to the prefix
/// models followed by whatever the rest decodes to, or fails exactly as
/// the rest fails.
pub proof fn lemma_decode_elems_prefix(te: ColumnType, vs: Seq<CqlValue>, i: int)
    requires
        0 <= i <= vs.len(),
        forall|j: int| 0 <= j < i ==> decode_model(te, vs[j]) is Ok,
    ensures
        decode_elems_model(te, vs, 0) == (match decode_elems_model(te, vs, i) {
            Ok(rest) => Ok::<Seq<HostModel>, DecodeError>(elem_models(te, vs, i) + rest),
            Err(e) => Err(e),
        }),
    decreases i,
{
    if i == 0 {
        match decode_elems_model(te, vs, 0) {
            Ok(rest) => {
                assert(elem_models(te, vs, 0) + rest =~= rest);
            },
            Err(_) => {},
        }
    } else {
        lemma_decode_elems_prefix(te, vs, i - 1);
        let m = decode_model(te, vs[i - 1])->Ok_0;
        match decode_elems_model(te, vs, i) {
            Ok(rest) => {
                assert(decode_elems_model(te, vs, i - 1) == Ok::<Seq<HostModel>, DecodeError>(
                    seq![m] + rest,
                ));
                assert(elem_models(te, vs, i - 1) + (seq![m] + rest) =~= elem_models(te, vs, i)
                    + rest);
            },
            Err(e) => {
                assert(decode_elems_model(te, vs, i - 1) == Err::<Seq<HostModel>, DecodeError>(
                    e,
                ));
            },
        }
    }
}

/// The decoded entry models of the first `i` entries, when they all
/// decode.
pub open spec fn pair_models(mt: ColumnType, ps: Seq<(CqlValue, CqlValue)>, i: int) -> Seq<
    (HostModel, HostModel),
> {
    Seq::new(
        i as nat,
        |j: int|
            (
                decode_model(*mt->MapOf_0, ps[j].0)->Ok_0,
                decode_model(*mt->MapOf_1, ps[j].1)->Ok_0,
            ),
    )
}

/// Composing decoded map entries, as for list elements.
pub proof fn lemma_decode_pairs_prefix(mt: ColumnType, ps: Seq<(CqlValue, CqlValue)>, i: int)
    requires
        0 <= i <= ps.len(),
        mt is MapOf,
        forall|j: int|
            0 <= j < i ==> decode_model(*mt->MapOf_0, ps[j].0) is Ok && decode_model(
                *mt->MapOf_1,
                ps[j].1,
            ) is Ok,
    ensures
        decode_pairs_model(mt, ps, 0) == (match decode_pairs_model(mt, ps, i) {
            Ok(rest) => Ok::<Seq<(HostModel, HostModel)>, DecodeError>(
                pair_models(mt, ps, i) + rest,
            ),
            Err(e) => Err(e),
        }),
    decreases i,
{
    if i == 0 {
        match decode_pairs_model(mt, ps, 0) {
            Ok(rest) => {
                assert(pair_models(mt, ps, 0) + rest =~= rest);
            },
            Err(_) => {},
        }
    } else {
        lemma_decode_pairs_prefix(mt, ps, i - 1);
        let k = decode_model(*mt->MapOf_0, ps[i - 1].0)->Ok_0;
        let w = decode_model(*mt->MapOf_1, ps[i - 1].1)->Ok_0;
        match decode_pairs_model(mt, ps, i) {
            Ok(rest) => {
                assert(decode_pairs_model(mt, ps, i - 1) == Ok::<
                    Seq<(HostModel, HostModel)>,
                    DecodeError,
                >(seq![(k, w)] + rest));
                assert(pair_models(mt, ps, i - 1) + (seq![(k, w)] + rest) =~= pair_models(
                    mt,
                    ps,
                    i,
                ) + rest);
            },
            Err(e) => {
                assert(decode_pairs_model(mt, ps, i - 1) == Err::<
                    Seq<(HostModel, HostModel)>,
                    DecodeError,
                >(e));
            },
        }
    }
}

/// The decoded models of the first `i` tuple positions, when they all
/// decode.
pub open spec fn tuple_models(tt: ColumnType, vs: Seq<Option<CqlValue>>, i: int) -> Seq<
    HostModel,
> {
    Seq::new(i as nat, |j: int| decode_opt_model(tt->Tuple_0@[j], vs[j])->Ok_0)
}

/// Composing decoded tuple positions, as for list elements.
pub proof fn lemma_decode_tuple_prefix(tt: ColumnType, vs: Seq<Option<CqlValue>>, i: int)
    requires
        0 <= i <= vs.len(),
        tt is Tuple,
        vs.len() == tt->Tuple_0@.len(),
        forall|j: int| 0 <= j < i ==> decode_opt_model(tt->Tuple_0@[j], vs[j]) is Ok,
    ensures
        decode_tuple_model(tt, vs, 0) == (match decode_tuple_model(tt, vs, i) {
            Ok(rest) => Ok::<Seq<HostModel>, DecodeError>(tuple_models(tt, vs, i) + rest),
            Err(e) => Err(e),
        }),
    decreases i,
{
    if i == 0 {
        match decode_tuple_model(tt, vs, 0) {
            Ok(rest) => {
                assert(tuple_models(tt, vs, 0) + rest =~= rest);
            },
            Err(_) => {},
        }
    } else {
        lemma_decode_tuple_prefix(tt, vs, i - 1);
        let m = decode_opt_model(tt->Tuple_0@[i - 1], vs[i - 1])->Ok_0;
        match decode_tuple_model(tt, vs, i) {
            Ok(rest) => {
                assert(decode_tuple_model(tt, vs, i - 1) == Ok::<Seq<HostModel>, DecodeError>(
                    seq![m] + rest,
                ));
                assert(tuple_models(tt, vs, i - 1) + (seq![m] + rest) =~= tuple_models(
                    tt,
                    vs,
                    i,
                ) + rest);
            },
            Err(e) => {
                assert(decode_tuple_model(tt, vs, i - 1) == Err::<Seq<HostModel>, DecodeError>(
                    e,
                ));
            },
        }
    }
}


/// The protocol value behind an optional reference, as the decoder's
/// specification sees it.
pub open spec fn deref_opt(v: Option<&CqlValue>) -> Option<CqlValue> {
    match v {
        Option::None => Option::None,
        Option::Some(x) => Option::Some(*x),
    }
}

/// Decodes one present protocol value against its declared descriptor.
///
/// The result is exactly what `decode_model` states, for every
/// descriptor and value: the reconstructed host value on success, and
/// the mismatch, unsupported-kind or tuple-shape error otherwise.
pub fn decode_present(t: &ColumnType, v: &CqlValue) -> (r: Result<HostValue, DecodeError>)
    ensures
        match r {
            Ok(h) => decode_model(*t, *v) == Ok::<HostModel, DecodeError>(h@),
            Err(e) => decode_model(*t, *v) == Err::<HostModel, DecodeError>(e),
        },
    decreases *t, 0int,
{
    match t {
        ColumnType::Ascii => match v {
            CqlValue::Ascii(s) => Ok(HostValue::Str(s.clone())),
            _ => Err(DecodeError::Mismatch { expected: TypeKind::Ascii }),
        },
        ColumnType::Boolean => match v {
            CqlValue::Boolean(b) => Ok(HostValue::Bool(*b)),
            _ => Err(DecodeError::Mismatch { expected: TypeKind::Boolean }),
        },
        ColumnType::Blob => match v {
            CqlValue::Blob(b) => {
                let copy = b.clone();
                proof {
                    assert(copy@ =~= b@);
                }
                Ok(HostValue::Bytes(copy))
            },
            _ => Err(DecodeError::Mismatch { expected: TypeKind::Blob }),
        },
        ColumnType::Double => match v {
            CqlValue::Double(bits) => Ok(HostValue::Float(*bits)),
            _ => Err(DecodeError::Mismatch { expected: TypeKind::Double }),
        },
        ColumnType::Float => match v {
            CqlValue::Double(bits) => Ok(HostValue::Float(*bits)),
            _ => Err(DecodeError::Mismatch { expected: TypeKind::Double }),
        },
        ColumnType::Int => match v {
            CqlValue::Int(i) => Ok(HostValue::Int(*i as i64)),
            _ => Err(DecodeError::Mismatch { expected: TypeKind::Int }),
        },
        ColumnType::BigInt => match v {
            CqlValue::BigInt(i) => Ok(HostValue::Int(*i)),
            _ => Err(DecodeError::Mismatch { expected: TypeKind::BigInt }),
        },
        ColumnType::Text => match v {
            CqlValue::Text(s) => Ok(HostValue::Str(s.clone())),
            _ => Err(DecodeError::Mismatch { expected: TypeKind::Text }),
        },
        ColumnType::SmallInt => match v {
            CqlValue::SmallInt(i) => Ok(HostValue::Int(*i as i64)),
            _ => Err(DecodeError::Mismatch { expected: TypeKind::SmallInt }),
        },
        ColumnType::TinyInt => match v {
            CqlValue::TinyInt(i) => Ok(HostValue::Int(*i as i64)),
            _ => Err(DecodeError::Mismatch { expected: TypeKind::TinyInt }),
        },
        ColumnType::Uuid => match v {
            CqlValue::Uuid(u) => Ok(HostValue::Uuid(uuid_simple_string(*u))),
            _ => Err(DecodeError::Mismatch { expected: TypeKind::Uuid }),
        },
        ColumnType::Timeuuid => match v {
            CqlValue::Timeuuid(u) => Ok(HostValue::Uuid(uuid_simple_string(*u))),
            _ => Err(DecodeError::Mismatch { expected: TypeKind::Timeuuid }),
        },
        ColumnType::Duration => match v {
            CqlValue::Duration(ns) => {
                let ns_val: i64 = *ns;
                let micros: i64 = if ns_val >= 0 {
                    ((ns_val as u64) / 1000) as i64
                } else {
                    let mag: u64 = if ns_val == i64::MIN {
                        9223372036854775808u64
                    } else {
                        (-ns_val) as u64
                    };
                    -((mag / 1000) as i64)
                };
                proof {
                    assert(micros as int == div_trunc(ns_val as int, 1000));
                }
                Ok(HostValue::Duration(micros))
            },
            _ => Err(DecodeError::Mismatch { expected: TypeKind::Duration }),
        },
        ColumnType::Timestamp => match v {
            CqlValue::Timestamp(ms) => Ok(HostValue::Int(*ms)),
            _ => Err(DecodeError::Mismatch { expected: TypeKind::Timestamp }),
        },
        ColumnType::Inet => match v {
            CqlValue::Inet(a) => Ok(HostValue::Inet(*a)),
            _ => Err(DecodeError::Mismatch { expected: TypeKind::Inet }),
        },
        ColumnType::Date => match v {
            CqlValue::Date(d) => Ok(HostValue::Date(format_iso_date(*d))),
            _ => Err(DecodeError::Mismatch { expected: TypeKind::Date }),
        },
        ColumnType::List(te) => match v {
            CqlValue::List(vs) => match decode_elem_vec(te, vs) {
                Ok(items) => Ok(HostValue::List(items)),
                Err(e) => Err(e),
            },
            _ => Err(DecodeError::Mismatch { expected: TypeKind::List }),
        },
        ColumnType::SetOf(te) => match v {
            CqlValue::SetOf(vs) => match decode_elem_vec(te, vs) {
                Ok(items) => Ok(HostValue::SetOf(items)),
                Err(e) => Err(e),
            },
            _ => Err(DecodeError::Mismatch { expected: TypeKind::SetOf }),
        },
        ColumnType::MapOf(kt, vt) => match v {
            CqlValue::MapOf(ps) => {
                let mut out: Vec<(HostValue, HostValue)> = Vec::new();
                let mut i: usize = 0;
                let ghost mt = ColumnType::MapOf(*kt, *vt);
                while i < ps.len()
                    invariant
                        i <= ps@.len(),
                        out@.len() == i,
                        mt == *t,
                        t is MapOf,
                        *t->MapOf_0 == *kt,
                        *t->MapOf_1 == *vt,
                        *v is MapOf,
                        v->MapOf_0@ == ps@,
                        forall|j: int|
                            0 <= j < i ==> (#[trigger] decode_model(*mt->MapOf_0, ps@[j].0))
                                == Ok::<HostModel, DecodeError>(host_model(out@[j].0)),
                        forall|j: int|
                            0 <= j < i ==> (#[trigger] decode_model(*mt->MapOf_1, ps@[j].1))
                                == Ok::<HostModel, DecodeError>(host_model(out@[j].1)),
                    decreases ps@.len() - i,
                {
                    let k = match decode_present(kt, &ps[i].0) {
                        Ok(k) => k,
                        Err(e) => {
                            proof {
                                lemma_decode_pairs_prefix(mt, ps@, i as int);
                            }
                            return Err(e);
                        },
                    };
                    let w = match decode_present(vt, &ps[i].1) {
                        Ok(w) => w,
                        Err(e) => {
                            proof {
                                lemma_decode_pairs_prefix(mt, ps@, i as int);
                            }
                            return Err(e);
                        },
                    };
                    out.push((k, w));
                    i = i + 1;
                }
                proof {
                    lemma_decode_pairs_prefix(mt, ps@, ps@.len() as int);
                    lemma_host_entry_models_prefix(out@, out@.len() as int);
                    assert(pair_models(mt, ps@, ps@.len() as int) =~= host_entry_models_prefix(
                        out@,
                        out@.len() as int,
                    ));
                    assert(pair_models(mt, ps@, ps@.len() as int) + Seq::<
                        (HostModel, HostModel),
                    >::empty() =~= pair_models(mt, ps@, ps@.len() as int));
                }
                Ok(HostValue::Dict(out))
            },
            _ => Err(DecodeError::Mismatch { expected: TypeKind::MapOf }),
        },
        ColumnType::Tuple(ts) => match v {
            CqlValue::Tuple(data) => {
                if data.len() != ts.len() {
                    return Err(DecodeError::TupleShape);
                }
                let mut out: Vec<HostValue> = Vec::new();
                let mut i: usize = 0;
                let ghost tt = *t;
                while i < data.len()
                    invariant
                        i <= data@.len(),
                        out@.len() == i,
                        tt == *t,
                        t is Tuple,
                        tt->Tuple_0@ == ts@,
                        *v is Tuple,
                        v->Tuple_0@ == data@,
                        data@.len() == ts@.len(),
                        forall|j: int|
                            0 <= j < i ==> (#[trigger] decode_opt_model(ts@[j], data@[j])) == Ok::<
                                HostModel,
                                DecodeError,
                            >(host_model(out@[j])),
                    decreases data@.len() - i,
                {
                    let hv = match &data[i] {
                        Option::None => HostValue::Absent,
                        Option::Some(cv) => match decode_present(&ts[i], cv) {
                            Ok(h) => h,
                            Err(e) => {
                                proof {
                                    lemma_decode_tuple_prefix(tt, data@, i as int);
                                    assert(data@[i as int] == Option::Some(*cv));
                                    assert(decode_opt_model(ts@[i as int], data@[i as int])
                                        == Err::<HostModel, DecodeError>(e));
                                    assert(decode_tuple_model(tt, data@, i as int) == Err::<
                                        Seq<HostModel>,
                                        DecodeError,
                                    >(e));
                                    assert(decode_tuple_model(tt, data@, 0) == Err::<
                                        Seq<HostModel>,
                                        DecodeError,
                                    >(e));
                                    assert(decode_model(*t, *v) == Err::<HostModel, DecodeError>(
                                        e,
                                    ));
                                }
                                return Err(e);
                            },
                        },
                    };
                    out.push(hv);
                    i = i + 1;
                }
                proof {
                    lemma_decode_tuple_prefix(tt, data@, data@.len() as int);
                    lemma_host_models_prefix(out@, out@.len() as int);
                    assert(tuple_models(tt, data@, data@.len() as int) =~= host_models_prefix(
                        out@,
                        out@.len() as int,
                    ));
                    assert(tuple_models(tt, data@, data@.len() as int) + Seq::<
                        HostModel,
                    >::empty() =~= tuple_models(tt, data@, data@.len() as int));
                }
                Ok(HostValue::Tuple(out))
            },
            _ => Err(DecodeError::TupleShape),
        },
        ColumnType::Time => Err(DecodeError::NotSupported { kind: TypeKind::Time }),
        ColumnType::Counter => Err(DecodeError::NotSupported { kind: TypeKind::Counter }),
        ColumnType::Custom(_) => Err(DecodeError::NotSupported { kind: TypeKind::Custom }),
        ColumnType::Varint => Err(DecodeError::NotSupported { kind: TypeKind::Varint }),
        ColumnType::Decimal => Err(DecodeError::NotSupported { kind: TypeKind::Decimal }),
        ColumnType::UserDefined { .. } => Err(
            DecodeError::NotSupported { kind: TypeKind::UserDefined },
        ),
    }
}

/// Decodes every element of a list or set value against the element
/// descriptor, in order, failing fast.
fn decode_elem_vec(te: &ColumnType, vs: &Vec<CqlValue>) -> (r: Result<Vec<HostValue>, DecodeError>)
    ensures
        match r {
            Ok(items) => decode_elems_model(*te, vs@, 0) == Ok::<Seq<HostModel>, DecodeError>(
                host_models_prefix(items@, items@.len() as int),
            ) && items@.len() == vs@.len(),
            Err(e) => decode_elems_model(*te, vs@, 0) == Err::<Seq<HostModel>, DecodeError>(e),
        },
    decreases *te, 1int,
{
    let mut out: Vec<HostValue> = Vec::new();
    let mut i: usize = 0;
    while i < vs.len()
        invariant
            i <= vs@.len(),
            out@.len() == i,
            forall|j: int|
                0 <= j < i ==> (#[trigger] decode_model(*te, vs@[j])) == Ok::<
                    HostModel,
                    DecodeError,
                >(host_model(out@[j])),
        decreases vs@.len() - i,
    {
        match decode_present(te, &vs[i]) {
            Ok(h) => {
                out.push(h);
            },
            Err(e) => {
                proof {
                    lemma_decode_elems_prefix(*te, vs@, i as int);
                }
                return Err(e);
            },
        }
        i = i + 1;
    }
    proof {
        lemma_decode_elems_prefix(*te, vs@, vs@.len() as int);
        lemma_host_models_prefix(out@, out@.len() as int);
        assert(elem_models(*te, vs@, vs@.len() as int) =~= host_models_prefix(
            out@,
            out@.len() as int,
        ));
        assert(elem_models(*te, vs@, vs@.len() as int) + Seq::<HostModel>::empty()
            =~= elem_models(*te, vs@, vs@.len() as int));
    }
    Ok(out)
}

/// Decodes one result column: an absent protocol value is the host
/// "no value" marker whatever the descriptor; a present one decodes as
/// `decode_model` states, exactly.
pub fn cql_to_py(cql_type: &ColumnType, cql_value: Option<&CqlValue>) -> (r: Result<
    HostValue,
    DecodeError,
>)
    ensures
        match r {
            Ok(h) => decode_opt_model(*cql_type, deref_opt(cql_value)) == Ok::<
                HostModel,
                DecodeError,
            >(h@),
            Err(e) => decode_opt_model(*cql_type, deref_opt(cql_value)) == Err::<
                HostModel,
                DecodeError,
            >(e),
        },
{
    match cql_value {
        Option::None => Ok(HostValue::Absent),
        Option::Some(v) => decode_present(cql_type, v),
    }
}


impl TypeKind {
    /// The kind's name, as an error message prints it.
    pub open spec fn name_model(self) -> Seq<char> {
        match self {
            TypeKind::Ascii => "ascii"@,
            TypeKind::Boolean => "boolean"@,
            TypeKind::Blob => "blob"@,
            TypeKind::Double => "double"@,
            TypeKind::Float => "float"@,
            TypeKind::Int => "int"@,
            TypeKind::BigInt => "bigint"@,
            TypeKind::Text => "text"@,
            TypeKind::SmallInt => "smallint"@,
            TypeKind::TinyInt => "tinyint"@,
            TypeKind::Uuid => "uuid"@,
            TypeKind::Timeuuid => "timeuuid"@,
            TypeKind::Duration => "duration"@,
            TypeKind::Timestamp => "timestamp"@,
            TypeKind::Inet => "inet"@,
            TypeKind::Date => "date"@,
            TypeKind::List => "list"@,
            TypeKind::SetOf => "set"@,
            TypeKind::MapOf => "map"@,
            TypeKind::Tuple => "tuple"@,
            TypeKind::Time => "time"@,
            TypeKind::Counter => "counter"@,
            TypeKind::Custom => "custom type"@,
            TypeKind::Varint => "varint"@,
            TypeKind::Decimal => "decimal"@,
            TypeKind::UserDefined => "user defined type"@,
        }
    }

    /// The kind's name, for error reporting.
    pub fn kind_name(&self) -> (r: &'static str)
        ensures
            r@ == self.name_model(),
    {
        match self {
            TypeKind::Ascii => "ascii",
            TypeKind::Boolean => "boolean",
            TypeKind::Blob => "blob",
            TypeKind::Double => "double",
            TypeKind::Float => "float",
            TypeKind::Int => "int",
            TypeKind::BigInt => "bigint",
            TypeKind::Text => "text",
            TypeKind::SmallInt => "smallint",
            TypeKind::TinyInt => "tinyint",
            TypeKind::Uuid => "uuid",
            TypeKind::Timeuuid => "timeuuid",
            TypeKind::Duration => "duration",
            TypeKind::Timestamp => "timestamp",
            TypeKind::Inet => "inet",
            TypeKind::Date => "date",
            TypeKind::List => "list",
            TypeKind::SetOf => "set",
            TypeKind::MapOf => "map",
            TypeKind::Tuple => "tuple",
            TypeKind::Time => "time",
            TypeKind::Counter => "counter",
            TypeKind::Custom => "custom type",
            TypeKind::Varint => "varint",
            TypeKind::Decimal => "decimal",
            TypeKind::UserDefined => "user defined type",
        }
    }
}

impl DecodeError {
    /// The human-readable message of a decode failure, naming the
    /// offending kind.
    pub open spec fn message_model(self) -> Seq<char> {
        match self {
            DecodeError::Mismatch { expected } => "Cannot parse as "@ + expected.name_model()
                + "."@,
            DecodeError::NotSupported { kind } => kind.name_model() + " is not yet supported."@,
            DecodeError::TupleShape => "Cannot parse as tuple."@,
        }
    }

    /// Renders the failure's message.
    pub fn message(&self) -> (r: String)
        ensures
            r@ == self.message_model(),
    {
        match self {
            DecodeError::Mismatch { expected } => {
                let mut s = String::from_str("Cannot parse as ");
                s.append(expected.kind_name());
                s.append(".");
                proof {
                    assert(s@ =~= self.message_model());
                }
                s
            },
            DecodeError::NotSupported { kind } => {
                let mut s = String::from_str(kind.kind_name());
                s.append(" is not yet supported.");
                proof {
                    assert(s@ =~= self.message_model());
                }
                s
            },
            DecodeError::TupleShape => String::from_str("Cannot parse as tuple."),
        }
    }
}

} // verus!



