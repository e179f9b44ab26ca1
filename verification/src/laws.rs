//! Properties that relate the encoder and the decoder across the
//! protocol boundary.

use vstd::prelude::*;
use crate::cql::{ColumnType, CqlValue};
use crate::decode::{decode_model, decode_opt_model, elem_models, lemma_decode_elems_prefix, DecodeError};
use crate::encode::{encode_model, is_integer_like, EncodeErrorModel};
use crate::host::{HostModel, HostValue};
use crate::text::uuid_simple;
use crate::uuids::{lemma_uuid_simple_round_trip, uuid_parse, uuid_text_val};
use crate::wire::WireModel;

verus! {

/// Decoding an absent protocol value yields the host "no value" marker,
/// whatever the descriptor's shape, scalar or composite.
pub proof fn lemma_absent_decodes_to_no_value(t: ColumnType)
    ensures
        decode_opt_model(t, Option::None) == Ok::<HostModel, DecodeError>(HostModel::Absent),
{
}

/// A protocol boolean decodes to the host boolean, never to the integer
/// the host runtime might read it as.
pub proof fn lemma_boolean_decodes_as_boolean(b: bool)
    ensures
        decode_model(ColumnType::Boolean, CqlValue::Boolean(b)) == Ok::<HostModel, DecodeError>(
            HostModel::Bool(b),
        ),
        forall|i: int| HostModel::Bool(b) != HostModel::Int(i),
{
}

/// A boolean host value is integer-like to the host runtime, yet the
/// classifier encodes it as the boolean wire kind, never as an integer.
pub proof fn lemma_boolean_encoded_before_integer(b: bool)
    ensures
        is_integer_like(HostValue::Bool(b)),
        encode_model(HostValue::Bool(b)) == Ok::<WireModel, EncodeErrorModel>(WireModel::Bool(b)),
        forall|i: i64|
            encode_model(HostValue::Bool(b)) != Ok::<WireModel, EncodeErrorModel>(
                WireModel::BigInt(i),
            ),
{
}

/// A faithful protocol transport: the decoded protocol value carries
/// exactly the scalar that was serialized onto the wire.
pub open spec fn transport_faithful(w: WireModel, c: CqlValue) -> bool {
    match w {
        WireModel::Text(s) => c matches CqlValue::Text(t) && t@ == s,
        WireModel::BigInt(i) => c == CqlValue::BigInt(i),
        WireModel::Bool(b) => c == CqlValue::Boolean(b),
        WireModel::Double(bits) => c == CqlValue::Double(bits),
        WireModel::Bytes(b) => c matches CqlValue::Blob(v) && v@ == b,
        WireModel::Uuid(u) => c == CqlValue::Uuid(u),
        WireModel::Inet(a) => c matches CqlValue::Inet(x) && x@ == a,
        _ => false,
    }
}

/// The column type under which a scalar wire value comes back.
pub open spec fn scalar_column_of(w: WireModel) -> ColumnType {
    match w {
        WireModel::Text(_) => ColumnType::Text,
        WireModel::BigInt(_) => ColumnType::BigInt,
        WireModel::Bool(_) => ColumnType::Boolean,
        WireModel::Double(_) => ColumnType::Double,
        WireModel::Bytes(_) => ColumnType::Blob,
        WireModel::Uuid(_) => ColumnType::Uuid,
        WireModel::Inet(_) => ColumnType::Inet,
        _ => ColumnType::Text,
    }
}

/// What a supported scalar host value comes back as after the round
/// trip, once the documented widening and normalization are accounted
/// for: integers return through the widest integer kind, and a UUID
/// object returns under the simple rendering of its bits.
pub open spec fn round_trip_model(h: HostValue) -> HostModel {
    match h {
        HostValue::Str(s) => HostModel::Str(s@),
        HostValue::Bool(b) => HostModel::Bool(b),
        HostValue::Int(i) => HostModel::Int(i as int),
        HostValue::Float(bits) => HostModel::Float(bits),
        HostValue::Bytes(b) => HostModel::Bytes(b@),
        HostValue::Uuid(s) => HostModel::Uuid(uuid_simple(uuid_parse(s@)->0)),
        HostValue::Inet(a) => HostModel::Inet(a@),
        _ => HostModel::Absent,
    }
}

/// Whether a host value is one of the scalar kinds the encoder
/// supports; a UUID object counts when the parser reads its string
/// form.
pub open spec fn supported_scalar(h: HostValue) -> bool {
    match h {
        HostValue::Str(_) => true,
        HostValue::Bool(_) => true,
        HostValue::Int(_) => true,
        HostValue::Float(_) => true,
        HostValue::Bytes(_) => true,
        HostValue::Uuid(s) => uuid_parse(s@) is Some,
        HostValue::Inet(_) => true,
        _ => false,
    }
}

/// Every supported scalar host value survives the round trip: encoding
/// cannot fail, and decoding the faithfully transported wire value
/// under the matching column type yields the value back, up to the
/// documented integer widening and UUID re-rendering. For a UUID the
/// decoded string form is the simple rendering of the same 128 bits
/// that the original string form named.
pub proof fn lemma_scalar_round_trip(h: HostValue, c: CqlValue)
    requires
        supported_scalar(h),
        transport_faithful(encode_model(h)->Ok_0, c),
    ensures
        encode_model(h) is Ok,
        decode_model(scalar_column_of(encode_model(h)->Ok_0), c) == Ok::<HostModel, DecodeError>(
            round_trip_model(h),
        ),
        h matches HostValue::Uuid(s) ==> uuid_text_val(
            round_trip_model(h)->Uuid_0,
        ) == uuid_parse(s@),
{
    match h {
        HostValue::Uuid(s) => {
            let u = uuid_parse(s@)->0;
            lemma_uuid_simple_round_trip(u);
        },
        _ => {},
    }
}


/// Decoding a list value preserves element order exactly: when every
/// element decodes, position `i` of the host sequence is the decode of
/// position `i` of the protocol value.
pub proof fn lemma_list_order_preserved(t: ColumnType, v: CqlValue)
    requires
        t is List,
        v is List,
        forall|i: int|
            0 <= i < v->List_0@.len() ==> decode_model(*t->List_0, #[trigger] v->List_0@[i])
                is Ok,
    ensures
        decode_model(t, v) is Ok,
        decode_model(t, v)->Ok_0 is List,
        decode_model(t, v)->Ok_0->List_0.len() == v->List_0@.len(),
        forall|i: int|
            0 <= i < v->List_0@.len() ==> decode_model(t, v)->Ok_0->List_0[i] == decode_model(
                *t->List_0,
                #[trigger] v->List_0@[i],
            )->Ok_0,
{
    let te = *t->List_0;
    let vs = v->List_0@;
    lemma_decode_elems_prefix(te, vs, vs.len() as int);
    assert(elem_models(te, vs, vs.len() as int) + Seq::<HostModel>::empty() =~= elem_models(
        te,
        vs,
        vs.len() as int,
    ));
}

} // verus!

