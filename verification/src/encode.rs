//! The outbound value encoder: classify a dynamic host value into a
//! tagged wire value and serialize it for parameter binding.
//!
//! Classification order matters and is exact, first match wins. A
//! boolean host value is also integer-like in loosely-typed hosts, and
//! is classified as boolean, never as the integer it resembles. The
//! generic classifier always widens an integer-like value to the widest
//! signed integer wire kind. A value of any unrecognized runtime type is
//! refused by name, never coerced.

use vstd::prelude::*;
use crate::host::{HostValue, InetModel};
use crate::uuids::{parse_uuid_text, uuid_parse};
use crate::wire::{
    serialize_value, wire_bytes, wire_fits, wire_model, PyToValue, WireModel,
};

verus! {

/// Why an encode failed.
#[derive(Debug, PartialEq)]
pub enum EncodeError {
    /// The host value's runtime type has no wire representation; the
    /// offending type is named.
    UnsupportedType { name: String },
    /// A UUID-typed host value whose string form the parser refused.
    InvalidUuid { text: String },
    /// The value's serialized form cannot carry its length.
    TooLarge,
}

/// Mathematical model of an encode failure.
pub enum EncodeErrorModel {
    UnsupportedType(Seq<char>),
    InvalidUuid(Seq<char>),
    TooLarge,
}

impl View for EncodeError {
    type V = EncodeErrorModel;

    open spec fn view(&self) -> EncodeErrorModel {
        match self {
            EncodeError::UnsupportedType { name } => EncodeErrorModel::UnsupportedType(name@),
            EncodeError::InvalidUuid { text } => EncodeErrorModel::InvalidUuid(text@),
            EncodeError::TooLarge => EncodeErrorModel::TooLarge,
        }
    }
}

/// The host runtime's name for a value's type, as an unsupported-type
/// error reports it.
pub open spec fn host_type_name(h: HostValue) -> Seq<char> {
    match h {
        HostValue::Absent => "NoneType"@,
        HostValue::Str(_) => "str"@,
        HostValue::Bool(_) => "bool"@,
        HostValue::Int(_) => "int"@,
        HostValue::Float(_) => "float"@,
        HostValue::Bytes(_) => "bytes"@,
        HostValue::Uuid(_) => "UUID"@,
        HostValue::Inet(a) => match a@ {
            InetModel::V4(_) => "IPv4Address"@,
            InetModel::V6(_) => "IPv6Address"@,
        },
        HostValue::Date(_) => "datetime.date"@,
        HostValue::Duration(_) => "datetime.timedelta"@,
        HostValue::List(_) => "list"@,
        HostValue::Tuple(_) => "tuple"@,
        HostValue::SetOf(_) => "set"@,
        HostValue::Dict(_) => "dict"@,
        HostValue::Object { name } => name@,
    }
}

/// Whether the host runtime would also read this value as an integer:
/// booleans are integer-like there, which is why the classifier must
/// test for booleans on its own terms.
pub open spec fn is_integer_like(h: HostValue) -> bool {
    h is Int || h is Bool
}

/// What a host value classifies to: the wire value it is encoded as,
/// or the failure that refuses it.
pub open spec fn encode_model(h: HostValue) -> Result<WireModel, EncodeErrorModel>
    decreases h, 0int,
{
    match h {
        HostValue::Str(s) => Ok(WireModel::Text(s@)),
        HostValue::Bool(b) => Ok(WireModel::Bool(b)),
        HostValue::Int(i) => Ok(WireModel::BigInt(i)),
        HostValue::Float(bits) => Ok(WireModel::Double(bits)),
        HostValue::Bytes(b) => Ok(WireModel::Bytes(b@)),
        HostValue::Uuid(s) => match uuid_parse(s@) {
            Option::Some(u) => Ok(WireModel::Uuid(u)),
            Option::None => Err(EncodeErrorModel::InvalidUuid(s@)),
        },
        HostValue::Inet(a) => Ok(WireModel::Inet(a@)),
        HostValue::List(items) => match encode_elems_model(items@, 0) {
            Ok(ms) => Ok(WireModel::List(ms)),
            Err(e) => Err(e),
        },
        HostValue::Tuple(items) => match encode_elems_model(items@, 0) {
            Ok(ms) => Ok(WireModel::List(ms)),
            Err(e) => Err(e),
        },
        HostValue::SetOf(items) => match encode_elems_model(items@, 0) {
            Ok(ms) => Ok(WireModel::List(ms)),
            Err(e) => Err(e),
        },
        _ => Err(EncodeErrorModel::UnsupportedType(host_type_name(h))),
    }
}

/// What the elements of a collection from position `i` on classify to,
/// in order, failing fast.
pub open spec fn encode_elems_model(hs: Seq<HostValue>, i: int) -> Result<
    Seq<WireModel>,
    EncodeErrorModel,
>
    decreases hs, hs.len() - i,
        when 0 <= i
{
    if i >= hs.len() {
        Ok(Seq::empty())
    } else {
        match encode_model(hs[i]) {
            Err(e) => Err(e),
            Ok(m) => match encode_elems_model(hs, i + 1) {
                Err(e) => Err(e),
                Ok(rest) => Ok(seq![m] + rest),
            },
        }
    }
}

/// The classified models of the first `i` elements, when they all
/// classify.
pub open spec fn encoded_models(hs: Seq<HostValue>, i: int) -> Seq<WireModel> {
    Seq::new(i as nat, |j: int| encode_model(hs[j])->Ok_0)
}

/// Composing a classified prefix with the classification of the rest.
pub proof fn lemma_encode_elems_prefix(hs: Seq<HostValue>, i: int)
    requires
        0 <= i <= hs.len(),
        forall|j: int| 0 <= j < i ==> encode_model(hs[j]) is Ok,
    ensures
        encode_elems_model(hs, 0) == (match encode_elems_model(hs, i) {
            Ok(rest) => Ok::<Seq<WireModel>, EncodeErrorModel>(encoded_models(hs, i) + rest),
            Err(e) => Err(e),
        }),
    decreases i,
{
    if i == 0 {
        match encode_elems_model(hs, 0) {
            Ok(rest) => {
                assert(encoded_models(hs, 0) + rest =~= rest);
            },
            Err(_) => {},
        }
    } else {
        lemma_encode_elems_prefix(hs, i - 1);
        let m = encode_model(hs[i - 1])->Ok_0;
        match encode_elems_model(hs, i) {
            Ok(rest) => {
                assert(encode_elems_model(hs, i - 1) == Ok::<Seq<WireModel>, EncodeErrorModel>(
                    seq![m] + rest,
                ));
                assert(encoded_models(hs, i - 1) + (seq![m] + rest) =~= encoded_models(hs, i)
                    + rest);
            },
            Err(e) => {
                assert(encode_elems_model(hs, i - 1) == Err::<Seq<WireModel>, EncodeErrorModel>(
                    e,
                ));
            },
        }
    }
}

/// Classifies a dynamic host value into the tagged wire value it is
/// bound as.
///
/// The result is exactly what `encode_model` states: text, the widest
/// integer kind, boolean before any integer reading, a double, raw
/// bytes, a parsed UUID, a network address, or a nested sequence built
/// recursively; every other runtime type is refused by name, and an
/// unparsable UUID string propagates as a malformed-value failure.
pub fn py_to_value(item: &HostValue) -> (r: Result<PyToValue, EncodeError>)
    ensures
        match r {
            Ok(w) => encode_model(*item) == Ok::<WireModel, EncodeErrorModel>(w@),
            Err(e) => encode_model(*item) == Err::<WireModel, EncodeErrorModel>(e@),
        },
    decreases *item, 0int,
{
    match item {
        HostValue::Str(s) => Ok(PyToValue::Text(s.clone())),
        HostValue::Bool(b) => Ok(PyToValue::Bool(*b)),
        HostValue::Int(i) => Ok(PyToValue::BigInt(*i)),
        HostValue::Float(bits) => Ok(PyToValue::Double(*bits)),
        HostValue::Bytes(b) => {
            let copy = b.clone();
            proof {
                assert(copy@ =~= b@);
            }
            Ok(PyToValue::Bytes(copy))
        },
        HostValue::Uuid(s) => match parse_uuid_text(s.as_str()) {
            Ok(u) => Ok(PyToValue::Uuid(u)),
            Err(_) => Err(EncodeError::InvalidUuid { text: s.clone() }),
        },
        HostValue::Inet(a) => Ok(PyToValue::Inet(*a)),
        HostValue::List(items) => match encode_elem_vec(items) {
            Ok(ws) => Ok(PyToValue::List(ws)),
            Err(e) => Err(e),
        },
        HostValue::Tuple(items) => match encode_elem_vec(items) {
            Ok(ws) => Ok(PyToValue::List(ws)),
            Err(e) => Err(e),
        },
        HostValue::SetOf(items) => match encode_elem_vec(items) {
            Ok(ws) => Ok(PyToValue::List(ws)),
            Err(e) => Err(e),
        },
        HostValue::Absent => Err(
            EncodeError::UnsupportedType { name: String::from_str("NoneType") },
        ),
        HostValue::Date(_) => Err(
            EncodeError::UnsupportedType { name: String::from_str("datetime.date") },
        ),
        HostValue::Duration(_) => Err(
            EncodeError::UnsupportedType { name: String::from_str("datetime.timedelta") },
        ),
        HostValue::Dict(_) => Err(
            EncodeError::UnsupportedType { name: String::from_str("dict") },
        ),
        HostValue::Object { name } => Err(
            EncodeError::UnsupportedType { name: name.clone() },
        ),
    }
}

/// Classifies every element of a host collection, in order, failing
/// fast.
fn encode_elem_vec(items: &Vec<HostValue>) -> (r: Result<Vec<PyToValue>, EncodeError>)
    ensures
        match r {
            Ok(ws) => encode_elems_model(items@, 0) == Ok::<Seq<WireModel>, EncodeErrorModel>(
                crate::wire::wire_models_prefix(ws@, ws@.len() as int),
            ) && ws@.len() == items@.len(),
            Err(e) => encode_elems_model(items@, 0) == Err::<Seq<WireModel>, EncodeErrorModel>(
                e@,
            ),
        },
    decreases items@, 1int,
{
    let mut out: Vec<PyToValue> = Vec::new();
    let mut i: usize = 0;
    while i < items.len()
        invariant
            i <= items@.len(),
            out@.len() == i,
            forall|j: int|
                0 <= j < i ==> (#[trigger] encode_model(items@[j])) == Ok::<
                    WireModel,
                    EncodeErrorModel,
                >(wire_model(out@[j])),
        decreases items@.len() - i,
    {
        match py_to_value(&items[i]) {
            Ok(w) => {
                out.push(w);
            },
            Err(e) => {
                proof {
                    lemma_encode_elems_prefix(items@, i as int);
                }
                return Err(e);
            },
        }
        i = i + 1;
    }
    proof {
        lemma_encode_elems_prefix(items@, items@.len() as int);
        crate::wire::lemma_wire_models_prefix(out@, out@.len() as int);
        assert(encoded_models(items@, items@.len() as int) =~= crate::wire::wire_models_prefix(
            out@,
            out@.len() as int,
        ));
        assert(encoded_models(items@, items@.len() as int) + Seq::<WireModel>::empty()
            =~= encoded_models(items@, items@.len() as int));
    }
    Ok(out)
}

/// Encodes one query parameter: classify the host value, then serialize
/// the wire value it became.
///
/// On success the bytes are exactly the serialized form of the
/// classified value. A classification failure propagates unchanged; a
/// value too large for the format's length slots is refused whole.
pub fn encode_parameter(item: &HostValue) -> (r: Result<Vec<u8>, EncodeError>)
    ensures
        match r {
            Ok(bytes) => encode_model(*item) matches Ok(w) && wire_fits(w) && bytes@
                == wire_bytes(w),
            Err(e) => match encode_model(*item) {
                Ok(w) => !wire_fits(w) && e@ == EncodeErrorModel::TooLarge,
                Err(em) => e@ == em,
            },
        },
{
    let wire = match py_to_value(item) {
        Ok(w) => w,
        Err(e) => {
            return Err(e);
        },
    };
    match serialize_value(&wire) {
        Ok(bytes) => Ok(bytes),
        Err(_) => Err(EncodeError::TooLarge),
    }
}


impl EncodeError {
    /// The human-readable message of an encode failure, naming the
    /// offending type or text.
    pub open spec fn message_model(self) -> Seq<char> {
        match self {
            EncodeError::UnsupportedType { name } => "Unsupported type for parameter binding: "@
                + name@,
            EncodeError::InvalidUuid { text } => "Cannot parse UUID from "@ + text@,
            EncodeError::TooLarge => "Value too big to serialize"@,
        }
    }

    /// Renders the failure's message.
    pub fn message(&self) -> (r: String)
        ensures
            r@ == self.message_model(),
    {
        match self {
            EncodeError::UnsupportedType { name } => {
                let mut s = String::from_str("Unsupported type for parameter binding: ");
                s.append(name.as_str());
                proof {
                    assert(s@ =~= self.message_model());
                }
                s
            },
            EncodeError::InvalidUuid { text } => {
                let mut s = String::from_str("Cannot parse UUID from ");
                s.append(text.as_str());
                proof {
                    assert(s@ =~= self.message_model());
                }
                s
            },
            EncodeError::TooLarge => String::from_str("Value too big to serialize"),
        }
    }
}

} // verus!

