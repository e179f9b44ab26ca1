//! The dynamically-typed host object model, as plain data.
//!
//! A host value has no static type: consumers inspect it at runtime. This
//! module models every host value kind the marshaling layer can meet:
//! primitives, a UUID-typed object held by its string form, a network
//! address held by its octets, date and time-delta objects, ordered and
//! associative containers, and a catch-all for objects of any other
//! runtime type, held by their runtime type name. The host runtime converts its
//! own objects into this form and back at the boundary.

use vstd::prelude::*;

verus! {

/// A network-address object, by its octets.
#[derive(Clone, Copy, Debug, PartialEq, Eq)]
pub enum InetAddr {
    V4([u8; 4]),
    V6([u8; 16]),
}

/// Mathematical model of a network address: the octet sequence, tagged
/// with the address family.
pub enum InetModel {
    V4(Seq<u8>),
    V6(Seq<u8>),
}

impl View for InetAddr {
    type V = InetModel;

    open spec fn view(&self) -> InetModel {
        match self {
            InetAddr::V4(o) => InetModel::V4(o@),
            InetAddr::V6(o) => InetModel::V6(o@),
        }
    }
}

/// A dynamically-typed host value.
///
/// A host float is carried by the bit pattern of its 64-bit IEEE form;
/// the host runtime is the only place where it exists as a number. A
/// UUID-typed object is carried by its string form, which is what the
/// marshaling layer reads of it. A time-delta object is carried as a
/// count of microseconds, a date object as the ISO `YYYY-MM-DD` string
/// it was constructed from.
#[derive(Debug, PartialEq)]
pub enum HostValue {
    /// The host "no value" marker, distinct from every present value.
    Absent,
    Str(String),
    Bool(bool),
    Int(i64),
    /// Bit pattern of a 64-bit IEEE floating-point host value.
    Float(u64),
    Bytes(Vec<u8>),
    /// A UUID-typed object, by its canonical string form.
    Uuid(String),
    Inet(InetAddr),
    /// A date object, by the ISO `YYYY-MM-DD` string it was built from.
    Date(String),
    /// A time-delta object, as a count of microseconds.
    Duration(i64),
    List(Vec<HostValue>),
    Tuple(Vec<HostValue>),
    SetOf(Vec<HostValue>),
    /// An associative container, as its entry sequence in insertion
    /// order.
    Dict(Vec<(HostValue, HostValue)>),
    /// An object of any other runtime type, by its type name.
    Object { name: String },
}

/// Mathematical model of a host value.
pub enum HostModel {
    Absent,
    Str(Seq<char>),
    Bool(bool),
    Int(int),
    Float(u64),
    Bytes(Seq<u8>),
    Uuid(Seq<char>),
    Inet(InetModel),
    Date(Seq<char>),
    Duration(int),
    List(Seq<HostModel>),
    Tuple(Seq<HostModel>),
    SetOf(Seq<HostModel>),
    Dict(Seq<(HostModel, HostModel)>),
    Object { name: Seq<char> },
}

/// The model of each element of a prefix of a sequence of host values.
pub open spec fn host_models_prefix(s: Seq<HostValue>, n: int) -> Seq<HostModel>
    decreases s, n,
        when n <= s.len()
{
    if n <= 0 {
        Seq::empty()
    } else {
        host_models_prefix(s, n - 1).push(host_model(s[n - 1]))
    }
}

/// The model of each entry of a prefix of an entry sequence.
pub open spec fn host_entry_models_prefix(s: Seq<(HostValue, HostValue)>, n: int) -> Seq<
    (HostModel, HostModel),
>
    decreases s, n,
        when n <= s.len()
{
    if n <= 0 {
        Seq::empty()
    } else {
        host_entry_models_prefix(s, n - 1).push(
            (host_model(s[n - 1].0), host_model(s[n - 1].1)),
        )
    }
}

/// The mathematical model of a host value.
pub open spec fn host_model(h: HostValue) -> HostModel
    decreases h, 0int,
{
    match h {
        HostValue::Absent => HostModel::Absent,
        HostValue::Str(s) => HostModel::Str(s@),
        HostValue::Bool(b) => HostModel::Bool(b),
        HostValue::Int(i) => HostModel::Int(i as int),
        HostValue::Float(bits) => HostModel::Float(bits),
        HostValue::Bytes(b) => HostModel::Bytes(b@),
        HostValue::Uuid(s) => HostModel::Uuid(s@),
        HostValue::Inet(a) => HostModel::Inet(a@),
        HostValue::Date(s) => HostModel::Date(s@),
        HostValue::Duration(us) => HostModel::Duration(us as int),
        HostValue::List(items) => HostModel::List(
            host_models_prefix(items@, items@.len() as int),
        ),
        HostValue::Tuple(items) => HostModel::Tuple(
            host_models_prefix(items@, items@.len() as int),
        ),
        HostValue::SetOf(items) => HostModel::SetOf(
            host_models_prefix(items@, items@.len() as int),
        ),
        HostValue::Dict(entries) => HostModel::Dict(
            host_entry_models_prefix(entries@, entries@.len() as int),
        ),
        HostValue::Object { name } => HostModel::Object { name: name@ },
    }
}

impl View for HostValue {
    type V = HostModel;

    open spec fn view(&self) -> HostModel {
        host_model(*self)
    }
}

/// Each element of the modelled prefix is the model of the element.
pub proof fn lemma_host_models_prefix(s: Seq<HostValue>, n: int)
    requires
        0 <= n <= s.len(),
    ensures
        host_models_prefix(s, n).len() == n,
        forall|i: int| 0 <= i < n ==> host_models_prefix(s, n)[i] == host_model(s[i]),
    decreases n,
{
    if n > 0 {
        lemma_host_models_prefix(s, n - 1);
    }
}

/// Each entry of the modelled prefix is the model of the entry, pointwise.
pub proof fn lemma_host_entry_models_prefix(s: Seq<(HostValue, HostValue)>, n: int)
    requires
        0 <= n <= s.len(),
    ensures
        host_entry_models_prefix(s, n).len() == n,
        forall|i: int|
            0 <= i < n ==> host_entry_models_prefix(s, n)[i] == (
            host_model(s[i].0),
            host_model(s[i].1),
            ),
    decreases n,
{
    if n > 0 {
        lemma_host_entry_models_prefix(s, n - 1);
    }
}

} // verus!
