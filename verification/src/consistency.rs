//! Consistency levels and their translation to the transport layer's
//! enumeration.

use vstd::prelude::*;

verus! {

/// Consistency levels for queries, as the host exposes them.
#[derive(Clone, Copy, Debug, PartialEq, Eq, Structural)]
#[allow(non_camel_case_types)]
pub enum Consistency {
    ANY,
    ONE,
    TWO,
    THREE,
    QUORUM,
    ALL,
    LOCAL_QUORUM,
    EACH_QUORUM,
    LOCAL_ONE,
}

/// The transport layer's consistency enumeration, as far as the mapping
/// below reaches it. The transport collaborator converts this plain form
/// into its own type one variant at a time.
#[derive(Clone, Copy, Debug, PartialEq, Eq, Structural)]
pub enum TransportConsistency {
    Any,
    One,
    Two,
    Three,
    Quorum,
    All,
    LocalQuorum,
    EachQuorum,
    LocalOne,
}

/// The one transport counterpart of each host-exposed consistency level.
pub open spec fn transport_of(c: Consistency) -> TransportConsistency {
    match c {
        Consistency::ANY => TransportConsistency::Any,
        Consistency::ONE => TransportConsistency::One,
        Consistency::TWO => TransportConsistency::Two,
        Consistency::THREE => TransportConsistency::Three,
        Consistency::QUORUM => TransportConsistency::Quorum,
        Consistency::ALL => TransportConsistency::All,
        Consistency::LOCAL_QUORUM => TransportConsistency::LocalQuorum,
        Consistency::EACH_QUORUM => TransportConsistency::EachQuorum,
        Consistency::LOCAL_ONE => TransportConsistency::LocalOne,
    }
}

/// Total, infallible translation of a host-exposed consistency level into
/// the transport layer's equivalent: every level has exactly one
/// counterpart.
pub fn to_transport_consistency(c: Consistency) -> (r: TransportConsistency)
    ensures
        r == transport_of(c),
{
    match c {
        Consistency::ANY => TransportConsistency::Any,
        Consistency::ONE => TransportConsistency::One,
        Consistency::TWO => TransportConsistency::Two,
        Consistency::THREE => TransportConsistency::Three,
        Consistency::QUORUM => TransportConsistency::Quorum,
        Consistency::ALL => TransportConsistency::All,
        Consistency::LOCAL_QUORUM => TransportConsistency::LocalQuorum,
        Consistency::EACH_QUORUM => TransportConsistency::EachQuorum,
        Consistency::LOCAL_ONE => TransportConsistency::LocalOne,
    }
}

} // verus!
