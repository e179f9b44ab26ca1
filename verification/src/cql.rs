//! The protocol side of the boundary, as plain data: the column type
//! descriptor tree that the protocol declares for each result column, and
//! the decoded protocol value tree that the protocol layer produces.
//!
//! The protocol layer itself decodes raw frames; this crate only
//! re-expresses its already-typed values, so both forms are held as plain
//! data. A protocol float is carried as the bit pattern of its IEEE form,
//! a duration as its nanosecond count, a timestamp as milliseconds since
//! the epoch, and a date as the calendar day it names.

use vstd::prelude::*;
use crate::host::InetAddr;

verus! {

/// A calendar date, as the protocol hands it over: year, month and day
/// of the proleptic Gregorian calendar.
#[derive(Clone, Copy, Debug, PartialEq, Eq, Structural)]
pub struct DateYmd {
    pub year: u16,
    pub month: u8,
    pub day: u8,
}

/// A protocol-declared column type descriptor, possibly recursive.
#[derive(Debug, PartialEq)]
pub enum ColumnType {
    Ascii,
    Boolean,
    Blob,
    Double,
    Float,
    Int,
    BigInt,
    Text,
    SmallInt,
    TinyInt,
    Uuid,
    Timeuuid,
    Duration,
    Timestamp,
    Inet,
    Date,
    List(Box<ColumnType>),
    SetOf(Box<ColumnType>),
    MapOf(Box<ColumnType>, Box<ColumnType>),
    Tuple(Vec<ColumnType>),
    /// Declared but deliberately unimplemented column types follow.
    Time,
    Counter,
    Custom(String),
    Varint,
    Decimal,
    UserDefined { keyspace: String, name: String },
}

/// A decoded protocol value: the already wire-decoded, strongly-typed
/// value tree the protocol layer produced for one column.
#[derive(Debug, PartialEq)]
pub enum CqlValue {
    Ascii(String),
    Boolean(bool),
    Blob(Vec<u8>),
    /// Bit pattern of a 64-bit IEEE floating-point protocol value.
    Double(u64),
    /// Bit pattern of a 32-bit IEEE floating-point protocol value.
    Float(u32),
    Int(i32),
    BigInt(i64),
    Text(String),
    SmallInt(i16),
    TinyInt(i8),
    /// A UUID, as its 128 bits in big-endian byte order.
    Uuid(u128),
    Timeuuid(u128),
    /// A duration, as its total count of nanoseconds.
    Duration(i64),
    /// A timestamp, as milliseconds since the Unix epoch.
    Timestamp(i64),
    Inet(InetAddr),
    Date(DateYmd),
    List(Vec<CqlValue>),
    SetOf(Vec<CqlValue>),
    MapOf(Vec<(CqlValue, CqlValue)>),
    /// A tuple value; an absent position decodes as the host "no value"
    /// marker.
    Tuple(Vec<Option<CqlValue>>),
}

} // verus!
