//! The values that are exchanged with the native library.
use crate::enums::{ODPIEventType, ODPINativeTypeNum, ODPIOracleTypeNum};
use crate::error::{ErrorKind, Info, Reason};
use crate::flags::ODPIOpCode;
use crate::time::{civil_datetime, delta_new, delta_from_parts, is_civil_time, datetime_from_civil};
use crate::util::copy_bytes;
use chrono::{NaiveDateTime, TimeDelta};
use vstd::arithmetic::div_mod::lemma_fundamental_div_mod_converse;
use vstd::prelude::*;

verus! {

/// A point in time as the native library represents it.
#[derive(Clone, Copy, Debug, PartialEq, Eq, Structural)]
pub struct ODPITimestamp {
    /// The year.
    pub year: i16,
    /// The month, from 1 to 12.
    pub month: u8,
    /// The day of the month, from 1 on.
    pub day: u8,
    /// The hour, from 0 to 23.
    pub hour: u8,
    /// The minute, from 0 to 59.
    pub minute: u8,
    /// The second, from 0 to 59.
    pub second: u8,
    /// The fraction of the second, in nanoseconds.
    pub fsecond: u32,
    /// The hours of the offset of the time zone.
    pub tz_hour_offset: i8,
    /// The minutes of the offset of the time zone.
    pub tz_minute_offset: i8,
}

impl ODPITimestamp {
    /// Whether this is the timestamp that the native library hands out where it has no
    /// time to report.
    pub open spec fn spec_is_sentinel(&self) -> bool {
        self.year == -10100 && self.month == 0 && self.day == 0
    }

    /// Whether the fields name a day of the calendar and a time of that day.
    pub open spec fn is_civil(&self) -> bool {
        is_civil_time(
            self.year as int,
            self.month as int,
            self.day as int,
            self.hour as int,
            self.minute as int,
            self.second as int,
            self.fsecond as int,
        )
    }

    /// The date and time of the host that the fields name, if they name one.
    pub open spec fn civil(&self) -> Option<NaiveDateTime> {
        datetime_from_civil(
            self.year as int,
            self.month as int,
            self.day as int,
            self.hour as int,
            self.minute as int,
            self.second as int,
            self.fsecond as int,
        )
    }

    /// What the timestamp is read as when the current time is `now`.
    pub open spec fn reading(&self, now: NaiveDateTime) -> Result<NaiveDateTime, ErrorKind> {
        if self.spec_is_sentinel() {
            Ok(now)
        } else {
            match self.civil() {
                Some(t) => Ok(t),
                None => Err(ErrorKind::InvalidArgument { reason: Reason::InvalidTimestamp }),
            }
        }
    }

    /// Whether this is the timestamp that the native library hands out where it has no
    /// time to report.
    #[verifier::when_used_as_spec(spec_is_sentinel)]
    pub fn is_sentinel(&self) -> (r: bool)
        ensures
            r == self.spec_is_sentinel(),
    {
        self.year == -10100 && self.month == 0 && self.day == 0
    }

    /// The timestamp as a date and time of the host, in UTC. The time zone offset is left
    /// aside. The timestamp that stands for no time is read as `now`, the current time
    /// as the caller knows it. Fields that name no day or no time of day are an error.
    pub fn to_utc(&self, now: NaiveDateTime) -> (r: Result<NaiveDateTime, ErrorKind>)
        ensures
            r == self.reading(now),
            r is Ok <==> self.spec_is_sentinel() || self.is_civil(),
    {
        if self.is_sentinel() {
            Ok(now)
        } else {
            match civil_datetime(
                self.year,
                self.month,
                self.day,
                self.hour,
                self.minute,
                self.second,
                self.fsecond,
            ) {
                Some(t) => Ok(t),
                None => Err(ErrorKind::InvalidArgument { reason: Reason::InvalidTimestamp }),
            }
        }
    }
}

/// An interval of days, hours, minutes, seconds and nanoseconds, each with its own sign.
#[derive(Clone, Copy, Debug, PartialEq, Eq, Structural)]
pub struct ODPIIntervalDS {
    /// The days.
    pub days: i32,
    /// The hours.
    pub hours: i32,
    /// The minutes.
    pub minutes: i32,
    /// The seconds.
    pub seconds: i32,
    /// The fraction of a second, in nanoseconds.
    pub fseconds: i32,
}

impl ODPIIntervalDS {
    /// The whole seconds of the interval without its fraction.
    pub open spec fn whole_seconds(&self) -> int {
        ((self.days * 24 + self.hours) * 60 + self.minutes) * 60 + self.seconds
    }

    /// The length of the interval in nanoseconds: the sum of its five fields.
    pub open spec fn total_nanos(&self) -> int {
        self.whole_seconds() * 1_000_000_000 + self.fseconds
    }

    /// The interval as a span of time of the host: the sum of its five fields.
    pub fn to_duration(&self) -> (r: TimeDelta)
        ensures
            Some(r) == delta_from_parts(
                self.total_nanos() / 1_000_000_000,
                self.total_nanos() % 1_000_000_000,
            ),
    {
        let days: i64 = self.days as i64;
        let hours: i64 = self.hours as i64;
        let minutes: i64 = self.minutes as i64;
        let seconds: i64 = self.seconds as i64;
        let whole: i64 = days * 86_400 + hours * 3_600 + minutes * 60 + seconds;
        assert(whole == self.whole_seconds());
        let secs: i64;
        let nanos: u32;
        if self.fseconds >= 0 {
            let f: u32 = self.fseconds as u32;
            secs = whole + (f / 1_000_000_000) as i64;
            nanos = f % 1_000_000_000;
        } else {
            let f: u32 = (-(self.fseconds as i64)) as u32;
            let q: u32 = f / 1_000_000_000;
            let rest: u32 = f % 1_000_000_000;
            if rest == 0 {
                secs = whole - q as i64;
                nanos = 0;
            } else {
                secs = whole - q as i64 - 1;
                nanos = 1_000_000_000 - rest;
            }
        }
        proof {
            lemma_fundamental_div_mod_converse(
                self.total_nanos(),
                1_000_000_000,
                secs as int,
                nanos as int,
            );
        }
        let made = delta_new(secs, nanos);
        made.unwrap()
    }
}

/// An interval of years and months.
#[derive(Clone, Copy, Debug, PartialEq, Eq, Structural)]
pub struct ODPIIntervalYM {
    /// The years.
    pub years: i32,
    /// The months.
    pub months: i32,
}

/// A byte string with the name of its encoding.
#[derive(Clone, Debug, PartialEq, Eq)]
pub struct ODPIBytes {
    /// The bytes.
    pub bytes: Vec<u8>,
    /// The name of the encoding of the bytes.
    pub encoding: String,
}

/// The payload of a data cell. The variant is the representation of the value, so a
/// payload cannot be read through another representation than its own.
#[derive(Clone, Debug, PartialEq, Eq)]
pub enum ODPIDataValueUnion {
    /// A truth value.
    Boolean(bool),
    /// A signed 64-bit integer.
    Int64(i64),
    /// An unsigned 64-bit integer.
    Uint64(u64),
    /// A single-precision floating-point number, as the bits of its IEEE 754 encoding.
    Float(u32),
    /// A double-precision floating-point number, as the bits of its IEEE 754 encoding.
    Double(u64),
    /// A byte string.
    Bytes(ODPIBytes),
    /// A point in time.
    Timestamp(ODPITimestamp),
    /// An interval of days to seconds.
    IntervalDS(ODPIIntervalDS),
    /// An interval of years and months.
    IntervalYM(ODPIIntervalYM),
    /// The native handle of a large object.
    Lob(u64),
    /// The native handle of an object.
    Object(u64),
    /// The native handle of a statement.
    Stmt(u64),
    /// The native handle of a row identifier.
    Rowid(u64),
}

/// The payload of a data cell as a mathematical value.
pub enum NativeValue {
    Boolean(bool),
    Int64(i64),
    UInt64(u64),
    Float32(u32),
    Float64(u64),
    ByteString { bytes: Seq<u8>, encoding: Seq<char> },
    Timestamp(ODPITimestamp),
    IntervalDaySecond(ODPIIntervalDS),
    IntervalYearMonth(ODPIIntervalYM),
    LobRef(u64),
    ObjectRef(u64),
    StatementRef(u64),
    RowidRef(u64),
}

impl NativeValue {
    /// The representation of the value.
    pub open spec fn native_type(self) -> ODPINativeTypeNum {
        match self {
            NativeValue::Boolean(_) => ODPINativeTypeNum::Boolean,
            NativeValue::Int64(_) => ODPINativeTypeNum::Int64,
            NativeValue::UInt64(_) => ODPINativeTypeNum::Uint64,
            NativeValue::Float32(_) => ODPINativeTypeNum::Float,
            NativeValue::Float64(_) => ODPINativeTypeNum::Double,
            NativeValue::ByteString { .. } => ODPINativeTypeNum::Bytes,
            NativeValue::Timestamp(_) => ODPINativeTypeNum::Timestamp,
            NativeValue::IntervalDaySecond(_) => ODPINativeTypeNum::IntervalDS,
            NativeValue::IntervalYearMonth(_) => ODPINativeTypeNum::IntervalYM,
            NativeValue::LobRef(_) => ODPINativeTypeNum::Lob,
            NativeValue::ObjectRef(_) => ODPINativeTypeNum::Object,
            NativeValue::StatementRef(_) => ODPINativeTypeNum::Stmt,
            NativeValue::RowidRef(_) => ODPINativeTypeNum::Rowid,
        }
    }

    /// The value that a fresh cell of the representation `native_type` holds.
    pub open spec fn zero(native_type: ODPINativeTypeNum) -> NativeValue {
        match native_type {
            ODPINativeTypeNum::Boolean => NativeValue::Boolean(false),
            ODPINativeTypeNum::Int64 => NativeValue::Int64(0),
            ODPINativeTypeNum::Uint64 => NativeValue::UInt64(0),
            ODPINativeTypeNum::Float => NativeValue::Float32(0),
            ODPINativeTypeNum::Double => NativeValue::Float64(0),
            ODPINativeTypeNum::Timestamp => NativeValue::Timestamp(
                ODPITimestamp {
                    year: 0,
                    month: 0,
                    day: 0,
                    hour: 0,
                    minute: 0,
                    second: 0,
                    fsecond: 0,
                    tz_hour_offset: 0,
                    tz_minute_offset: 0,
                },
            ),
            ODPINativeTypeNum::IntervalDS => NativeValue::IntervalDaySecond(
                ODPIIntervalDS { days: 0, hours: 0, minutes: 0, seconds: 0, fseconds: 0 },
            ),
            ODPINativeTypeNum::IntervalYM => NativeValue::IntervalYearMonth(
                ODPIIntervalYM { years: 0, months: 0 },
            ),
            ODPINativeTypeNum::Lob => NativeValue::LobRef(0),
            ODPINativeTypeNum::Object => NativeValue::ObjectRef(0),
            ODPINativeTypeNum::Stmt => NativeValue::StatementRef(0),
            ODPINativeTypeNum::Rowid => NativeValue::RowidRef(0),
            _ => NativeValue::ByteString { bytes: Seq::empty(), encoding: Seq::empty() },
        }
    }
}

impl View for ODPIDataValueUnion {
    type V = NativeValue;

    open spec fn view(&self) -> NativeValue {
        match *self {
            ODPIDataValueUnion::Boolean(v) => NativeValue::Boolean(v),
            ODPIDataValueUnion::Int64(v) => NativeValue::Int64(v),
            ODPIDataValueUnion::Uint64(v) => NativeValue::UInt64(v),
            ODPIDataValueUnion::Float(v) => NativeValue::Float32(v),
            ODPIDataValueUnion::Double(v) => NativeValue::Float64(v),
            ODPIDataValueUnion::Bytes(b) => NativeValue::ByteString {
                bytes: b.bytes@,
                encoding: b.encoding@,
            },
            ODPIDataValueUnion::Timestamp(v) => NativeValue::Timestamp(v),
            ODPIDataValueUnion::IntervalDS(v) => NativeValue::IntervalDaySecond(v),
            ODPIDataValueUnion::IntervalYM(v) => NativeValue::IntervalYearMonth(v),
            ODPIDataValueUnion::Lob(v) => NativeValue::LobRef(v),
            ODPIDataValueUnion::Object(v) => NativeValue::ObjectRef(v),
            ODPIDataValueUnion::Stmt(v) => NativeValue::StatementRef(v),
            ODPIDataValueUnion::Rowid(v) => NativeValue::RowidRef(v),
        }
    }
}

impl ODPIDataValueUnion {
    /// The representation of the payload.
    pub fn native_type(&self) -> (t: ODPINativeTypeNum)
        ensures
            t == self@.native_type(),
            t != ODPINativeTypeNum::Invalid,
    {
        match self {
            ODPIDataValueUnion::Boolean(_) => ODPINativeTypeNum::Boolean,
            ODPIDataValueUnion::Int64(_) => ODPINativeTypeNum::Int64,
            ODPIDataValueUnion::Uint64(_) => ODPINativeTypeNum::Uint64,
            ODPIDataValueUnion::Float(_) => ODPINativeTypeNum::Float,
            ODPIDataValueUnion::Double(_) => ODPINativeTypeNum::Double,
            ODPIDataValueUnion::Bytes(_) => ODPINativeTypeNum::Bytes,
            ODPIDataValueUnion::Timestamp(_) => ODPINativeTypeNum::Timestamp,
            ODPIDataValueUnion::IntervalDS(_) => ODPINativeTypeNum::IntervalDS,
            ODPIDataValueUnion::IntervalYM(_) => ODPINativeTypeNum::IntervalYM,
            ODPIDataValueUnion::Lob(_) => ODPINativeTypeNum::Lob,
            ODPIDataValueUnion::Object(_) => ODPINativeTypeNum::Object,
            ODPIDataValueUnion::Stmt(_) => ODPINativeTypeNum::Stmt,
            ODPIDataValueUnion::Rowid(_) => ODPINativeTypeNum::Rowid,
        }
    }

    /// The payload of a fresh cell of the representation `native_type`; `None` for
    /// `Invalid`, which is no representation.
    pub fn zero(native_type: ODPINativeTypeNum) -> (r: Option<ODPIDataValueUnion>)
        ensures
            native_type == ODPINativeTypeNum::Invalid <==> r is None,
            r matches Some(v) ==> v@ == NativeValue::zero(native_type) && v@.native_type()
                == native_type,
    {
        match native_type {
            ODPINativeTypeNum::Invalid => None,
            ODPINativeTypeNum::Boolean => Some(ODPIDataValueUnion::Boolean(false)),
            ODPINativeTypeNum::Int64 => Some(ODPIDataValueUnion::Int64(0)),
            ODPINativeTypeNum::Uint64 => Some(ODPIDataValueUnion::Uint64(0)),
            ODPINativeTypeNum::Float => Some(ODPIDataValueUnion::Float(0)),
            ODPINativeTypeNum::Double => Some(ODPIDataValueUnion::Double(0)),
            ODPINativeTypeNum::Bytes => Some(
                ODPIDataValueUnion::Bytes(ODPIBytes { bytes: Vec::new(), encoding: String::new() }),
            ),
            ODPINativeTypeNum::Timestamp => Some(
                ODPIDataValueUnion::Timestamp(
                    ODPITimestamp {
                        year: 0,
                        month: 0,
                        day: 0,
                        hour: 0,
                        minute: 0,
                        second: 0,
                        fsecond: 0,
                        tz_hour_offset: 0,
                        tz_minute_offset: 0,
                    },
                ),
            ),
            ODPINativeTypeNum::IntervalDS => Some(
                ODPIDataValueUnion::IntervalDS(
                    ODPIIntervalDS { days: 0, hours: 0, minutes: 0, seconds: 0, fseconds: 0 },
                ),
            ),
            ODPINativeTypeNum::IntervalYM => Some(
                ODPIDataValueUnion::IntervalYM(ODPIIntervalYM { years: 0, months: 0 }),
            ),
            ODPINativeTypeNum::Lob => Some(ODPIDataValueUnion::Lob(0)),
            ODPINativeTypeNum::Object => Some(ODPIDataValueUnion::Object(0)),
            ODPINativeTypeNum::Stmt => Some(ODPIDataValueUnion::Stmt(0)),
            ODPINativeTypeNum::Rowid => Some(ODPIDataValueUnion::Rowid(0)),
        }
    }

    /// A copy of the payload.
    pub fn duplicate(&self) -> (r: ODPIDataValueUnion)
        ensures
            r@ == self@,
    {
        match self {
            ODPIDataValueUnion::Boolean(v) => ODPIDataValueUnion::Boolean(*v),
            ODPIDataValueUnion::Int64(v) => ODPIDataValueUnion::Int64(*v),
            ODPIDataValueUnion::Uint64(v) => ODPIDataValueUnion::Uint64(*v),
            ODPIDataValueUnion::Float(v) => ODPIDataValueUnion::Float(*v),
            ODPIDataValueUnion::Double(v) => ODPIDataValueUnion::Double(*v),
            ODPIDataValueUnion::Bytes(b) => ODPIDataValueUnion::Bytes(
                ODPIBytes { bytes: copy_bytes(&b.bytes), encoding: b.encoding.clone() },
            ),
            ODPIDataValueUnion::Timestamp(v) => ODPIDataValueUnion::Timestamp(*v),
            ODPIDataValueUnion::IntervalDS(v) => ODPIDataValueUnion::IntervalDS(*v),
            ODPIDataValueUnion::IntervalYM(v) => ODPIDataValueUnion::IntervalYM(*v),
            ODPIDataValueUnion::Lob(v) => ODPIDataValueUnion::Lob(*v),
            ODPIDataValueUnion::Object(v) => ODPIDataValueUnion::Object(*v),
            ODPIDataValueUnion::Stmt(v) => ODPIDataValueUnion::Stmt(*v),
            ODPIDataValueUnion::Rowid(v) => ODPIDataValueUnion::Rowid(*v),
        }
    }
}

/// A data cell: a payload, and whether the cell stands for the null value. The two are
/// independent, and a reader looks at `is_null` first.
#[derive(Clone, Debug, PartialEq, Eq)]
pub struct ODPIData {
    /// Whether the cell stands for the null value.
    pub is_null: bool,
    /// The payload.
    pub value: ODPIDataValueUnion,
}

/// A data cell as a mathematical value.
pub struct NativeCell {
    pub is_null: bool,
    pub value: NativeValue,
}

impl View for ODPIData {
    type V = NativeCell;

    open spec fn view(&self) -> NativeCell {
        NativeCell { is_null: self.is_null, value: self.value@ }
    }
}

/// The cells of `cells` as mathematical values.
pub open spec fn cells_view(cells: Seq<ODPIData>) -> Seq<NativeCell> {
    Seq::new(cells.len(), |i: int| cells[i]@)
}

impl ODPIData {
    /// The null cell of the representation `native_type`.
    pub open spec fn null_cell(native_type: ODPINativeTypeNum) -> NativeCell {
        NativeCell { is_null: true, value: NativeValue::zero(native_type) }
    }

    /// A fresh cell of the representation `native_type`: null, with a payload of that
    /// representation. `None` for `Invalid`, which is no representation.
    pub fn null(native_type: ODPINativeTypeNum) -> (r: Option<ODPIData>)
        ensures
            native_type == ODPINativeTypeNum::Invalid <==> r is None,
            r matches Some(c) ==> c@ == ODPIData::null_cell(native_type) && c@.value.native_type()
                == native_type,
    {
        match ODPIDataValueUnion::zero(native_type) {
            Some(value) => Some(ODPIData { is_null: true, value }),
            None => None,
        }
    }

    /// The representation of the cell's payload.
    pub fn native_type(&self) -> (t: ODPINativeTypeNum)
        ensures
            t == self@.value.native_type(),
            t != ODPINativeTypeNum::Invalid,
    {
        self.value.native_type()
    }

    /// A copy of the cell.
    pub fn duplicate(&self) -> (r: ODPIData)
        ensures
            r@ == self@,
    {
        ODPIData { is_null: self.is_null, value: self.value.duplicate() }
    }
}

/// What is known of one attribute of an object type.
#[derive(Clone, Debug, PartialEq, Eq)]
pub struct ODPIObjectAttrInfo {
    /// The name of the attribute.
    pub name: String,
    /// The database type of the attribute.
    pub oracle_type_num: ODPIOracleTypeNum,
    /// The representation in which values of the attribute are exchanged.
    pub default_native_type_num: ODPINativeTypeNum,
    /// The native handle of the attribute's own object type where the attribute is an
    /// object or a collection; zero, the null handle, where it is not.
    pub object_type: u64,
}

impl ODPIObjectAttrInfo {
    /// A copy of the information.
    pub fn duplicate(&self) -> (r: ODPIObjectAttrInfo)
        ensures
            r == *self,
    {
        ODPIObjectAttrInfo {
            name: self.name.clone(),
            oracle_type_num: self.oracle_type_num,
            default_native_type_num: self.default_native_type_num,
            object_type: self.object_type,
        }
    }

    /// Whether the attribute has an object type of its own, which a reader resolves by
    /// one further look into the catalog of types.
    pub open spec fn spec_is_nested(&self) -> bool {
        self.default_native_type_num == ODPINativeTypeNum::Object && self.object_type != 0
    }

    /// Whether the attribute has an object type of its own, which a reader resolves by
    /// one further look into the catalog of types.
    #[verifier::when_used_as_spec(spec_is_nested)]
    pub fn is_nested(&self) -> (r: bool)
        ensures
            r == self.spec_is_nested(),
    {
        self.default_native_type_num == ODPINativeTypeNum::Object && self.object_type != 0
    }
}

/// What is known of an object type.
#[derive(Clone, Debug, PartialEq, Eq)]
pub struct ODPIObjectTypeInfo {
    /// The schema that owns the type.
    pub schema: String,
    /// The name of the type.
    pub name: String,
    /// Whether the type is a collection.
    pub is_collection: bool,
    /// The database type of the elements of a collection.
    pub element_oracle_type_num: ODPIOracleTypeNum,
    /// The representation in which elements of a collection are exchanged.
    pub element_default_native_type_num: ODPINativeTypeNum,
    /// The native handle of the object type of the elements where they are objects;
    /// zero, the null handle, where they are not.
    pub element_object_type: u64,
    /// The number of attributes of the type.
    pub num_attributes: u16,
}

impl ODPIObjectTypeInfo {
    /// A copy of the information.
    pub fn duplicate(&self) -> (r: ODPIObjectTypeInfo)
        ensures
            r == *self,
    {
        ODPIObjectTypeInfo {
            schema: self.schema.clone(),
            name: self.name.clone(),
            is_collection: self.is_collection,
            element_oracle_type_num: self.element_oracle_type_num,
            element_default_native_type_num: self.element_default_native_type_num,
            element_object_type: self.element_object_type,
            num_attributes: self.num_attributes,
        }
    }

    /// Whether the elements have an object type of their own.
    pub open spec fn spec_has_nested_elements(&self) -> bool {
        self.is_collection && self.element_default_native_type_num == ODPINativeTypeNum::Object
            && self.element_object_type != 0
    }

    /// Whether the elements have an object type of their own.
    #[verifier::when_used_as_spec(spec_has_nested_elements)]
    pub fn has_nested_elements(&self) -> (r: bool)
        ensures
            r == self.spec_has_nested_elements(),
    {
        self.is_collection && self.element_default_native_type_num == ODPINativeTypeNum::Object
            && self.element_object_type != 0
    }
}

/// The numbers of a version of the database or of the native library.
#[derive(Clone, Copy, Debug, PartialEq, Eq, Structural)]
pub struct ODPIVersionInfo {
    /// The major version.
    pub version_num: u32,
    /// The release.
    pub release_num: u32,
    /// The update.
    pub update_num: u32,
    /// The release that is specific to the platform.
    pub port_release_num: u32,
    /// The update that is specific to the platform.
    pub port_update_num: u32,
    /// All five numbers in one, as the native library computes it.
    pub full_version_num: u32,
}

/// A row that changed, as a notification of a subscription reports it.
#[derive(Clone, Debug, PartialEq, Eq)]
pub struct ODPISubscrMessageRow {
    /// What was done to the row.
    pub operation: ODPIOpCode,
    /// The identifier of the row.
    pub rowid: String,
}

/// A table that changed, as a notification of a subscription reports it.
#[derive(Clone, Debug, PartialEq, Eq)]
pub struct ODPISubscrMessageTable {
    /// What was done to the table.
    pub operation: ODPIOpCode,
    /// The name of the table.
    pub name: String,
    /// The rows that changed, where the subscription asked for them.
    pub rows: Vec<ODPISubscrMessageRow>,
}

/// A registered query whose result changed, as a notification of a subscription
/// reports it.
#[derive(Clone, Debug, PartialEq, Eq)]
pub struct ODPISubscrMessageQuery {
    /// The id under which the query was registered.
    pub id: u64,
    /// What was done to the result of the query.
    pub operation: ODPIOpCode,
    /// The tables of the query that changed.
    pub tables: Vec<ODPISubscrMessageTable>,
}

/// A notification of a subscription.
#[derive(Clone, Debug, PartialEq, Eq)]
pub struct ODPISubscrMessage {
    /// The kind of event.
    pub event_type: ODPIEventType,
    /// The name of the database that raised the event.
    pub db_name: String,
    /// The tables that changed, for a change of objects.
    pub tables: Vec<ODPISubscrMessageTable>,
    /// The queries whose results changed, for a change of queries.
    pub queries: Vec<ODPISubscrMessageQuery>,
    /// The report of the failure, where the notification tells of one.
    pub error_info: Option<Info>,
}

} // verus!
