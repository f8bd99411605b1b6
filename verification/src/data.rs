//! Reading and writing one data cell.
//!
//! A cell is read through the representation that its payload has. Reading it through
//! another one is an error that the accessor reports; it never yields a value.
use crate::enums::ODPINativeTypeNum;
use crate::error::ErrorKind;
use crate::structs::{
    NativeCell, NativeValue, ODPIBytes, ODPIData, ODPIDataValueUnion, ODPIIntervalDS,
    ODPIIntervalYM, ODPITimestamp,
};
use crate::time::delta_from_parts;
use crate::util::{bytes_from_text, text_from_bytes, text_of};
use chrono::{NaiveDateTime, TimeDelta};
use vstd::prelude::*;
use vstd::string::*;
use vstd::utf8::*;

verus! {

/// An interval of years and months.
#[derive(Clone, Copy, Debug, PartialEq, Eq, Structural)]
pub struct YearsMonths {
    /// The years of the interval.
    years: i32,
    /// The months of the interval.
    months: i32,
}

impl YearsMonths {
    /// The years of the interval.
    pub closed spec fn spec_years(&self) -> i32 {
        self.years
    }

    /// The months of the interval.
    pub closed spec fn spec_months(&self) -> i32 {
        self.months
    }

    /// The interval of `years` years and `months` months.
    pub fn new(years: i32, months: i32) -> (r: YearsMonths)
        ensures
            r.spec_years() == years,
            r.spec_months() == months,
    {
        YearsMonths { years, months }
    }

    /// The years of the interval.
    #[verifier::when_used_as_spec(spec_years)]
    pub fn years(&self) -> (r: i32)
        ensures
            r == self.spec_years(),
    {
        self.years
    }

    /// The months of the interval.
    #[verifier::when_used_as_spec(spec_months)]
    pub fn months(&self) -> (r: i32)
        ensures
            r == self.spec_months(),
    {
        self.months
    }

    /// Sets the years of the interval.
    pub fn set_years(&mut self, val: i32)
        ensures
            final(self).spec_years() == val,
            final(self).spec_months() == old(self).spec_months(),
    {
        self.years = val;
    }

    /// Sets the months of the interval.
    pub fn set_months(&mut self, val: i32)
        ensures
            final(self).spec_months() == val,
            final(self).spec_years() == old(self).spec_years(),
    {
        self.months = val;
    }
}

/// One data cell with its accessors.
#[derive(Clone, Debug, PartialEq, Eq)]
pub struct Data {
    /// The cell.
    inner: ODPIData,
}

impl View for Data {
    type V = NativeCell;

    closed spec fn view(&self) -> NativeCell {
        self.inner@
    }
}

/// The error of an accessor that does not fit the payload.
pub open spec fn wrong_variant<T>() -> Result<T, ErrorKind> {
    Err(ErrorKind::UncheckedVariantAccess)
}

impl Data {
    /// The cell that is null or not, as `is_null` says, and holds the payload `val`.
    pub fn new(is_null: bool, val: ODPIDataValueUnion) -> (d: Data)
        ensures
            d@ == (NativeCell { is_null, value: val@ }),
    {
        Data { inner: ODPIData { is_null, value: val } }
    }

    /// The accessors of the cell `cell`.
    pub fn from_cell(cell: ODPIData) -> (d: Data)
        ensures
            d@ == cell@,
    {
        Data { inner: cell }
    }

    /// The cell.
    pub fn inner(&self) -> (c: &ODPIData)
        ensures
            c@ == self@,
    {
        &self.inner
    }

    /// Gives up the accessors and hands the cell out.
    pub fn into_cell(self) -> (c: ODPIData)
        ensures
            c@ == self@,
    {
        self.inner
    }

    /// Whether the cell stands for the null value.
    pub fn is_null(&self) -> (r: bool)
        ensures
            r == self@.is_null,
    {
        self.inner.is_null
    }

    /// Marks the cell as null or as not null. The payload stays.
    pub fn set_null(&mut self, is_null: bool)
        ensures
            final(self)@ == (NativeCell { is_null, value: old(self)@.value }),
    {
        self.inner.is_null = is_null;
    }

    /// The representation of the payload.
    pub fn native_type(&self) -> (t: ODPINativeTypeNum)
        ensures
            t == self@.value.native_type(),
    {
        self.inner.native_type()
    }

    /// The payload as a truth value.
    pub fn get_boolean(&self) -> (r: Result<bool, ErrorKind>)
        ensures
            self@.value matches NativeValue::Boolean(v) ==> r == Ok::<bool, ErrorKind>(v),
            !(self@.value is Boolean) ==> r == wrong_variant::<bool>(),
    {
        match &self.inner.value {
            ODPIDataValueUnion::Boolean(v) => Ok(*v),
            _ => Err(ErrorKind::UncheckedVariantAccess),
        }
    }

    /// Makes the cell hold the truth value `val`, not null.
    pub fn set_boolean(&mut self, val: bool)
        ensures
            final(self)@ == (NativeCell { is_null: false, value: NativeValue::Boolean(val) }),
    {
        self.inner = ODPIData { is_null: false, value: ODPIDataValueUnion::Boolean(val) };
    }

    /// The payload as a signed integer.
    pub fn get_int64(&self) -> (r: Result<i64, ErrorKind>)
        ensures
            self@.value matches NativeValue::Int64(v) ==> r == Ok::<i64, ErrorKind>(v),
            !(self@.value is Int64) ==> r == wrong_variant::<i64>(),
    {
        match &self.inner.value {
            ODPIDataValueUnion::Int64(v) => Ok(*v),
            _ => Err(ErrorKind::UncheckedVariantAccess),
        }
    }

    /// Makes the cell hold the signed integer `val`, not null.
    pub fn set_int64(&mut self, val: i64)
        ensures
            final(self)@ == (NativeCell { is_null: false, value: NativeValue::Int64(val) }),
    {
        self.inner = ODPIData { is_null: false, value: ODPIDataValueUnion::Int64(val) };
    }

    /// The payload as an unsigned integer.
    pub fn get_uint64(&self) -> (r: Result<u64, ErrorKind>)
        ensures
            self@.value matches NativeValue::UInt64(v) ==> r == Ok::<u64, ErrorKind>(v),
            !(self@.value is UInt64) ==> r == wrong_variant::<u64>(),
    {
        match &self.inner.value {
            ODPIDataValueUnion::Uint64(v) => Ok(*v),
            _ => Err(ErrorKind::UncheckedVariantAccess),
        }
    }

    /// Makes the cell hold the unsigned integer `val`, not null.
    pub fn set_uint64(&mut self, val: u64)
        ensures
            final(self)@ == (NativeCell { is_null: false, value: NativeValue::UInt64(val) }),
    {
        self.inner = ODPIData { is_null: false, value: ODPIDataValueUnion::Uint64(val) };
    }

    /// The payload as a single-precision number, in the bits of its IEEE 754 encoding.
    pub fn get_float(&self) -> (r: Result<u32, ErrorKind>)
        ensures
            self@.value matches NativeValue::Float32(v) ==> r == Ok::<u32, ErrorKind>(v),
            !(self@.value is Float32) ==> r == wrong_variant::<u32>(),
    {
        match &self.inner.value {
            ODPIDataValueUnion::Float(v) => Ok(*v),
            _ => Err(ErrorKind::UncheckedVariantAccess),
        }
    }

    /// Makes the cell hold the single-precision number with the bits `val`, not null.
    pub fn set_float(&mut self, val: u32)
        ensures
            final(self)@ == (NativeCell { is_null: false, value: NativeValue::Float32(val) }),
    {
        self.inner = ODPIData { is_null: false, value: ODPIDataValueUnion::Float(val) };
    }

    /// The payload as a double-precision number, in the bits of its IEEE 754 encoding.
    pub fn get_double(&self) -> (r: Result<u64, ErrorKind>)
        ensures
            self@.value matches NativeValue::Float64(v) ==> r == Ok::<u64, ErrorKind>(v),
            !(self@.value is Float64) ==> r == wrong_variant::<u64>(),
    {
        match &self.inner.value {
            ODPIDataValueUnion::Double(v) => Ok(*v),
            _ => Err(ErrorKind::UncheckedVariantAccess),
        }
    }

    /// Makes the cell hold the double-precision number with the bits `val`, not null.
    pub fn set_double(&mut self, val: u64)
        ensures
            final(self)@ == (NativeCell { is_null: false, value: NativeValue::Float64(val) }),
    {
        self.inner = ODPIData { is_null: false, value: ODPIDataValueUnion::Double(val) };
    }

    /// The payload as the native handle of a large object.
    pub fn get_lob(&self) -> (r: Result<u64, ErrorKind>)
        ensures
            self@.value matches NativeValue::LobRef(v) ==> r == Ok::<u64, ErrorKind>(v),
            !(self@.value is LobRef) ==> r == wrong_variant::<u64>(),
    {
        match &self.inner.value {
            ODPIDataValueUnion::Lob(v) => Ok(*v),
            _ => Err(ErrorKind::UncheckedVariantAccess),
        }
    }

    /// Makes the cell hold the native handle `val` of a large object, not null.
    pub fn set_lob(&mut self, val: u64)
        ensures
            final(self)@ == (NativeCell { is_null: false, value: NativeValue::LobRef(val) }),
    {
        self.inner = ODPIData { is_null: false, value: ODPIDataValueUnion::Lob(val) };
    }

    /// The payload as the native handle of an object.
    pub fn get_object(&self) -> (r: Result<u64, ErrorKind>)
        ensures
            self@.value matches NativeValue::ObjectRef(v) ==> r == Ok::<u64, ErrorKind>(v),
            !(self@.value is ObjectRef) ==> r == wrong_variant::<u64>(),
    {
        match &self.inner.value {
            ODPIDataValueUnion::Object(v) => Ok(*v),
            _ => Err(ErrorKind::UncheckedVariantAccess),
        }
    }

    /// Makes the cell hold the native handle `val` of an object, not null.
    pub fn set_object(&mut self, val: u64)
        ensures
            final(self)@ == (NativeCell { is_null: false, value: NativeValue::ObjectRef(val) }),
    {
        self.inner = ODPIData { is_null: false, value: ODPIDataValueUnion::Object(val) };
    }

    /// The payload as the native handle of a statement.
    pub fn get_stmt(&self) -> (r: Result<u64, ErrorKind>)
        ensures
            self@.value matches NativeValue::StatementRef(v) ==> r == Ok::<u64, ErrorKind>(v),
            !(self@.value is StatementRef) ==> r == wrong_variant::<u64>(),
    {
        match &self.inner.value {
            ODPIDataValueUnion::Stmt(v) => Ok(*v),
            _ => Err(ErrorKind::UncheckedVariantAccess),
        }
    }

    /// Makes the cell hold the native handle `val` of a statement, not null.
    pub fn set_stmt(&mut self, val: u64)
        ensures
            final(self)@ == (NativeCell { is_null: false, value: NativeValue::StatementRef(val) }),
    {
        self.inner = ODPIData { is_null: false, value: ODPIDataValueUnion::Stmt(val) };
    }

    /// The payload as text. Bytes that are no valid UTF-8 are read with a replacement
    /// character for every invalid sequence.
    pub fn get_string(&self) -> (r: Result<String, ErrorKind>)
        ensures
            self@.value matches NativeValue::ByteString { bytes, .. } ==> (r matches Ok(s) && s@
                == text_of(bytes)),
            !(self@.value is ByteString) ==> r == wrong_variant::<String>(),
    {
        match &self.inner.value {
            ODPIDataValueUnion::Bytes(b) => Ok(text_from_bytes(&b.bytes)),
            _ => Err(ErrorKind::UncheckedVariantAccess),
        }
    }

    /// Makes the cell hold the bytes of `val`, in UTF-8, not null.
    pub fn set_string(&mut self, val: &str)
        ensures
            final(self)@ == (NativeCell {
                is_null: false,
                value: NativeValue::ByteString { bytes: encode_utf8(val@), encoding: "UTF-8"@ },
            }),
    {
        let bytes = bytes_from_text(val);
        let encoding = "UTF-8".to_owned();
        self.inner = ODPIData {
            is_null: false,
            value: ODPIDataValueUnion::Bytes(ODPIBytes { bytes, encoding }),
        };
    }

    /// The payload as a date and time of the host, in UTC. The timestamp that stands for
    /// no time is read as `now`.
    pub fn get_utc(&self, now: NaiveDateTime) -> (r: Result<NaiveDateTime, ErrorKind>)
        ensures
            self@.value matches NativeValue::Timestamp(ts) ==> r == ts.reading(now) && (r is Ok
                <==> ts.spec_is_sentinel() || ts.is_civil()),
            !(self@.value is Timestamp) ==> r == wrong_variant::<NaiveDateTime>(),
    {
        match &self.inner.value {
            ODPIDataValueUnion::Timestamp(ts) => ts.to_utc(now),
            _ => Err(ErrorKind::UncheckedVariantAccess),
        }
    }

    /// The payload as a span of time of the host.
    pub fn get_duration(&self) -> (r: Result<TimeDelta, ErrorKind>)
        ensures
            self@.value matches NativeValue::IntervalDaySecond(iv) ==> (r matches Ok(d) && Some(d)
                == delta_from_parts(
                iv.total_nanos() / 1_000_000_000,
                iv.total_nanos() % 1_000_000_000,
            )),
            !(self@.value is IntervalDaySecond) ==> r == wrong_variant::<TimeDelta>(),
    {
        match &self.inner.value {
            ODPIDataValueUnion::IntervalDS(iv) => Ok(iv.to_duration()),
            _ => Err(ErrorKind::UncheckedVariantAccess),
        }
    }

    /// The payload as an interval of years and months.
    pub fn get_years_months(&self) -> (r: Result<YearsMonths, ErrorKind>)
        ensures
            self@.value matches NativeValue::IntervalYearMonth(iv) ==> (r matches Ok(ym)
                && ym.spec_years() == iv.years && ym.spec_months() == iv.months),
            !(self@.value is IntervalYearMonth) ==> r == wrong_variant::<YearsMonths>(),
    {
        match &self.inner.value {
            ODPIDataValueUnion::IntervalYM(iv) => Ok(YearsMonths::new(iv.years, iv.months)),
            _ => Err(ErrorKind::UncheckedVariantAccess),
        }
    }

    /// Makes the cell hold the interval `val`, not null.
    pub fn set_years_months(&mut self, val: YearsMonths)
        ensures
            final(self)@ == (NativeCell {
                is_null: false,
                value: NativeValue::IntervalYearMonth(
                    ODPIIntervalYM { years: val.spec_years(), months: val.spec_months() },
                ),
            }),
    {
        self.inner = ODPIData {
            is_null: false,
            value: ODPIDataValueUnion::IntervalYM(
                ODPIIntervalYM { years: val.years(), months: val.months() },
            ),
        };
    }

    /// The payload as a truth value.
    pub fn as_boolean(&self) -> (r: Result<bool, ErrorKind>)
        ensures
            self@.value matches NativeValue::Boolean(v) ==> r == Ok::<bool, ErrorKind>(v),
            !(self@.value is Boolean) ==> r == wrong_variant::<bool>(),
    {
        self.get_boolean()
    }

    /// The payload as a signed integer.
    pub fn as_int64(&self) -> (r: Result<i64, ErrorKind>)
        ensures
            self@.value matches NativeValue::Int64(v) ==> r == Ok::<i64, ErrorKind>(v),
            !(self@.value is Int64) ==> r == wrong_variant::<i64>(),
    {
        self.get_int64()
    }

    /// The payload as an unsigned integer.
    pub fn as_uint64(&self) -> (r: Result<u64, ErrorKind>)
        ensures
            self@.value matches NativeValue::UInt64(v) ==> r == Ok::<u64, ErrorKind>(v),
            !(self@.value is UInt64) ==> r == wrong_variant::<u64>(),
    {
        self.get_uint64()
    }

    /// The payload as a single-precision number, in the bits of its IEEE 754 encoding.
    pub fn as_float(&self) -> (r: Result<u32, ErrorKind>)
        ensures
            self@.value matches NativeValue::Float32(v) ==> r == Ok::<u32, ErrorKind>(v),
            !(self@.value is Float32) ==> r == wrong_variant::<u32>(),
    {
        self.get_float()
    }

    /// The payload as a double-precision number, in the bits of its IEEE 754 encoding.
    pub fn as_double(&self) -> (r: Result<u64, ErrorKind>)
        ensures
            self@.value matches NativeValue::Float64(v) ==> r == Ok::<u64, ErrorKind>(v),
            !(self@.value is Float64) ==> r == wrong_variant::<u64>(),
    {
        self.get_double()
    }

    /// The payload as the native handle of an object.
    pub fn as_object(&self) -> (r: Result<u64, ErrorKind>)
        ensures
            self@.value matches NativeValue::ObjectRef(v) ==> r == Ok::<u64, ErrorKind>(v),
            !(self@.value is ObjectRef) ==> r == wrong_variant::<u64>(),
    {
        self.get_object()
    }

    /// The payload as text.
    pub fn as_string(&self) -> (r: Result<String, ErrorKind>)
        ensures
            self@.value matches NativeValue::ByteString { bytes, .. } ==> (r matches Ok(s) && s@
                == text_of(bytes)),
            !(self@.value is ByteString) ==> r == wrong_variant::<String>(),
    {
        self.get_string()
    }

    /// The payload as a date and time of the host, in UTC.
    pub fn as_utc(&self, now: NaiveDateTime) -> (r: Result<NaiveDateTime, ErrorKind>)
        ensures
            self@.value matches NativeValue::Timestamp(ts) ==> r == ts.reading(now) && (r is Ok
                <==> ts.spec_is_sentinel() || ts.is_civil()),
            !(self@.value is Timestamp) ==> r == wrong_variant::<NaiveDateTime>(),
    {
        self.get_utc(now)
    }

    /// The payload as a span of time of the host.
    pub fn as_duration(&self) -> (r: Result<TimeDelta, ErrorKind>)
        ensures
            self@.value matches NativeValue::IntervalDaySecond(iv) ==> (r matches Ok(d) && Some(d)
                == delta_from_parts(
                iv.total_nanos() / 1_000_000_000,
                iv.total_nanos() % 1_000_000_000,
            )),
            !(self@.value is IntervalDaySecond) ==> r == wrong_variant::<TimeDelta>(),
    {
        self.get_duration()
    }

    /// The payload as an interval of years and months.
    pub fn as_years_months(&self) -> (r: Result<YearsMonths, ErrorKind>)
        ensures
            self@.value matches NativeValue::IntervalYearMonth(iv) ==> (r matches Ok(ym)
                && ym.spec_years() == iv.years && ym.spec_months() == iv.months),
            !(self@.value is IntervalYearMonth) ==> r == wrong_variant::<YearsMonths>(),
    {
        self.get_years_months()
    }
}

} // verus!
