//! What the driver is handed for what a component hands over, told by the contents of both.

use vstd::prelude::*;
use vstd::utf8::{decode_utf8, encode_utf8_decode_utf8, encode_utf8_valid_utf8, valid_utf8};
use crate::convert::driver_value;
use crate::params::driver_params;
use crate::set::set_text;
use crate::value::{
    driver_values, texts, values, Date, Datetime, DriverValue, MysqlValue, Time, Year,
};

verus! {

/// Null is sent as null, and nothing else is.
pub proof fn law_null_is_sent_as_null(value: MysqlValue, sent: DriverValue)
    requires
        sent@ == driver_value(value@),
    ensures
        value is Null <==> sent is NULL,
{
}

/// A number is sent as the same number, signed or unsigned as its type is. A truth value is sent as
/// one or zero, and a year as the digits that it carries.
pub proof fn law_number_is_sent_as_it_is(value: MysqlValue, sent: DriverValue)
    requires
        sent@ == driver_value(value@),
    ensures
        match value {
            MysqlValue::Tinyint(n) => sent matches DriverValue::Int(m) && m == n,
            MysqlValue::Smallint(n) => sent matches DriverValue::Int(m) && m == n,
            MysqlValue::Mediumint(n) | MysqlValue::Int(n) | MysqlValue::Integer(n) => {
                sent matches DriverValue::Int(m) && m == n
            },
            MysqlValue::Bigint(n) => sent matches DriverValue::Int(m) && m == n,
            MysqlValue::TinyintUnsigned(n) => sent matches DriverValue::UInt(m) && m == n,
            MysqlValue::SmallintUnsigned(n) => sent matches DriverValue::UInt(m) && m == n,
            MysqlValue::MediumintUnsigned(n)
            | MysqlValue::IntUnsigned(n)
            | MysqlValue::IntegerUnsigned(n) => sent matches DriverValue::UInt(m) && m == n,
            MysqlValue::BigintUnsigned(n) => sent matches DriverValue::UInt(m) && m == n,
            MysqlValue::Bool(b) | MysqlValue::Boolean(b) => {
                sent matches DriverValue::Int(m) && (b ==> m == 1) && (!b ==> m == 0)
            },
            MysqlValue::Year(Year::YearTwo(y)) => sent matches DriverValue::UInt(m) && m == y,
            MysqlValue::Year(Year::YearFour(y)) => sent matches DriverValue::UInt(m) && m == y,
            _ => true,
        },
{
}

/// A floating point number is sent with its mantissa, exponent and sign, a single one as such and
/// the others in double precision.
pub proof fn law_float_is_sent_in_parts(value: MysqlValue, sent: DriverValue)
    requires
        sent@ == driver_value(value@),
    ensures
        match value {
            MysqlValue::Float(parts) => sent matches DriverValue::Float(f) && f.0 == parts.0 && f.1
                == parts.1 && f.2 == parts.2,
            MysqlValue::Double(parts) | MysqlValue::Real(parts) => sent matches DriverValue::Double(
                f,
            ) && f.0 == parts.0 && f.1 == parts.1 && f.2 == parts.2,
            _ => true,
        },
{
}

/// Whatever kind of text a value is, what is sent is bytes, and these decode to the text that the
/// value carries.
pub proof fn law_text_is_sent_as_utf8(value: MysqlValue, sent: DriverValue)
    requires
        sent@ == driver_value(value@),
    ensures
        match value {
            MysqlValue::Decimal(s)
            | MysqlValue::Numeric(s)
            | MysqlValue::Text(s)
            | MysqlValue::Tinytext(s)
            | MysqlValue::Mediumtext(s)
            | MysqlValue::Longtext(s)
            | MysqlValue::Json(s)
            | MysqlValue::Enum(s) => {
                &&& sent matches DriverValue::Bytes(b)
                &&& valid_utf8(b@)
                &&& decode_utf8(b@) == s@
            },
            MysqlValue::Char(c) | MysqlValue::Varchar(c) => {
                &&& sent matches DriverValue::Bytes(b)
                &&& valid_utf8(b@)
                &&& decode_utf8(b@) == c.1@
            },
            _ => true,
        },
{
    match value {
        MysqlValue::Decimal(s)
        | MysqlValue::Numeric(s)
        | MysqlValue::Text(s)
        | MysqlValue::Tinytext(s)
        | MysqlValue::Mediumtext(s)
        | MysqlValue::Longtext(s)
        | MysqlValue::Json(s)
        | MysqlValue::Enum(s) => {
            encode_utf8_valid_utf8(s@);
            encode_utf8_decode_utf8(s@);
        },
        MysqlValue::Char(c) | MysqlValue::Varchar(c) => {
            encode_utf8_valid_utf8(c.1@);
            encode_utf8_decode_utf8(c.1@);
        },
        _ => {},
    }
}

/// A set is sent as bytes that decode to the text that lists its members, in order.
pub proof fn law_set_is_sent_as_list(value: MysqlValue, sent: DriverValue)
    requires
        sent@ == driver_value(value@),
    ensures
        value matches MysqlValue::SetValue(members) ==> {
            &&& sent matches DriverValue::Bytes(b)
            &&& valid_utf8(b@)
            &&& decode_utf8(b@) == set_text(Seq::new(members@.len(), |i: int| members@[i]@))
        },
{
    if let MysqlValue::SetValue(members) = value {
        let listed = Seq::new(members@.len(), |i: int| members@[i]@);
        assert(texts(members@) =~= listed);
        encode_utf8_valid_utf8(set_text(listed));
        encode_utf8_decode_utf8(set_text(listed));
    }
}

/// Whatever kind of bytes a value is, bits, a blob or any geometry, what is sent is the bytes that
/// the value carries.
pub proof fn law_bytes_are_sent_as_they_are(value: MysqlValue, sent: DriverValue)
    requires
        sent@ == driver_value(value@),
    ensures
        match value {
            MysqlValue::Bit(bits) => sent matches DriverValue::Bytes(b) && b@ == bits.1@,
            MysqlValue::Binary(bytes) | MysqlValue::Varbinary(bytes) => {
                sent matches DriverValue::Bytes(b) && b@ == bytes.1@
            },
            MysqlValue::Blob(bytes)
            | MysqlValue::Tinyblob(bytes)
            | MysqlValue::Mediumblob(bytes)
            | MysqlValue::Longblob(bytes)
            | MysqlValue::Geometry(bytes)
            | MysqlValue::PointGeom(bytes)
            | MysqlValue::Linestring(bytes)
            | MysqlValue::Polygon(bytes)
            | MysqlValue::Multipoint(bytes)
            | MysqlValue::Multilinestring(bytes)
            | MysqlValue::Multipolygon(bytes)
            | MysqlValue::Geometrycollection(bytes) => {
                sent matches DriverValue::Bytes(b) && b@ == bytes@
            },
            _ => true,
        },
{
}

/// Whether `sent` holds every field of a date and of a time of day in its place: the lowest sixteen
/// bits of the year, the microseconds in full, and the lowest eight bits of every other field.
pub open spec fn holds_date_and_time(sent: DriverValue, date: Date, time: Time) -> bool {
    &&& sent matches DriverValue::Date(year, month, day, hour, minute, second, micro)
    &&& year == date.year % 0x1_0000
    &&& month == date.month % 0x100
    &&& day == date.day % 0x100
    &&& hour == time.hour % 0x100
    &&& minute == time.minute % 0x100
    &&& second == time.second % 0x100
    &&& micro == time.microsecond
}

/// A date with a time of day is sent field by field, and so is a timestamp.
pub proof fn law_datetime_is_sent_field_by_field(value: MysqlValue, sent: DriverValue)
    requires
        sent@ == driver_value(value@),
    ensures
        value matches MysqlValue::Datetime(dt) ==> holds_date_and_time(sent, dt.date, dt.time),
        value matches MysqlValue::Timestamp(ts) ==> holds_date_and_time(
            sent,
            ts.datetime.date,
            ts.datetime.time,
        ),
{
}

/// A date with a time of day that the driver has room for, or such a timestamp, is sent with each
/// field as it is.
pub proof fn law_fitting_datetime_is_sent_unchanged(
    value: MysqlValue,
    datetime: Datetime,
    sent: DriverValue,
)
    requires
        sent@ == driver_value(value@),
        value matches MysqlValue::Datetime(dt) && dt == datetime || (
        value matches MysqlValue::Timestamp(ts) && ts.datetime == datetime),
        datetime.date.year < 0x1_0000,
        datetime.date.month < 0x100,
        datetime.date.day < 0x100,
        datetime.time.hour < 0x100,
        datetime.time.minute < 0x100,
        datetime.time.second < 0x100,
    ensures
        sent matches DriverValue::Date(year, month, day, hour, minute, second, micro) && year
            == datetime.date.year && month == datetime.date.month && day == datetime.date.day
            && hour == datetime.time.hour && minute == datetime.time.minute && second
            == datetime.time.second && micro == datetime.time.microsecond,
{
}

/// A date alone is sent as that date at midnight.
pub proof fn law_date_is_sent_at_midnight(value: MysqlValue, sent: DriverValue)
    requires
        sent@ == driver_value(value@),
    ensures
        value matches MysqlValue::Date(date) ==> {
            &&& sent matches DriverValue::Date(year, month, day, hour, minute, second, micro)
            &&& year == date.year % 0x1_0000
            &&& month == date.month % 0x100
            &&& day == date.day % 0x100
            &&& hour == 0 && minute == 0 && second == 0 && micro == 0
        },
{
}

/// A span of time is sent with its sign, minutes, seconds and microseconds, and with its hours as
/// full days of 24 hours and what is left of them.
pub proof fn law_time_is_sent_field_by_field(value: MysqlValue, sent: DriverValue)
    requires
        sent@ == driver_value(value@),
    ensures
        value matches MysqlValue::Time(time) ==> {
            &&& sent matches DriverValue::Time(negative, days, hours, minutes, seconds, micros)
            &&& negative == time.negative
            &&& hours < 24
            &&& 24 * days + hours == time.hour
            &&& minutes == time.minute % 0x100
            &&& seconds == time.second % 0x100
            &&& micros == time.microsecond
        },
{
}

/// As many parameters are sent as there are, each in its place and in the driver's form.
pub proof fn law_params_are_sent_in_order(params: Seq<MysqlValue>, sent: Seq<DriverValue>)
    requires
        driver_values(sent) == driver_params(values(params)),
    ensures
        sent.len() == params.len(),
        forall|i: int|
            0 <= i < params.len() ==> (#[trigger] sent[i])@ == driver_value(params[i]@),
{
    assert(driver_values(sent).len() == sent.len());
    assert forall|i: int| 0 <= i < params.len() implies (#[trigger] sent[i])@ == driver_value(
        params[i]@,
    ) by {
        assert(driver_values(sent)[i] == sent[i]@);
        assert(values(params)[i] == params[i]@);
        assert(driver_params(values(params))[i] == driver_value(values(params)[i]));
    }
}

} // verus!
