//! What holds across the conversions: what a write leaves to be read, and what a read leaves to
//! be written.

use vstd::prelude::*;
use vstd::utf8::{
    decode_utf8, decode_utf8_encode_utf8, encode_utf8_decode_utf8, encode_utf8_valid_utf8,
    valid_utf8,
};
use crate::convert::{
    bytes_value, column_value, driver_value, midnight, plain_value, time_fits, InvalidText,
};
use crate::set::{law_set_members_survive, law_set_text_survives, set_text};
use crate::validate::accepted;
use crate::value::{
    Column, ColumnType, Date, Datetime, DriverModel, Time, Timestamp, ValueModel, Year,
};

verus! {

/// Whether a span of time has its hours below a full day, days being counted apart. This is so of
/// every value but such a span.
pub open spec fn hours_within_day(value: DriverModel) -> bool {
    value matches DriverModel::Time(_, _, hours, _, _, _) ==> hours < 24
}

/// A driver value that is handed to a component and comes back is the value that it was. A span
/// of time must count full days as days: one of no days and 24 hours comes back as one day.
pub proof fn law_plain_value_comes_back(value: DriverModel)
    requires
        time_fits(value),
        hours_within_day(value),
    ensures
        driver_value(plain_value(value)) == value,
{
    match value {
        DriverModel::Bytes(b) => {
            if valid_utf8(b) {
                decode_utf8_encode_utf8(b);
            }
        },
        _ => {},
    }
}

/// What is read from a column and written back is the value that was read, whatever the column.
pub proof fn law_column_value_comes_back(value: DriverModel, column: Column)
    requires
        time_fits(value),
        hours_within_day(value),
    ensures
        column_value(value, column) matches Ok(v) ==> driver_value(v) == value,
{
    match value {
        DriverModel::Bytes(b) => {
            if valid_utf8(b) {
                decode_utf8_encode_utf8(b);
                law_set_text_survives(decode_utf8(b));
            }
        },
        other => law_plain_value_comes_back(other),
    }
}

/// Reading fails only on bytes that are not UTF-8, and only in columns that hold nothing but text.
pub proof fn law_reading_fails_only_on_bad_text(value: DriverModel, column: Column)
    ensures
        column_value(value, column) is Err <==> {
            &&& value matches DriverModel::Bytes(b)
            &&& !valid_utf8(b)
            &&& {
                ||| column.column_type == ColumnType::MYSQL_TYPE_JSON
                ||| column.column_type == ColumnType::MYSQL_TYPE_ENUM
                ||| column.column_type == ColumnType::MYSQL_TYPE_SET
                ||| column.column_type == ColumnType::MYSQL_TYPE_DECIMAL
                ||| column.column_type == ColumnType::MYSQL_TYPE_NEWDECIMAL
            }
        },
{
}

/// What is read as bytes from a column of a string, blob, decimal, JSON, `ENUM`, `SET`, `BIT` or
/// geometry type may be used as a parameter where that type is asked for.
pub proof fn law_read_value_is_accepted(bytes: Seq<u8>, column: Column)
    requires
        ({
            let kind = column.column_type;
            ||| kind == ColumnType::MYSQL_TYPE_STRING
            ||| kind == ColumnType::MYSQL_TYPE_VAR_STRING
            ||| kind == ColumnType::MYSQL_TYPE_BLOB
            ||| kind == ColumnType::MYSQL_TYPE_TINY_BLOB
            ||| kind == ColumnType::MYSQL_TYPE_MEDIUM_BLOB
            ||| kind == ColumnType::MYSQL_TYPE_LONG_BLOB
            ||| kind == ColumnType::MYSQL_TYPE_DECIMAL
            ||| kind == ColumnType::MYSQL_TYPE_NEWDECIMAL
            ||| kind == ColumnType::MYSQL_TYPE_JSON
            ||| kind == ColumnType::MYSQL_TYPE_ENUM
            ||| kind == ColumnType::MYSQL_TYPE_SET
            ||| kind == ColumnType::MYSQL_TYPE_BIT
            ||| kind == ColumnType::MYSQL_TYPE_GEOMETRY
        }),
    ensures
        bytes_value(bytes, column) matches Ok(value) ==> accepted(value, column.column_type),
{
}

/// What is read back after a write means the same to the server as what was written, whatever
/// the value and the column.
pub proof fn law_read_back_means_the_same(value: ValueModel, column: Column)
    ensures
        time_fits(driver_value(value)),
        column_value(driver_value(value), column) matches Ok(read) ==> driver_value(read)
            == driver_value(value),
        driver_value(plain_value(driver_value(value))) == driver_value(value),
{
    law_column_value_comes_back(driver_value(value), column);
    law_plain_value_comes_back(driver_value(value));
}

/// Whether the driver holds a date in full.
pub open spec fn date_fits(date: Date) -> bool {
    date.year < 0x1_0000 && date.month < 0x100 && date.day < 0x100
}

/// Whether the driver holds a time of day in full.
pub open spec fn clock_fits(time: Time) -> bool {
    !time.negative && time.hour < 0x100 && time.minute < 0x100 && time.second < 0x100
}

/// Whether bytes from a column of type `kind` are text of no particular kind where they are
/// readable, and a blob where they are not.
pub open spec fn text_or_blob(kind: ColumnType) -> bool {
    match kind {
        ColumnType::MYSQL_TYPE_JSON
        | ColumnType::MYSQL_TYPE_ENUM
        | ColumnType::MYSQL_TYPE_SET
        | ColumnType::MYSQL_TYPE_DECIMAL
        | ColumnType::MYSQL_TYPE_NEWDECIMAL
        | ColumnType::MYSQL_TYPE_BIT
        | ColumnType::MYSQL_TYPE_GEOMETRY
        | ColumnType::MYSQL_TYPE_TINY_BLOB
        | ColumnType::MYSQL_TYPE_MEDIUM_BLOB
        | ColumnType::MYSQL_TYPE_LONG_BLOB
        | ColumnType::MYSQL_TYPE_BLOB
        | ColumnType::MYSQL_TYPE_STRING
        | ColumnType::MYSQL_TYPE_VAR_STRING
        | ColumnType::MYSQL_TYPE_TINY
        | ColumnType::MYSQL_TYPE_LONG => false,
        _ => true,
    }
}

/// Whether `column` keeps `value` as it is: texts and bytes need a column of their own kind, with
/// the length that they carry; a number must have the narrowest type that holds it; dates and
/// times must fit the driver.
pub open spec fn column_keeps(column: Column, value: ValueModel) -> bool {
    let kind = column.column_type;
    let length = column.column_length;
    match value {
        ValueModel::Null => true,
        ValueModel::Tinyint(_) | ValueModel::TinyintUnsigned(_) => true,
        ValueModel::Smallint(n) => !(i8::MIN <= n <= i8::MAX),
        ValueModel::SmallintUnsigned(n) => n > u8::MAX,
        ValueModel::Int(n) => !(i16::MIN <= n <= i16::MAX),
        ValueModel::IntUnsigned(n) => n > u16::MAX,
        ValueModel::Bigint(n) => !(i32::MIN <= n <= i32::MAX),
        ValueModel::BigintUnsigned(n) => n > u32::MAX,
        ValueModel::Float(_) | ValueModel::Double(_) => true,
        ValueModel::Date(date) => date_fits(date),
        ValueModel::Time(time) => time.minute < 0x100 && time.second < 0x100,
        ValueModel::Datetime(dt) => {
            date_fits(dt.date) && clock_fits(dt.time) && dt.time != midnight()
        },
        ValueModel::Json(_) => kind == ColumnType::MYSQL_TYPE_JSON,
        ValueModel::Enum(_) => kind == ColumnType::MYSQL_TYPE_ENUM,
        ValueModel::SetValue(members) => {
            &&& kind == ColumnType::MYSQL_TYPE_SET
            &&& forall|i: int| 0 <= i < members.len() ==> !(#[trigger] members[i]).contains(',')
            &&& members != seq![Seq::<char>::empty()]
        },
        ValueModel::Decimal(_) => {
            kind == ColumnType::MYSQL_TYPE_DECIMAL || kind == ColumnType::MYSQL_TYPE_NEWDECIMAL
        },
        ValueModel::Bit(n, _) => kind == ColumnType::MYSQL_TYPE_BIT && n == length % 0x100,
        ValueModel::Geometry(_) => kind == ColumnType::MYSQL_TYPE_GEOMETRY,
        ValueModel::Tinyblob(_) => kind == ColumnType::MYSQL_TYPE_TINY_BLOB,
        ValueModel::Mediumblob(_) => kind == ColumnType::MYSQL_TYPE_MEDIUM_BLOB,
        ValueModel::Longblob(_) => kind == ColumnType::MYSQL_TYPE_LONG_BLOB,
        ValueModel::Blob(b) => {
            ||| kind == ColumnType::MYSQL_TYPE_BLOB
            ||| !valid_utf8(b) && (text_or_blob(kind) || kind == ColumnType::MYSQL_TYPE_TINY || kind
                == ColumnType::MYSQL_TYPE_LONG)
        },
        ValueModel::Text(_) => text_or_blob(kind),
        ValueModel::Tinytext(_) => kind == ColumnType::MYSQL_TYPE_TINY,
        ValueModel::Longtext(_) => kind == ColumnType::MYSQL_TYPE_LONG,
        ValueModel::Char(n, _) => {
            kind == ColumnType::MYSQL_TYPE_STRING && n == length && !column.binary()
        },
        ValueModel::Varchar(n, _) => {
            kind == ColumnType::MYSQL_TYPE_VAR_STRING && n == length && !column.binary()
        },
        ValueModel::Binary(n, b) => {
            &&& kind == ColumnType::MYSQL_TYPE_STRING
            &&& n == length
            &&& column.binary() || !valid_utf8(b)
        },
        ValueModel::Varbinary(n, b) => {
            &&& kind == ColumnType::MYSQL_TYPE_VAR_STRING
            &&& n == length
            &&& column.binary() || !valid_utf8(b)
        },
        _ => false,
    }
}

/// What is written reads back as it was written exactly where the column keeps it.
pub proof fn law_written_value_reads_back(value: ValueModel, column: Column)
    ensures
        column_value(driver_value(value), column) == Ok::<ValueModel, InvalidText>(value)
            <==> column_keeps(column, value),
{
    match value {
        ValueModel::Json(s)
        | ValueModel::Enum(s)
        | ValueModel::Decimal(s)
        | ValueModel::Numeric(s)
        | ValueModel::Text(s)
        | ValueModel::Tinytext(s)
        | ValueModel::Mediumtext(s)
        | ValueModel::Longtext(s)
        | ValueModel::Char(_, s)
        | ValueModel::Varchar(_, s) => {
            encode_utf8_valid_utf8(s);
            encode_utf8_decode_utf8(s);
        },
        ValueModel::SetValue(members) => {
            encode_utf8_valid_utf8(set_text(members));
            encode_utf8_decode_utf8(set_text(members));
            law_set_members_survive(members);
        },
        _ => {},
    }
}

/// The number that a value of an integer type, a truth value or a year holds.
pub open spec fn number(value: ValueModel) -> Option<int> {
    match value {
        ValueModel::Tinyint(n) => Some(n as int),
        ValueModel::TinyintUnsigned(n) => Some(n as int),
        ValueModel::Smallint(n) => Some(n as int),
        ValueModel::SmallintUnsigned(n) => Some(n as int),
        ValueModel::Mediumint(n) => Some(n as int),
        ValueModel::MediumintUnsigned(n) => Some(n as int),
        ValueModel::Int(n) => Some(n as int),
        ValueModel::Integer(n) => Some(n as int),
        ValueModel::IntUnsigned(n) => Some(n as int),
        ValueModel::IntegerUnsigned(n) => Some(n as int),
        ValueModel::Bigint(n) => Some(n as int),
        ValueModel::BigintUnsigned(n) => Some(n as int),
        ValueModel::Bool(b) => Some(if b { 1 } else { 0 }),
        ValueModel::Boolean(b) => Some(if b { 1 } else { 0 }),
        ValueModel::Year(Year::YearTwo(y)) => Some(y as int),
        ValueModel::Year(Year::YearFour(y)) => Some(y as int),
        _ => None,
    }
}

/// A number that is written reads back as the same number, though perhaps in a narrower type.
pub proof fn law_number_reads_back(value: ValueModel)
    requires
        number(value) is Some,
    ensures
        number(plain_value(driver_value(value))) == number(value),
{
}

/// A date that is written reads back as it was written.
pub proof fn law_date_reads_back(date: Date)
    requires
        date_fits(date),
    ensures
        plain_value(driver_value(ValueModel::Date(date))) == ValueModel::Date(date),
{
}

/// A span of time that is written reads back as it was written, sign and full days counted in.
pub proof fn law_time_reads_back(time: Time)
    requires
        time.minute < 0x100,
        time.second < 0x100,
    ensures
        time_fits(driver_value(ValueModel::Time(time))),
        plain_value(driver_value(ValueModel::Time(time))) == ValueModel::Time(time),
{
}

/// A date with a time of day that is written reads back as it was written, and so does a
/// timestamp, but for its name. At midnight only the date is left.
pub proof fn law_datetime_reads_back(datetime: Datetime)
    requires
        date_fits(datetime.date),
        clock_fits(datetime.time),
    ensures
        plain_value(driver_value(ValueModel::Datetime(datetime))) == (if datetime.time
            == midnight() {
            ValueModel::Date(datetime.date)
        } else {
            ValueModel::Datetime(datetime)
        }),
        driver_value(ValueModel::Timestamp(Timestamp { datetime })) == driver_value(
            ValueModel::Datetime(datetime),
        ),
{
}

} // verus!
