//! Conversion of values between components and the MySQL driver.

use vstd::prelude::*;
use vstd::utf8::{decode_utf8, encode_utf8, valid_utf8};
use crate::bits::{low_u16, low_u8};
use crate::set::{format_mysql_set, parse_mysql_set, set_members, set_text};
use crate::text::{is_whitespace, to_chars, utf8_bytes, whitespace};
use crate::value::{
    Column, ColumnType, Date, Datetime, DriverModel, DriverValue, MysqlValue, Time, ValueModel,
    Year,
};

verus! {

/// Whether the first character that is not whitespace opens a JSON object or array.
pub open spec fn json_like(text: Seq<char>) -> bool {
    exists|i: int|
        0 <= i < text.len() && (#[trigger] text[i] == '{' || text[i] == '[') && forall|j: int|
            0 <= j < i ==> whitespace(#[trigger] text[j])
}

/// Whether a character may occur in a decimal number.
pub open spec fn decimal_char(c: char) -> bool {
    '0' <= c <= '9' || c == '.' || c == '-' || c == '+' || c == 'e' || c == 'E'
}

/// Whether a text is made of the characters of decimal numbers and holds a decimal point.
pub open spec fn decimal_like(text: Seq<char>) -> bool {
    &&& forall|i: int| 0 <= i < text.len() ==> decimal_char(#[trigger] text[i])
    &&& text.contains('.')
}

/// The value that a text stands for when nothing is known of its column.
pub open spec fn text_value(text: Seq<char>) -> ValueModel {
    if json_like(text) {
        ValueModel::Json(text)
    } else if decimal_like(text) {
        ValueModel::Decimal(text)
    } else {
        ValueModel::Text(text)
    }
}

/// A signed number in the narrowest type that holds it.
pub open spec fn narrowest_signed(n: i64) -> ValueModel {
    if i8::MIN <= n <= i8::MAX {
        ValueModel::Tinyint(n as i8)
    } else if i16::MIN <= n <= i16::MAX {
        ValueModel::Smallint(n as i16)
    } else if i32::MIN <= n <= i32::MAX {
        ValueModel::Int(n as i32)
    } else {
        ValueModel::Bigint(n)
    }
}

/// An unsigned number in the narrowest type that holds it.
pub open spec fn narrowest_unsigned(n: u64) -> ValueModel {
    if n <= u8::MAX {
        ValueModel::TinyintUnsigned(n as u8)
    } else if n <= u16::MAX {
        ValueModel::SmallintUnsigned(n as u16)
    } else if n <= u32::MAX {
        ValueModel::IntUnsigned(n as u32)
    } else {
        ValueModel::BigintUnsigned(n)
    }
}

/// Whether the hours of a span of time, days counted in, can be held in 32 bits. This is so of
/// every value but such a span.
pub open spec fn time_fits(value: DriverModel) -> bool {
    value matches DriverModel::Time(_, days, hours, _, _, _) ==> days * 24 + hours <= u32::MAX
}

/// The value that a driver value stands for when nothing is known of its column.
pub open spec fn plain_value(value: DriverModel) -> ValueModel {
    match value {
        DriverModel::NULL => ValueModel::Null,
        DriverModel::Bytes(b) => if valid_utf8(b) {
            text_value(decode_utf8(b))
        } else {
            ValueModel::Blob(b)
        },
        DriverModel::Int(n) => narrowest_signed(n),
        DriverModel::UInt(n) => narrowest_unsigned(n),
        DriverModel::Float(f) => ValueModel::Float(f),
        DriverModel::Double(f) => ValueModel::Double(f),
        DriverModel::Date(year, month, day, hour, minute, second, micro) => {
            let date = Date { year: year as u32, month: month as u32, day: day as u32 };
            let time = Time {
                negative: false,
                hour: hour as u32,
                minute: minute as u32,
                second: second as u32,
                microsecond: micro,
            };
            if hour == 0 && minute == 0 && second == 0 && micro == 0 {
                ValueModel::Date(date)
            } else {
                ValueModel::Datetime(Datetime { date, time })
            }
        },
        DriverModel::Time(negative, days, hours, minutes, seconds, micros) => ValueModel::Time(
            Time {
                negative,
                hour: (days * 24 + hours) as u32,
                minute: minutes as u32,
                second: seconds as u32,
                microsecond: micros,
            },
        ),
    }
}

/// The driver's form of a date and a time of day: as much of each field as the driver holds.
pub open spec fn driver_date(date: Date, time: Time) -> DriverModel {
    DriverModel::Date(
        (date.year % 0x1_0000) as u16,
        (date.month % 0x100) as u8,
        (date.day % 0x100) as u8,
        (time.hour % 0x100) as u8,
        (time.minute % 0x100) as u8,
        (time.second % 0x100) as u8,
        time.microsecond,
    )
}

/// Midnight.
pub open spec fn midnight() -> Time {
    Time { negative: false, hour: 0, minute: 0, second: 0, microsecond: 0 }
}

/// The driver's form of a value.
pub open spec fn driver_value(value: ValueModel) -> DriverModel {
    match value {
        ValueModel::Null => DriverModel::NULL,
        ValueModel::Tinyint(n) => DriverModel::Int(n as i64),
        ValueModel::TinyintUnsigned(n) => DriverModel::UInt(n as u64),
        ValueModel::Smallint(n) => DriverModel::Int(n as i64),
        ValueModel::SmallintUnsigned(n) => DriverModel::UInt(n as u64),
        ValueModel::Mediumint(n) => DriverModel::Int(n as i64),
        ValueModel::MediumintUnsigned(n) => DriverModel::UInt(n as u64),
        ValueModel::Int(n) => DriverModel::Int(n as i64),
        ValueModel::Integer(n) => DriverModel::Int(n as i64),
        ValueModel::IntUnsigned(n) => DriverModel::UInt(n as u64),
        ValueModel::IntegerUnsigned(n) => DriverModel::UInt(n as u64),
        ValueModel::Bigint(n) => DriverModel::Int(n),
        ValueModel::BigintUnsigned(n) => DriverModel::UInt(n),
        ValueModel::Decimal(s) => DriverModel::Bytes(encode_utf8(s)),
        ValueModel::Numeric(s) => DriverModel::Bytes(encode_utf8(s)),
        ValueModel::Float(f) => DriverModel::Float(f),
        ValueModel::Double(f) => DriverModel::Double(f),
        ValueModel::Real(f) => DriverModel::Double(f),
        ValueModel::Bit(_, b) => DriverModel::Bytes(b),
        ValueModel::Bool(b) => DriverModel::Int(if b { 1 } else { 0 }),
        ValueModel::Boolean(b) => DriverModel::Int(if b { 1 } else { 0 }),
        ValueModel::Date(d) => driver_date(d, midnight()),
        ValueModel::Time(t) => DriverModel::Time(
            t.negative,
            t.hour / 24,
            (t.hour % 24) as u8,
            (t.minute % 0x100) as u8,
            (t.second % 0x100) as u8,
            t.microsecond,
        ),
        ValueModel::Datetime(dt) => driver_date(dt.date, dt.time),
        ValueModel::Timestamp(ts) => driver_date(ts.datetime.date, ts.datetime.time),
        ValueModel::Year(Year::YearTwo(y)) => DriverModel::UInt(y as u64),
        ValueModel::Year(Year::YearFour(y)) => DriverModel::UInt(y as u64),
        ValueModel::Char(_, s) => DriverModel::Bytes(encode_utf8(s)),
        ValueModel::Varchar(_, s) => DriverModel::Bytes(encode_utf8(s)),
        ValueModel::Text(s) => DriverModel::Bytes(encode_utf8(s)),
        ValueModel::Tinytext(s) => DriverModel::Bytes(encode_utf8(s)),
        ValueModel::Mediumtext(s) => DriverModel::Bytes(encode_utf8(s)),
        ValueModel::Longtext(s) => DriverModel::Bytes(encode_utf8(s)),
        ValueModel::Binary(_, b) => DriverModel::Bytes(b),
        ValueModel::Varbinary(_, b) => DriverModel::Bytes(b),
        ValueModel::Blob(b) => DriverModel::Bytes(b),
        ValueModel::Tinyblob(b) => DriverModel::Bytes(b),
        ValueModel::Mediumblob(b) => DriverModel::Bytes(b),
        ValueModel::Longblob(b) => DriverModel::Bytes(b),
        ValueModel::Json(s) => DriverModel::Bytes(encode_utf8(s)),
        ValueModel::Enum(s) => DriverModel::Bytes(encode_utf8(s)),
        ValueModel::SetValue(members) => DriverModel::Bytes(encode_utf8(set_text(members))),
        ValueModel::Geometry(b) => DriverModel::Bytes(b),
        ValueModel::PointGeom(b) => DriverModel::Bytes(b),
        ValueModel::Linestring(b) => DriverModel::Bytes(b),
        ValueModel::Polygon(b) => DriverModel::Bytes(b),
        ValueModel::Multipoint(b) => DriverModel::Bytes(b),
        ValueModel::Multilinestring(b) => DriverModel::Bytes(b),
        ValueModel::Multipolygon(b) => DriverModel::Bytes(b),
        ValueModel::Geometrycollection(b) => DriverModel::Bytes(b),
    }
}

fn is_json_like(chars: &Vec<char>) -> (r: bool)
    ensures
        r == json_like(chars@),
{
    for i in 0..chars.len()
        invariant
            forall|j: int| 0 <= j < i ==> whitespace(#[trigger] chars@[j]),
    {
        let c: char = chars[i];
        if !is_whitespace(c) {
            proof {
                assert(!whitespace(chars@[i as int]));
                if json_like(chars@) {
                    let k = choose|k: int|
                        0 <= k < chars@.len() && (#[trigger] chars@[k] == '{' || chars@[k] == '[')
                            && forall|j: int| 0 <= j < k ==> whitespace(#[trigger] chars@[j]);
                    assert(k <= i);
                    assert(!whitespace(chars@[k]));
                    assert(k == i);
                }
            }
            return c == '{' || c == '[';
        }
    }
    proof {
        if json_like(chars@) {
            let k = choose|k: int|
                0 <= k < chars@.len() && (#[trigger] chars@[k] == '{' || chars@[k] == '[')
                    && forall|j: int| 0 <= j < k ==> whitespace(#[trigger] chars@[j]);
            assert(whitespace(chars@[k]));
        }
    }
    false
}

fn is_decimal_like(chars: &Vec<char>) -> (r: bool)
    ensures
        r == decimal_like(chars@),
{
    let mut point: bool = false;
    for i in 0..chars.len()
        invariant
            forall|j: int| 0 <= j < i ==> decimal_char(#[trigger] chars@[j]),
            point == exists|j: int| 0 <= j < i && #[trigger] chars@[j] == '.',
    {
        let c: char = chars[i];
        if !(('0' <= c && c <= '9') || c == '.' || c == '-' || c == '+' || c == 'e' || c == 'E') {
            assert(!decimal_char(chars@[i as int]));
            return false;
        }
        if c == '.' {
            assert(chars@[i as int] == '.');
            point = true;
        }
    }
    point
}

/// The value that a text stands for when nothing is known of its column: JSON if it opens like an
/// object or an array, else a decimal number if it looks like one, else text.
pub fn classify_text(text: String) -> (value: MysqlValue)
    ensures
        value@ == text_value(text@),
{
    let chars: Vec<char> = to_chars(text.as_str());
    if is_json_like(&chars) {
        MysqlValue::Json(text)
    } else if is_decimal_like(&chars) {
        MysqlValue::Decimal(text)
    } else {
        MysqlValue::Text(text)
    }
}

impl DriverValue {
    /// Whether the hours of a span of time, days counted in, can be held in 32 bits. This is so of
    /// every value but such a span.
    pub fn time_fits(&self) -> (r: bool)
        ensures
            r == time_fits(self@),
    {
        match self {
            DriverValue::Time(_, days, hours, _, _, _) => {
                (*days as u64) * 24 + (*hours as u64) <= u32::MAX as u64
            },
            _ => true,
        }
    }

    /// The driver's form of a value.
    pub fn from_value(value: MysqlValue) -> (r: DriverValue)
        ensures
            r@ == driver_value(value@),
    {
        match value {
            MysqlValue::Null => DriverValue::NULL,
            MysqlValue::Tinyint(n) => DriverValue::Int(n as i64),
            MysqlValue::TinyintUnsigned(n) => DriverValue::UInt(n as u64),
            MysqlValue::Smallint(n) => DriverValue::Int(n as i64),
            MysqlValue::SmallintUnsigned(n) => DriverValue::UInt(n as u64),
            MysqlValue::Mediumint(n) => DriverValue::Int(n as i64),
            MysqlValue::MediumintUnsigned(n) => DriverValue::UInt(n as u64),
            MysqlValue::Int(n) | MysqlValue::Integer(n) => DriverValue::Int(n as i64),
            MysqlValue::IntUnsigned(n) | MysqlValue::IntegerUnsigned(n) => DriverValue::UInt(
                n as u64,
            ),
            MysqlValue::Bigint(n) => DriverValue::Int(n),
            MysqlValue::BigintUnsigned(n) => DriverValue::UInt(n),
            MysqlValue::Decimal(s) | MysqlValue::Numeric(s) => DriverValue::Bytes(utf8_bytes(&s)),
            MysqlValue::Float(f) => DriverValue::Float(f),
            MysqlValue::Double(f) | MysqlValue::Real(f) => DriverValue::Double(f),
            MysqlValue::Bit((_, bytes)) => DriverValue::Bytes(bytes),
            MysqlValue::Bool(b) | MysqlValue::Boolean(b) => DriverValue::Int(
                if b {
                    1
                } else {
                    0
                },
            ),
            MysqlValue::Date(d) => DriverValue::Date(
                low_u16(d.year),
                low_u8(d.month),
                low_u8(d.day),
                0,
                0,
                0,
                0,
            ),
            MysqlValue::Time(t) => DriverValue::Time(
                t.negative,
                t.hour / 24,
                (t.hour % 24) as u8,
                low_u8(t.minute),
                low_u8(t.second),
                t.microsecond,
            ),
            MysqlValue::Datetime(dt) => Self::from_datetime(dt),
            // MySQL handles the conversion to UTC itself, so a timestamp is a datetime.
            MysqlValue::Timestamp(ts) => Self::from_datetime(ts.datetime),
            MysqlValue::Year(year) => match year {
                Year::YearTwo(y) => DriverValue::UInt(y as u64),
                Year::YearFour(y) => DriverValue::UInt(y as u64),
            },
            MysqlValue::Char((_, s)) | MysqlValue::Varchar((_, s)) => DriverValue::Bytes(
                utf8_bytes(&s),
            ),
            MysqlValue::Text(s)
            | MysqlValue::Tinytext(s)
            | MysqlValue::Mediumtext(s)
            | MysqlValue::Longtext(s) => DriverValue::Bytes(utf8_bytes(&s)),
            MysqlValue::Binary((_, bytes)) | MysqlValue::Varbinary((_, bytes)) => {
                DriverValue::Bytes(bytes)
            },
            MysqlValue::Blob(bytes)
            | MysqlValue::Tinyblob(bytes)
            | MysqlValue::Mediumblob(bytes)
            | MysqlValue::Longblob(bytes) => DriverValue::Bytes(bytes),
            MysqlValue::Json(s) | MysqlValue::Enum(s) => DriverValue::Bytes(utf8_bytes(&s)),
            MysqlValue::SetValue(set) => DriverValue::Bytes(
                utf8_bytes(&format_mysql_set(set.as_slice())),
            ),
            MysqlValue::Geometry(wkb)
            | MysqlValue::PointGeom(wkb)
            | MysqlValue::Linestring(wkb)
            | MysqlValue::Polygon(wkb)
            | MysqlValue::Multipoint(wkb)
            | MysqlValue::Multilinestring(wkb)
            | MysqlValue::Multipolygon(wkb)
            | MysqlValue::Geometrycollection(wkb) => DriverValue::Bytes(wkb),
        }
    }

    fn from_datetime(datetime: Datetime) -> (r: DriverValue)
        ensures
            r@ == driver_date(datetime.date, datetime.time),
    {
        DriverValue::Date(
            low_u16(datetime.date.year),
            low_u8(datetime.date.month),
            low_u8(datetime.date.day),
            low_u8(datetime.time.hour),
            low_u8(datetime.time.minute),
            low_u8(datetime.time.second),
            datetime.time.microsecond,
        )
    }
}

impl MysqlValue {
    /// The value that a driver value stands for when nothing is known of its column.
    pub fn from_driver(value: DriverValue) -> (r: MysqlValue)
        requires
            time_fits(value@),
        ensures
            r@ == plain_value(value@),
    {
        match value {
            DriverValue::NULL => MysqlValue::Null,
            DriverValue::Bytes(bytes) => match String::from_utf8(bytes.clone()) {
                Ok(s) => classify_text(s),
                Err(_) => MysqlValue::Blob(bytes),
            },
            DriverValue::Int(n) => {
                if n >= i8::MIN as i64 && n <= i8::MAX as i64 {
                    MysqlValue::Tinyint(n as i8)
                } else if n >= i16::MIN as i64 && n <= i16::MAX as i64 {
                    MysqlValue::Smallint(n as i16)
                } else if n >= i32::MIN as i64 && n <= i32::MAX as i64 {
                    MysqlValue::Int(n as i32)
                } else {
                    MysqlValue::Bigint(n)
                }
            },
            DriverValue::UInt(n) => {
                if n <= u8::MAX as u64 {
                    MysqlValue::TinyintUnsigned(n as u8)
                } else if n <= u16::MAX as u64 {
                    MysqlValue::SmallintUnsigned(n as u16)
                } else if n <= u32::MAX as u64 {
                    MysqlValue::IntUnsigned(n as u32)
                } else {
                    MysqlValue::BigintUnsigned(n)
                }
            },
            DriverValue::Float(f) => MysqlValue::Float(f),
            DriverValue::Double(f) => MysqlValue::Double(f),
            DriverValue::Date(year, month, day, hour, minute, second, micro) => {
                let date = Date { year: year as u32, month: month as u32, day: day as u32 };
                if hour == 0 && minute == 0 && second == 0 && micro == 0 {
                    MysqlValue::Date(date)
                } else {
                    let time = Time {
                        negative: false,
                        hour: hour as u32,
                        minute: minute as u32,
                        second: second as u32,
                        microsecond: micro,
                    };
                    MysqlValue::Datetime(Datetime { date, time })
                }
            },
            DriverValue::Time(negative, days, hours, minutes, seconds, microseconds) => {
                let total_hours: u32 = days * 24 + hours as u32;
                MysqlValue::Time(
                    Time {
                        negative,
                        hour: total_hours,
                        minute: minutes as u32,
                        second: seconds as u32,
                        microsecond: microseconds,
                    },
                )
            },
        }
    }
}

/// A column whose contents must be text, but were not valid UTF-8.
#[derive(Clone, Copy, Debug, PartialEq, Eq, Structural)]
pub enum InvalidText {
    JsonColumn,
    EnumColumn,
    SetColumn,
    DecimalColumn,
}

impl InvalidText {
    /// The words in which the failure is reported.
    pub open spec fn text(self) -> Seq<char> {
        match self {
            InvalidText::JsonColumn => "Failed to convert JSON bytes to UTF-8"@,
            InvalidText::EnumColumn => "Failed to convert ENUM bytes to UTF-8"@,
            InvalidText::SetColumn => "Failed to convert SET bytes to UTF-8"@,
            InvalidText::DecimalColumn => "Failed to convert DECIMAL bytes to UTF-8"@,
        }
    }

    /// The words in which the failure is reported.
    pub fn message(&self) -> (r: String)
        ensures
            r@ == self.text(),
    {
        match self {
            InvalidText::JsonColumn => "Failed to convert JSON bytes to UTF-8".to_owned(),
            InvalidText::EnumColumn => "Failed to convert ENUM bytes to UTF-8".to_owned(),
            InvalidText::SetColumn => "Failed to convert SET bytes to UTF-8".to_owned(),
            InvalidText::DecimalColumn => "Failed to convert DECIMAL bytes to UTF-8".to_owned(),
        }
    }
}

/// The value that bytes from `column` stand for, or the failure to read them as text.
pub open spec fn bytes_value(bytes: Seq<u8>, column: Column) -> Result<ValueModel, InvalidText> {
    let readable = valid_utf8(bytes);
    let text = decode_utf8(bytes);
    let length = column.column_length;
    match column.column_type {
        // Always text.
        ColumnType::MYSQL_TYPE_JSON => if readable {
            Ok(ValueModel::Json(text))
        } else {
            Err(InvalidText::JsonColumn)
        },
        ColumnType::MYSQL_TYPE_ENUM => if readable {
            Ok(ValueModel::Enum(text))
        } else {
            Err(InvalidText::EnumColumn)
        },
        ColumnType::MYSQL_TYPE_SET => if readable {
            Ok(ValueModel::SetValue(set_members(text)))
        } else {
            Err(InvalidText::SetColumn)
        },
        ColumnType::MYSQL_TYPE_DECIMAL | ColumnType::MYSQL_TYPE_NEWDECIMAL => if readable {
            Ok(ValueModel::Decimal(text))
        } else {
            Err(InvalidText::DecimalColumn)
        },
        // Never text.
        ColumnType::MYSQL_TYPE_BIT => Ok(ValueModel::Bit((length % 0x100) as u8, bytes)),
        ColumnType::MYSQL_TYPE_GEOMETRY => Ok(ValueModel::Geometry(bytes)),
        ColumnType::MYSQL_TYPE_TINY_BLOB => Ok(ValueModel::Tinyblob(bytes)),
        ColumnType::MYSQL_TYPE_MEDIUM_BLOB => Ok(ValueModel::Mediumblob(bytes)),
        ColumnType::MYSQL_TYPE_LONG_BLOB => Ok(ValueModel::Longblob(bytes)),
        ColumnType::MYSQL_TYPE_BLOB => Ok(ValueModel::Blob(bytes)),
        // Text where it is readable and the column is not marked as binary.
        ColumnType::MYSQL_TYPE_STRING => if readable && !column.binary() {
            Ok(ValueModel::Char(length, text))
        } else {
            Ok(ValueModel::Binary(length, bytes))
        },
        ColumnType::MYSQL_TYPE_VAR_STRING => if readable && !column.binary() {
            Ok(ValueModel::Varchar(length, text))
        } else {
            Ok(ValueModel::Varbinary(length, bytes))
        },
        // Text where it is readable.
        ColumnType::MYSQL_TYPE_TINY => if readable {
            Ok(ValueModel::Tinytext(text))
        } else {
            Ok(ValueModel::Blob(bytes))
        },
        ColumnType::MYSQL_TYPE_LONG => if readable {
            Ok(ValueModel::Longtext(text))
        } else {
            Ok(ValueModel::Blob(bytes))
        },
        _ => if readable {
            Ok(ValueModel::Text(text))
        } else {
            Ok(ValueModel::Blob(bytes))
        },
    }
}

/// The value that a driver value from `column` stands for. Only bytes depend on the column.
pub open spec fn column_value(value: DriverModel, column: Column) -> Result<
    ValueModel,
    InvalidText,
> {
    match value {
        DriverModel::Bytes(bytes) => bytes_value(bytes, column),
        other => Ok(plain_value(other)),
    }
}

/// A conversion's result, with the value taken by what it stands for.
pub open spec fn converted(r: Result<MysqlValue, InvalidText>) -> Result<ValueModel, InvalidText> {
    match r {
        Ok(value) => Ok(value@),
        Err(e) => Err(e),
    }
}

/// Enhanced conversion from MySQL driver value to component value using column metadata.
pub fn mysql_value_to_wit_value(mysql_val: DriverValue, column: &Column) -> (r: Result<
    MysqlValue,
    InvalidText,
>)
    requires
        time_fits(mysql_val@),
    ensures
        converted(r) == column_value(mysql_val@, *column),
{
    match mysql_val {
        DriverValue::NULL => Ok(MysqlValue::Null),
        // Use column type information for accurate conversion
        DriverValue::Bytes(bytes) => match column.column_type {
            ColumnType::MYSQL_TYPE_JSON => match String::from_utf8(bytes) {
                Ok(json_str) => Ok(MysqlValue::Json(json_str)),
                Err(_) => Err(InvalidText::JsonColumn),
            },
            ColumnType::MYSQL_TYPE_ENUM => match String::from_utf8(bytes) {
                Ok(enum_str) => Ok(MysqlValue::Enum(enum_str)),
                Err(_) => Err(InvalidText::EnumColumn),
            },
            ColumnType::MYSQL_TYPE_SET => match String::from_utf8(bytes) {
                Ok(set_str) => Ok(MysqlValue::SetValue(parse_mysql_set(set_str.as_str()))),
                Err(_) => Err(InvalidText::SetColumn),
            },
            ColumnType::MYSQL_TYPE_DECIMAL | ColumnType::MYSQL_TYPE_NEWDECIMAL => {
                match String::from_utf8(bytes) {
                    Ok(decimal_str) => Ok(MysqlValue::Decimal(decimal_str)),
                    Err(_) => Err(InvalidText::DecimalColumn),
                }
            },
            ColumnType::MYSQL_TYPE_BIT => {
                let bit_length: u8 = low_u8(column.column_length);
                Ok(MysqlValue::Bit((bit_length, bytes)))
            },
            ColumnType::MYSQL_TYPE_GEOMETRY => Ok(MysqlValue::Geometry(bytes)),
            ColumnType::MYSQL_TYPE_TINY_BLOB => Ok(MysqlValue::Tinyblob(bytes)),
            ColumnType::MYSQL_TYPE_MEDIUM_BLOB => Ok(MysqlValue::Mediumblob(bytes)),
            ColumnType::MYSQL_TYPE_LONG_BLOB => Ok(MysqlValue::Longblob(bytes)),
            ColumnType::MYSQL_TYPE_BLOB => Ok(MysqlValue::Blob(bytes)),
            ColumnType::MYSQL_TYPE_VAR_STRING | ColumnType::MYSQL_TYPE_STRING => {
                let length: u32 = column.column_length;
                let fixed: bool = column.column_type == ColumnType::MYSQL_TYPE_STRING;
                match String::from_utf8(bytes.clone()) {
                    Ok(s) => if column.is_binary() {
                        // BINARY or VARBINARY
                        if fixed {
                            Ok(MysqlValue::Binary((length, bytes)))
                        } else {
                            Ok(MysqlValue::Varbinary((length, bytes)))
                        }
                    } else {
                        // CHAR or VARCHAR
                        if fixed {
                            Ok(MysqlValue::Char((length, s)))
                        } else {
                            Ok(MysqlValue::Varchar((length, s)))
                        }
                    },
                    // Not valid UTF-8, treat as binary
                    Err(_) => if fixed {
                        Ok(MysqlValue::Binary((length, bytes)))
                    } else {
                        Ok(MysqlValue::Varbinary((length, bytes)))
                    },
                }
            },
            // Default handling for other byte types
            _ => match String::from_utf8(bytes.clone()) {
                Ok(s) => match column.column_type {
                    ColumnType::MYSQL_TYPE_TINY => Ok(MysqlValue::Tinytext(s)),
                    ColumnType::MYSQL_TYPE_LONG => Ok(MysqlValue::Longtext(s)),
                    _ => Ok(MysqlValue::Text(s)),
                },
                Err(_) => Ok(MysqlValue::Blob(bytes)),
            },
        },
        other_val => Ok(MysqlValue::from_driver(other_val)),
    }
}

} // verus!
