//! What a component is handed for what the driver hands over, told by the contents of both.

use vstd::prelude::*;
use vstd::utf8::{decode_utf8, decode_utf8_encode_utf8, encode_utf8, valid_utf8};
use crate::convert::{
    column_value, converted, decimal_char, json_like, plain_value, text_value, time_fits,
    InvalidText,
};
use crate::set::set_members;
use crate::text::whitespace;
use crate::value::{Column, ColumnType, DriverValue, MysqlValue};

verus! {

/// Null is read as null, and nothing else is.
pub proof fn law_null_is_read_as_null(value: DriverValue, read: MysqlValue)
    requires
        read@ == plain_value(value@),
    ensures
        value is NULL <==> read is Null,
{
}

/// A number is read as the same number, signed or unsigned as the driver has it, and in a wider
/// type only where the next narrower one does not hold it.
pub proof fn law_number_is_read_in_narrowest_type(value: DriverValue, read: MysqlValue)
    requires
        read@ == plain_value(value@),
    ensures
        value matches DriverValue::Int(n) ==> match read {
            MysqlValue::Tinyint(m) => m == n,
            MysqlValue::Smallint(m) => m == n && !(-0x80 <= n < 0x80),
            MysqlValue::Int(m) => m == n && !(-0x8000 <= n < 0x8000),
            MysqlValue::Bigint(m) => m == n && !(-0x8000_0000 <= n < 0x8000_0000),
            _ => false,
        },
        value matches DriverValue::UInt(n) ==> match read {
            MysqlValue::TinyintUnsigned(m) => m == n,
            MysqlValue::SmallintUnsigned(m) => m == n && n >= 0x100,
            MysqlValue::IntUnsigned(m) => m == n && n >= 0x1_0000,
            MysqlValue::BigintUnsigned(m) => m == n && n >= 0x1_0000_0000,
            _ => false,
        },
{
}

/// A floating point number is read with its mantissa, exponent and sign, and keeps its precision.
pub proof fn law_float_is_read_in_parts(value: DriverValue, read: MysqlValue)
    requires
        read@ == plain_value(value@),
    ensures
        value matches DriverValue::Float(parts) ==> (read matches MysqlValue::Float(f) && f.0
            == parts.0 && f.1 == parts.1 && f.2 == parts.2),
        value matches DriverValue::Double(parts) ==> (read matches MysqlValue::Double(f) && f.0
            == parts.0 && f.1 == parts.1 && f.2 == parts.2),
{
}

/// A date is read with its year, month and day. It comes with its hour, minute, second and
/// microsecond unless all of these are zero, and is a date alone where they are.
pub proof fn law_date_is_read_field_by_field(value: DriverValue, read: MysqlValue)
    requires
        read@ == plain_value(value@),
    ensures
        value matches DriverValue::Date(year, month, day, hour, minute, second, micro) ==> match read {
            MysqlValue::Date(date) => {
                &&& date.year == year && date.month == month && date.day == day
                &&& hour == 0 && minute == 0 && second == 0 && micro == 0
            },
            MysqlValue::Datetime(datetime) => {
                &&& datetime.date.year == year
                &&& datetime.date.month == month
                &&& datetime.date.day == day
                &&& !datetime.time.negative
                &&& datetime.time.hour == hour
                &&& datetime.time.minute == minute
                &&& datetime.time.second == second
                &&& datetime.time.microsecond == micro
                &&& hour != 0 || minute != 0 || second != 0 || micro != 0
            },
            _ => false,
        },
{
}

/// A span of time is read with its sign, minutes, seconds and microseconds, each day counting as
/// 24 hours.
pub proof fn law_time_is_read_field_by_field(value: DriverValue, read: MysqlValue)
    requires
        time_fits(value@),
        read@ == plain_value(value@),
    ensures
        value matches DriverValue::Time(negative, days, hours, minutes, seconds, micros) ==> {
            &&& read matches MysqlValue::Time(time)
            &&& time.negative == negative
            &&& time.hour == 24 * days + hours
            &&& time.minute == minutes
            &&& time.second == seconds
            &&& time.microsecond == micros
        },
{
}

/// Every driver value can be read but a span of time of 2 to the 32 hours or more.
pub proof fn law_only_overlong_times_do_not_fit(value: DriverValue)
    ensures
        time_fits(value@) <==> match value {
            DriverValue::Time(_, days, hours, _, _, _) => 24 * days + hours < 0x1_0000_0000,
            _ => true,
        },
{
}

/// Bytes are read as a text that they encode where they encode one, and otherwise as a blob of
/// these bytes.
pub proof fn law_bytes_are_read_in_full(value: DriverValue, read: MysqlValue)
    requires
        read@ == plain_value(value@),
    ensures
        value matches DriverValue::Bytes(bytes) ==> match read {
            MysqlValue::Json(s) | MysqlValue::Decimal(s) | MysqlValue::Text(s) => {
                valid_utf8(bytes@) && encode_utf8(s@) == bytes@
            },
            MysqlValue::Blob(b) => !valid_utf8(bytes@) && b@ == bytes@,
            _ => false,
        },
{
    if let DriverValue::Bytes(bytes) = value {
        if valid_utf8(bytes@) {
            decode_utf8_encode_utf8(bytes@);
        }
    }
}

/// What kind of text bytes are read as depends on the text that they encode.
pub proof fn law_text_kind_depends_on_text(value: DriverValue, read: MysqlValue)
    requires
        read@ == plain_value(value@),
    ensures
        value matches DriverValue::Bytes(bytes) ==> {
            valid_utf8(bytes@) ==> read@ == text_value(decode_utf8(bytes@))
        },
{
}

/// A text is JSON if it opens an object or an array, or is whitespace followed by JSON, and
/// otherwise it is not.
pub proof fn law_json_is_told_by_first_character(first: char, rest: Seq<char>)
    ensures
        !(text_value(Seq::empty()) is Json),
        text_value(seq![first] + rest) is Json <==> {
            first == '{' || first == '[' || whitespace(first) && text_value(rest) is Json
        },
{
    let text = seq![first] + rest;
    assert(text[0] == first);
    assert forall|i: int| 0 <= i < rest.len() implies text[i + 1] == #[trigger] rest[i] by {}
    if json_like(text) {
        let i = choose|i: int|
            0 <= i < text.len() && (#[trigger] text[i] == '{' || text[i] == '[') && forall|j: int|
                0 <= j < i ==> whitespace(#[trigger] text[j]);
        if i > 0 {
            assert(whitespace(text[0]));
            assert(rest[i - 1] == text[i]);
            assert forall|j: int| 0 <= j < i - 1 implies whitespace(#[trigger] rest[j]) by {
                assert(text[j + 1] == rest[j]);
            }
        }
    }
    if whitespace(first) && json_like(rest) {
        let i = choose|i: int|
            0 <= i < rest.len() && (#[trigger] rest[i] == '{' || rest[i] == '[') && forall|j: int|
                0 <= j < i ==> whitespace(#[trigger] rest[j]);
        assert(text[i + 1] == rest[i]);
        assert forall|j: int| 0 <= j < i + 1 implies whitespace(#[trigger] text[j]) by {
            if j > 0 {
                assert(text[j] == rest[j - 1]);
            }
        }
    }
}

/// A text is a decimal number if it holds a point, and nothing but digits, points, signs and the
/// letter of an exponent. A text that is neither that nor JSON is text of no particular kind.
pub proof fn law_decimal_is_told_by_all_characters(text: Seq<char>)
    ensures
        text_value(text) is Decimal <==> {
            &&& text.contains('.')
            &&& forall|i: int|
                0 <= i < text.len() ==> "0123456789.+-eE"@.contains(#[trigger] text[i])
        },
        text_value(text) is Json || text_value(text) is Decimal || text_value(text) is Text,
{
    reveal_strlit("0123456789.+-eE");
    let allowed = "0123456789.+-eE"@;
    assert forall|c: char| #[trigger] allowed.contains(c) <==> decimal_char(c) by {
        assert(allowed[0] == '0' && allowed[1] == '1' && allowed[2] == '2' && allowed[3] == '3');
        assert(allowed[4] == '4' && allowed[5] == '5' && allowed[6] == '6' && allowed[7] == '7');
        assert(allowed[8] == '8' && allowed[9] == '9' && allowed[10] == '.' && allowed[11] == '+');
        assert(allowed[12] == '-' && allowed[13] == 'e' && allowed[14] == 'E');
    }
    if json_like(text) {
        let i = choose|i: int|
            0 <= i < text.len() && (#[trigger] text[i] == '{' || text[i] == '[') && forall|j: int|
                0 <= j < i ==> whitespace(#[trigger] text[j]);
        assert(!decimal_char(text[i]));
        assert(!allowed.contains(text[i]));
    }
}

/// What is not bytes is read alike from every column, and never fails to be read.
pub proof fn law_only_bytes_depend_on_column(
    value: DriverValue,
    column: Column,
    read: Result<MysqlValue, InvalidText>,
)
    requires
        converted(read) == column_value(value@, column),
    ensures
        !(value is Bytes) ==> (read matches Ok(v) && v@ == plain_value(value@)),
{
}

/// Bytes from a column that holds nothing but text are read as a text of the column's kind that
/// they encode. Where they encode none, the failure names the column's kind.
pub proof fn law_text_columns_are_read_as_text(
    bytes: Vec<u8>,
    column: Column,
    read: Result<MysqlValue, InvalidText>,
)
    requires
        converted(read) == column_value(DriverValue::Bytes(bytes)@, column),
    ensures
        match column.column_type {
            ColumnType::MYSQL_TYPE_JSON => match read {
                Ok(v) => v matches MysqlValue::Json(s) && encode_utf8(s@) == bytes@,
                Err(e) => e is JsonColumn && !valid_utf8(bytes@),
            },
            ColumnType::MYSQL_TYPE_ENUM => match read {
                Ok(v) => v matches MysqlValue::Enum(s) && encode_utf8(s@) == bytes@,
                Err(e) => e is EnumColumn && !valid_utf8(bytes@),
            },
            ColumnType::MYSQL_TYPE_DECIMAL | ColumnType::MYSQL_TYPE_NEWDECIMAL => match read {
                Ok(v) => v matches MysqlValue::Decimal(s) && encode_utf8(s@) == bytes@,
                Err(e) => e is DecimalColumn && !valid_utf8(bytes@),
            },
            ColumnType::MYSQL_TYPE_SET => match read {
                Ok(v) => {
                    &&& v matches MysqlValue::SetValue(members)
                    &&& valid_utf8(bytes@)
                    &&& members@.len() == set_members(decode_utf8(bytes@)).len()
                    &&& forall|i: int|
                        0 <= i < members@.len() ==> (#[trigger] members@[i])@ == set_members(
                            decode_utf8(bytes@),
                        )[i]
                },
                Err(e) => e is SetColumn && !valid_utf8(bytes@),
            },
            _ => read is Ok,
        },
        valid_utf8(bytes@) ==> read is Ok,
{
    if valid_utf8(bytes@) {
        decode_utf8_encode_utf8(bytes@);
    }
    if let Ok(MysqlValue::SetValue(members)) = read {
        assert forall|i: int| 0 <= i < members@.len() implies (#[trigger] members@[i])@
            == crate::value::texts(members@)[i] by {}
    }
}

/// Bytes from a column of bits, of a geometry or of a blob are read as these bytes, whether or not
/// they encode a text. Bits come with the lowest eight bits of the column's length.
pub proof fn law_binary_columns_are_read_as_bytes(
    bytes: Vec<u8>,
    column: Column,
    read: Result<MysqlValue, InvalidText>,
)
    requires
        converted(read) == column_value(DriverValue::Bytes(bytes)@, column),
    ensures
        match column.column_type {
            ColumnType::MYSQL_TYPE_BIT => read matches Ok(MysqlValue::Bit(bits)) && bits.1@
                == bytes@ && bits.0 == column.column_length % 0x100,
            ColumnType::MYSQL_TYPE_GEOMETRY => read matches Ok(MysqlValue::Geometry(b)) && b@
                == bytes@,
            ColumnType::MYSQL_TYPE_TINY_BLOB => read matches Ok(MysqlValue::Tinyblob(b)) && b@
                == bytes@,
            ColumnType::MYSQL_TYPE_MEDIUM_BLOB => read matches Ok(MysqlValue::Mediumblob(b)) && b@
                == bytes@,
            ColumnType::MYSQL_TYPE_LONG_BLOB => read matches Ok(MysqlValue::Longblob(b)) && b@
                == bytes@,
            ColumnType::MYSQL_TYPE_BLOB => read matches Ok(MysqlValue::Blob(b)) && b@ == bytes@,
            _ => true,
        },
{
}

/// Bytes from a column of strings come with the column's length. They are read as a text that they
/// encode if they encode one and the column is not marked as binary, and as these bytes if not.
pub proof fn law_string_columns_are_read_by_flag(
    bytes: Vec<u8>,
    column: Column,
    read: Result<MysqlValue, InvalidText>,
)
    requires
        converted(read) == column_value(DriverValue::Bytes(bytes)@, column),
    ensures
        column.column_type is MYSQL_TYPE_STRING ==> match read {
            Ok(MysqlValue::Char(c)) => {
                &&& c.0 == column.column_length
                &&& encode_utf8(c.1@) == bytes@
                &&& valid_utf8(bytes@) && column.flags & 0x80 == 0
            },
            Ok(MysqlValue::Binary(b)) => {
                &&& b.0 == column.column_length
                &&& b.1@ == bytes@
                &&& !valid_utf8(bytes@) || column.flags & 0x80 != 0
            },
            _ => false,
        },
        column.column_type is MYSQL_TYPE_VAR_STRING ==> match read {
            Ok(MysqlValue::Varchar(c)) => {
                &&& c.0 == column.column_length
                &&& encode_utf8(c.1@) == bytes@
                &&& valid_utf8(bytes@) && column.flags & 0x80 == 0
            },
            Ok(MysqlValue::Varbinary(b)) => {
                &&& b.0 == column.column_length
                &&& b.1@ == bytes@
                &&& !valid_utf8(bytes@) || column.flags & 0x80 != 0
            },
            _ => false,
        },
{
    if valid_utf8(bytes@) {
        decode_utf8_encode_utf8(bytes@);
    }
    let flags = column.flags;
    assert((flags & 0x80 != 0) == ((flags / 128) % 2 == 1)) by (bit_vector);
}

/// Bytes from any other column are read as a text that they encode, of a kind of its own in a
/// column of tiny or long numbers, and as a blob of these bytes if they encode none.
pub proof fn law_other_columns_are_read_as_text_or_blob(
    bytes: Vec<u8>,
    column: Column,
    read: Result<MysqlValue, InvalidText>,
)
    requires
        converted(read) == column_value(DriverValue::Bytes(bytes)@, column),
    ensures
        ({
            let kind = column.column_type;
            ||| kind is MYSQL_TYPE_TINY
            ||| kind is MYSQL_TYPE_SHORT
            ||| kind is MYSQL_TYPE_LONG
            ||| kind is MYSQL_TYPE_FLOAT
            ||| kind is MYSQL_TYPE_DOUBLE
            ||| kind is MYSQL_TYPE_NULL
            ||| kind is MYSQL_TYPE_TIMESTAMP
            ||| kind is MYSQL_TYPE_LONGLONG
            ||| kind is MYSQL_TYPE_INT24
            ||| kind is MYSQL_TYPE_DATE
            ||| kind is MYSQL_TYPE_TIME
            ||| kind is MYSQL_TYPE_DATETIME
            ||| kind is MYSQL_TYPE_YEAR
            ||| kind is MYSQL_TYPE_NEWDATE
            ||| kind is MYSQL_TYPE_VARCHAR
            ||| kind is MYSQL_TYPE_TIMESTAMP2
            ||| kind is MYSQL_TYPE_DATETIME2
            ||| kind is MYSQL_TYPE_TIME2
            ||| kind is MYSQL_TYPE_TYPED_ARRAY
            ||| kind is MYSQL_TYPE_VECTOR
            ||| kind is MYSQL_TYPE_UNKNOWN
        }) ==> match read {
            Ok(MysqlValue::Tinytext(s)) => {
                &&& column.column_type is MYSQL_TYPE_TINY
                &&& valid_utf8(bytes@) && encode_utf8(s@) == bytes@
            },
            Ok(MysqlValue::Longtext(s)) => {
                &&& column.column_type is MYSQL_TYPE_LONG
                &&& valid_utf8(bytes@) && encode_utf8(s@) == bytes@
            },
            Ok(MysqlValue::Text(s)) => {
                &&& !(column.column_type is MYSQL_TYPE_TINY)
                &&& !(column.column_type is MYSQL_TYPE_LONG)
                &&& valid_utf8(bytes@) && encode_utf8(s@) == bytes@
            },
            Ok(MysqlValue::Blob(b)) => !valid_utf8(bytes@) && b@ == bytes@,
            _ => false,
        },
{
    if valid_utf8(bytes@) {
        decode_utf8_encode_utf8(bytes@);
    }
}

/// A failure to read a column's text is told in words that name the kind of the column.
pub proof fn law_reading_failures_name_the_column(e: InvalidText)
    ensures
        e.text() == "Failed to convert "@ + (match e {
            InvalidText::JsonColumn => "JSON"@,
            InvalidText::EnumColumn => "ENUM"@,
            InvalidText::SetColumn => "SET"@,
            InvalidText::DecimalColumn => "DECIMAL"@,
        }) + " bytes to UTF-8"@,
{
    reveal_strlit("Failed to convert ");
    reveal_strlit(" bytes to UTF-8");
    reveal_strlit("JSON");
    reveal_strlit("ENUM");
    reveal_strlit("SET");
    reveal_strlit("DECIMAL");
    reveal_strlit("Failed to convert JSON bytes to UTF-8");
    reveal_strlit("Failed to convert ENUM bytes to UTF-8");
    reveal_strlit("Failed to convert SET bytes to UTF-8");
    reveal_strlit("Failed to convert DECIMAL bytes to UTF-8");
    assert("Failed to convert JSON bytes to UTF-8"@ =~= "Failed to convert "@ + "JSON"@
        + " bytes to UTF-8"@);
    assert("Failed to convert ENUM bytes to UTF-8"@ =~= "Failed to convert "@ + "ENUM"@
        + " bytes to UTF-8"@);
    assert("Failed to convert SET bytes to UTF-8"@ =~= "Failed to convert "@ + "SET"@
        + " bytes to UTF-8"@);
    assert("Failed to convert DECIMAL bytes to UTF-8"@ =~= "Failed to convert "@ + "DECIMAL"@
        + " bytes to UTF-8"@);
}

} // verus!
