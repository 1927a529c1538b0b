//! Which values may be used for which column types, and in which words the others are refused.

use vstd::prelude::*;
use crate::text::{decimal, push_decimal};
use crate::value::{ColumnType, MysqlValue, ValueModel};

verus! {

/// The place of a value's kind among the kinds of values, counted from zero.
pub open spec fn kind_index(value: ValueModel) -> nat {
    match value {
        ValueModel::Null => 0,
        ValueModel::Tinyint(..) => 1,
        ValueModel::TinyintUnsigned(..) => 2,
        ValueModel::Smallint(..) => 3,
        ValueModel::SmallintUnsigned(..) => 4,
        ValueModel::Mediumint(..) => 5,
        ValueModel::MediumintUnsigned(..) => 6,
        ValueModel::Int(..) => 7,
        ValueModel::Integer(..) => 8,
        ValueModel::IntUnsigned(..) => 9,
        ValueModel::IntegerUnsigned(..) => 10,
        ValueModel::Bigint(..) => 11,
        ValueModel::BigintUnsigned(..) => 12,
        ValueModel::Decimal(..) => 13,
        ValueModel::Numeric(..) => 14,
        ValueModel::Float(..) => 15,
        ValueModel::Double(..) => 16,
        ValueModel::Real(..) => 17,
        ValueModel::Bit(..) => 18,
        ValueModel::Bool(..) => 19,
        ValueModel::Boolean(..) => 20,
        ValueModel::Date(..) => 21,
        ValueModel::Time(..) => 22,
        ValueModel::Datetime(..) => 23,
        ValueModel::Timestamp(..) => 24,
        ValueModel::Year(..) => 25,
        ValueModel::Char(..) => 26,
        ValueModel::Varchar(..) => 27,
        ValueModel::Text(..) => 28,
        ValueModel::Tinytext(..) => 29,
        ValueModel::Mediumtext(..) => 30,
        ValueModel::Longtext(..) => 31,
        ValueModel::Binary(..) => 32,
        ValueModel::Varbinary(..) => 33,
        ValueModel::Blob(..) => 34,
        ValueModel::Tinyblob(..) => 35,
        ValueModel::Mediumblob(..) => 36,
        ValueModel::Longblob(..) => 37,
        ValueModel::Json(..) => 38,
        ValueModel::Enum(..) => 39,
        ValueModel::SetValue(..) => 40,
        ValueModel::Geometry(..) => 41,
        ValueModel::PointGeom(..) => 42,
        ValueModel::Linestring(..) => 43,
        ValueModel::Polygon(..) => 44,
        ValueModel::Multipoint(..) => 45,
        ValueModel::Multilinestring(..) => 46,
        ValueModel::Multipolygon(..) => 47,
        ValueModel::Geometrycollection(..) => 48,
    }
}

/// The place of a value's kind among the kinds of values, counted from zero.
fn kind_index_of(value: &MysqlValue) -> (r: usize)
    ensures
        r == kind_index(value@),
{
    match value {
        MysqlValue::Null => 0,
        MysqlValue::Tinyint(..) => 1,
        MysqlValue::TinyintUnsigned(..) => 2,
        MysqlValue::Smallint(..) => 3,
        MysqlValue::SmallintUnsigned(..) => 4,
        MysqlValue::Mediumint(..) => 5,
        MysqlValue::MediumintUnsigned(..) => 6,
        MysqlValue::Int(..) => 7,
        MysqlValue::Integer(..) => 8,
        MysqlValue::IntUnsigned(..) => 9,
        MysqlValue::IntegerUnsigned(..) => 10,
        MysqlValue::Bigint(..) => 11,
        MysqlValue::BigintUnsigned(..) => 12,
        MysqlValue::Decimal(..) => 13,
        MysqlValue::Numeric(..) => 14,
        MysqlValue::Float(..) => 15,
        MysqlValue::Double(..) => 16,
        MysqlValue::Real(..) => 17,
        MysqlValue::Bit(..) => 18,
        MysqlValue::Bool(..) => 19,
        MysqlValue::Boolean(..) => 20,
        MysqlValue::Date(..) => 21,
        MysqlValue::Time(..) => 22,
        MysqlValue::Datetime(..) => 23,
        MysqlValue::Timestamp(..) => 24,
        MysqlValue::Year(..) => 25,
        MysqlValue::Char(..) => 26,
        MysqlValue::Varchar(..) => 27,
        MysqlValue::Text(..) => 28,
        MysqlValue::Tinytext(..) => 29,
        MysqlValue::Mediumtext(..) => 30,
        MysqlValue::Longtext(..) => 31,
        MysqlValue::Binary(..) => 32,
        MysqlValue::Varbinary(..) => 33,
        MysqlValue::Blob(..) => 34,
        MysqlValue::Tinyblob(..) => 35,
        MysqlValue::Mediumblob(..) => 36,
        MysqlValue::Longblob(..) => 37,
        MysqlValue::Json(..) => 38,
        MysqlValue::Enum(..) => 39,
        MysqlValue::SetValue(..) => 40,
        MysqlValue::Geometry(..) => 41,
        MysqlValue::PointGeom(..) => 42,
        MysqlValue::Linestring(..) => 43,
        MysqlValue::Polygon(..) => 44,
        MysqlValue::Multipoint(..) => 45,
        MysqlValue::Multilinestring(..) => 46,
        MysqlValue::Multipolygon(..) => 47,
        MysqlValue::Geometrycollection(..) => 48,
    }
}

/// The name of a column type in the MySQL protocol.
pub open spec fn column_type_text(column_type: ColumnType) -> Seq<char> {
    match column_type {
        ColumnType::MYSQL_TYPE_DECIMAL => "MYSQL_TYPE_DECIMAL"@,
        ColumnType::MYSQL_TYPE_TINY => "MYSQL_TYPE_TINY"@,
        ColumnType::MYSQL_TYPE_SHORT => "MYSQL_TYPE_SHORT"@,
        ColumnType::MYSQL_TYPE_LONG => "MYSQL_TYPE_LONG"@,
        ColumnType::MYSQL_TYPE_FLOAT => "MYSQL_TYPE_FLOAT"@,
        ColumnType::MYSQL_TYPE_DOUBLE => "MYSQL_TYPE_DOUBLE"@,
        ColumnType::MYSQL_TYPE_NULL => "MYSQL_TYPE_NULL"@,
        ColumnType::MYSQL_TYPE_TIMESTAMP => "MYSQL_TYPE_TIMESTAMP"@,
        ColumnType::MYSQL_TYPE_LONGLONG => "MYSQL_TYPE_LONGLONG"@,
        ColumnType::MYSQL_TYPE_INT24 => "MYSQL_TYPE_INT24"@,
        ColumnType::MYSQL_TYPE_DATE => "MYSQL_TYPE_DATE"@,
        ColumnType::MYSQL_TYPE_TIME => "MYSQL_TYPE_TIME"@,
        ColumnType::MYSQL_TYPE_DATETIME => "MYSQL_TYPE_DATETIME"@,
        ColumnType::MYSQL_TYPE_YEAR => "MYSQL_TYPE_YEAR"@,
        ColumnType::MYSQL_TYPE_NEWDATE => "MYSQL_TYPE_NEWDATE"@,
        ColumnType::MYSQL_TYPE_VARCHAR => "MYSQL_TYPE_VARCHAR"@,
        ColumnType::MYSQL_TYPE_BIT => "MYSQL_TYPE_BIT"@,
        ColumnType::MYSQL_TYPE_TIMESTAMP2 => "MYSQL_TYPE_TIMESTAMP2"@,
        ColumnType::MYSQL_TYPE_DATETIME2 => "MYSQL_TYPE_DATETIME2"@,
        ColumnType::MYSQL_TYPE_TIME2 => "MYSQL_TYPE_TIME2"@,
        ColumnType::MYSQL_TYPE_TYPED_ARRAY => "MYSQL_TYPE_TYPED_ARRAY"@,
        ColumnType::MYSQL_TYPE_VECTOR => "MYSQL_TYPE_VECTOR"@,
        ColumnType::MYSQL_TYPE_UNKNOWN => "MYSQL_TYPE_UNKNOWN"@,
        ColumnType::MYSQL_TYPE_JSON => "MYSQL_TYPE_JSON"@,
        ColumnType::MYSQL_TYPE_NEWDECIMAL => "MYSQL_TYPE_NEWDECIMAL"@,
        ColumnType::MYSQL_TYPE_ENUM => "MYSQL_TYPE_ENUM"@,
        ColumnType::MYSQL_TYPE_SET => "MYSQL_TYPE_SET"@,
        ColumnType::MYSQL_TYPE_TINY_BLOB => "MYSQL_TYPE_TINY_BLOB"@,
        ColumnType::MYSQL_TYPE_MEDIUM_BLOB => "MYSQL_TYPE_MEDIUM_BLOB"@,
        ColumnType::MYSQL_TYPE_LONG_BLOB => "MYSQL_TYPE_LONG_BLOB"@,
        ColumnType::MYSQL_TYPE_BLOB => "MYSQL_TYPE_BLOB"@,
        ColumnType::MYSQL_TYPE_VAR_STRING => "MYSQL_TYPE_VAR_STRING"@,
        ColumnType::MYSQL_TYPE_STRING => "MYSQL_TYPE_STRING"@,
        ColumnType::MYSQL_TYPE_GEOMETRY => "MYSQL_TYPE_GEOMETRY"@,
    }
}

/// The name of a column type in the MySQL protocol.
pub fn column_type_name(column_type: ColumnType) -> (r: &'static str)
    ensures
        r@ == column_type_text(column_type),
{
    match column_type {
        ColumnType::MYSQL_TYPE_DECIMAL => "MYSQL_TYPE_DECIMAL",
        ColumnType::MYSQL_TYPE_TINY => "MYSQL_TYPE_TINY",
        ColumnType::MYSQL_TYPE_SHORT => "MYSQL_TYPE_SHORT",
        ColumnType::MYSQL_TYPE_LONG => "MYSQL_TYPE_LONG",
        ColumnType::MYSQL_TYPE_FLOAT => "MYSQL_TYPE_FLOAT",
        ColumnType::MYSQL_TYPE_DOUBLE => "MYSQL_TYPE_DOUBLE",
        ColumnType::MYSQL_TYPE_NULL => "MYSQL_TYPE_NULL",
        ColumnType::MYSQL_TYPE_TIMESTAMP => "MYSQL_TYPE_TIMESTAMP",
        ColumnType::MYSQL_TYPE_LONGLONG => "MYSQL_TYPE_LONGLONG",
        ColumnType::MYSQL_TYPE_INT24 => "MYSQL_TYPE_INT24",
        ColumnType::MYSQL_TYPE_DATE => "MYSQL_TYPE_DATE",
        ColumnType::MYSQL_TYPE_TIME => "MYSQL_TYPE_TIME",
        ColumnType::MYSQL_TYPE_DATETIME => "MYSQL_TYPE_DATETIME",
        ColumnType::MYSQL_TYPE_YEAR => "MYSQL_TYPE_YEAR",
        ColumnType::MYSQL_TYPE_NEWDATE => "MYSQL_TYPE_NEWDATE",
        ColumnType::MYSQL_TYPE_VARCHAR => "MYSQL_TYPE_VARCHAR",
        ColumnType::MYSQL_TYPE_BIT => "MYSQL_TYPE_BIT",
        ColumnType::MYSQL_TYPE_TIMESTAMP2 => "MYSQL_TYPE_TIMESTAMP2",
        ColumnType::MYSQL_TYPE_DATETIME2 => "MYSQL_TYPE_DATETIME2",
        ColumnType::MYSQL_TYPE_TIME2 => "MYSQL_TYPE_TIME2",
        ColumnType::MYSQL_TYPE_TYPED_ARRAY => "MYSQL_TYPE_TYPED_ARRAY",
        ColumnType::MYSQL_TYPE_VECTOR => "MYSQL_TYPE_VECTOR",
        ColumnType::MYSQL_TYPE_UNKNOWN => "MYSQL_TYPE_UNKNOWN",
        ColumnType::MYSQL_TYPE_JSON => "MYSQL_TYPE_JSON",
        ColumnType::MYSQL_TYPE_NEWDECIMAL => "MYSQL_TYPE_NEWDECIMAL",
        ColumnType::MYSQL_TYPE_ENUM => "MYSQL_TYPE_ENUM",
        ColumnType::MYSQL_TYPE_SET => "MYSQL_TYPE_SET",
        ColumnType::MYSQL_TYPE_TINY_BLOB => "MYSQL_TYPE_TINY_BLOB",
        ColumnType::MYSQL_TYPE_MEDIUM_BLOB => "MYSQL_TYPE_MEDIUM_BLOB",
        ColumnType::MYSQL_TYPE_LONG_BLOB => "MYSQL_TYPE_LONG_BLOB",
        ColumnType::MYSQL_TYPE_BLOB => "MYSQL_TYPE_BLOB",
        ColumnType::MYSQL_TYPE_VAR_STRING => "MYSQL_TYPE_VAR_STRING",
        ColumnType::MYSQL_TYPE_STRING => "MYSQL_TYPE_STRING",
        ColumnType::MYSQL_TYPE_GEOMETRY => "MYSQL_TYPE_GEOMETRY",
    }
}

/// A value that does not belong in a column of the type that was expected.
#[derive(Clone, Copy, Debug, PartialEq, Eq)]
pub struct TypeMismatch {
    /// The place of the value's kind among the kinds of values, counted from zero.
    pub kind: usize,
    /// The type that the column has.
    pub expected: ColumnType,
}

impl TypeMismatch {
    /// The words in which the mismatch is reported.
    pub open spec fn text(self) -> Seq<char> {
        "Type mismatch: cannot use Discriminant("@ + decimal(self.kind as nat)
            + ") for column type "@ + column_type_text(self.expected)
    }

    /// The words in which the mismatch is reported.
    pub fn message(&self) -> (r: String)
        ensures
            r@ == self.text(),
    {
        let mut text: String = "Type mismatch: cannot use Discriminant(".to_owned();
        push_decimal(&mut text, self.kind);
        text.append(") for column type ");
        text.append(column_type_name(self.expected));
        text
    }
}

/// Whether a value other than null belongs in a column of type `column_type`.
pub open spec fn belongs(value: ValueModel, column_type: ColumnType) -> bool {
    match column_type {
        // A truth value is a TINYINT(1).
        ColumnType::MYSQL_TYPE_TINY => {
            value is Tinyint || value is TinyintUnsigned || value is Bool || value is Boolean
        },
        ColumnType::MYSQL_TYPE_SHORT => value is Smallint || value is SmallintUnsigned,
        ColumnType::MYSQL_TYPE_INT24 => value is Mediumint || value is MediumintUnsigned,
        ColumnType::MYSQL_TYPE_LONG => {
            value is Int || value is Integer || value is IntUnsigned || value is IntegerUnsigned
        },
        ColumnType::MYSQL_TYPE_LONGLONG => value is Bigint || value is BigintUnsigned,
        ColumnType::MYSQL_TYPE_FLOAT => value is Float,
        ColumnType::MYSQL_TYPE_DOUBLE => value is Double || value is Real,
        ColumnType::MYSQL_TYPE_DECIMAL | ColumnType::MYSQL_TYPE_NEWDECIMAL => {
            value is Decimal || value is Numeric
        },
        ColumnType::MYSQL_TYPE_DATE => value is Date,
        ColumnType::MYSQL_TYPE_TIME => value is Time,
        ColumnType::MYSQL_TYPE_DATETIME => value is Datetime,
        ColumnType::MYSQL_TYPE_TIMESTAMP => value is Timestamp,
        ColumnType::MYSQL_TYPE_YEAR => value is Year,
        ColumnType::MYSQL_TYPE_STRING => value is Char || value is Binary || value is Varbinary,
        ColumnType::MYSQL_TYPE_VAR_STRING => {
            value is Varchar || value is Binary || value is Varbinary
        },
        ColumnType::MYSQL_TYPE_BLOB => value is Text || value is Blob,
        ColumnType::MYSQL_TYPE_TINY_BLOB => value is Tinytext || value is Tinyblob,
        ColumnType::MYSQL_TYPE_MEDIUM_BLOB => value is Mediumtext || value is Mediumblob,
        ColumnType::MYSQL_TYPE_LONG_BLOB => value is Longtext || value is Longblob,
        ColumnType::MYSQL_TYPE_BIT => value is Bit,
        ColumnType::MYSQL_TYPE_ENUM => value is Enum,
        ColumnType::MYSQL_TYPE_SET => value is SetValue,
        ColumnType::MYSQL_TYPE_JSON => value is Json,
        ColumnType::MYSQL_TYPE_GEOMETRY => wkb(value) is Some,
        _ => false,
    }
}

/// Whether a value may be used for a column of type `column_type`. Null may be used for any.
pub open spec fn accepted(value: ValueModel, column_type: ColumnType) -> bool {
    value is Null || belongs(value, column_type)
}

/// The well-known binary of a geometry.
pub open spec fn wkb(value: ValueModel) -> Option<Seq<u8>> {
    match value {
        ValueModel::Geometry(b)
        | ValueModel::PointGeom(b)
        | ValueModel::Linestring(b)
        | ValueModel::Polygon(b)
        | ValueModel::Multipoint(b)
        | ValueModel::Multilinestring(b)
        | ValueModel::Multipolygon(b)
        | ValueModel::Geometrycollection(b) => Some(b),
        _ => None,
    }
}

/// Validate that a MysqlValue is compatible with the expected MySQL column type.
pub fn validate_mysql_value_for_column_type(
    value: &MysqlValue,
    expected_type: ColumnType,
) -> (r: Result<(), TypeMismatch>)
    ensures
        r is Ok <==> accepted(value@, expected_type),
        r matches Err(e) ==> e.kind == kind_index(value@) && e.expected == expected_type,
{
    match (value, expected_type) {
        (MysqlValue::Null, _) => Ok(()),
        (
            MysqlValue::Tinyint(_) | MysqlValue::TinyintUnsigned(_),
            ColumnType::MYSQL_TYPE_TINY,
        ) => Ok(()),
        (
            MysqlValue::Smallint(_) | MysqlValue::SmallintUnsigned(_),
            ColumnType::MYSQL_TYPE_SHORT,
        ) => Ok(()),
        (
            MysqlValue::Mediumint(_) | MysqlValue::MediumintUnsigned(_),
            ColumnType::MYSQL_TYPE_INT24,
        ) => Ok(()),
        (
            MysqlValue::Int(_)
            | MysqlValue::Integer(_)
            | MysqlValue::IntUnsigned(_)
            | MysqlValue::IntegerUnsigned(_),
            ColumnType::MYSQL_TYPE_LONG,
        ) => Ok(()),
        (
            MysqlValue::Bigint(_) | MysqlValue::BigintUnsigned(_),
            ColumnType::MYSQL_TYPE_LONGLONG,
        ) => Ok(()),
        (MysqlValue::Float(_), ColumnType::MYSQL_TYPE_FLOAT) => Ok(()),
        (MysqlValue::Double(_) | MysqlValue::Real(_), ColumnType::MYSQL_TYPE_DOUBLE) => Ok(()),
        (
            MysqlValue::Decimal(_) | MysqlValue::Numeric(_),
            ColumnType::MYSQL_TYPE_DECIMAL | ColumnType::MYSQL_TYPE_NEWDECIMAL,
        ) => Ok(()),
        (MysqlValue::Date(_), ColumnType::MYSQL_TYPE_DATE) => Ok(()),
        (MysqlValue::Time(_), ColumnType::MYSQL_TYPE_TIME) => Ok(()),
        (MysqlValue::Datetime(_), ColumnType::MYSQL_TYPE_DATETIME) => Ok(()),
        (MysqlValue::Timestamp(_), ColumnType::MYSQL_TYPE_TIMESTAMP) => Ok(()),
        (MysqlValue::Year(_), ColumnType::MYSQL_TYPE_YEAR) => Ok(()),
        (MysqlValue::Char(_), ColumnType::MYSQL_TYPE_STRING) => Ok(()),
        (MysqlValue::Varchar(_), ColumnType::MYSQL_TYPE_VAR_STRING) => Ok(()),
        (MysqlValue::Text(_), ColumnType::MYSQL_TYPE_BLOB) => Ok(()),
        (MysqlValue::Tinytext(_), ColumnType::MYSQL_TYPE_TINY_BLOB) => Ok(()),
        (MysqlValue::Mediumtext(_), ColumnType::MYSQL_TYPE_MEDIUM_BLOB) => Ok(()),
        (MysqlValue::Longtext(_), ColumnType::MYSQL_TYPE_LONG_BLOB) => Ok(()),
        (
            MysqlValue::Binary(_) | MysqlValue::Varbinary(_),
            ColumnType::MYSQL_TYPE_STRING | ColumnType::MYSQL_TYPE_VAR_STRING,
        ) => Ok(()),
        (MysqlValue::Blob(_), ColumnType::MYSQL_TYPE_BLOB) => Ok(()),
        (MysqlValue::Tinyblob(_), ColumnType::MYSQL_TYPE_TINY_BLOB) => Ok(()),
        (MysqlValue::Mediumblob(_), ColumnType::MYSQL_TYPE_MEDIUM_BLOB) => Ok(()),
        (MysqlValue::Longblob(_), ColumnType::MYSQL_TYPE_LONG_BLOB) => Ok(()),
        // BOOL is TINYINT(1)
        (MysqlValue::Bool(_) | MysqlValue::Boolean(_), ColumnType::MYSQL_TYPE_TINY) => Ok(()),
        (MysqlValue::Bit(_), ColumnType::MYSQL_TYPE_BIT) => Ok(()),
        (MysqlValue::Enum(_), ColumnType::MYSQL_TYPE_ENUM) => Ok(()),
        (MysqlValue::SetValue(_), ColumnType::MYSQL_TYPE_SET) => Ok(()),
        (MysqlValue::Json(_), ColumnType::MYSQL_TYPE_JSON) => Ok(()),
        (
            MysqlValue::Geometry(_)
            | MysqlValue::PointGeom(_)
            | MysqlValue::Linestring(_)
            | MysqlValue::Polygon(_)
            | MysqlValue::Multipoint(_)
            | MysqlValue::Multilinestring(_)
            | MysqlValue::Multipolygon(_)
            | MysqlValue::Geometrycollection(_),
            ColumnType::MYSQL_TYPE_GEOMETRY,
        ) => Ok(()),
        (value, expected) => Err(TypeMismatch { kind: kind_index_of(value), expected }),
    }
}

/// Every kind of value other than null may be used for exactly the column types of its own SQL
/// type, and null for every type. Truth values are tiny numbers; binary strings go with both types
/// of strings; a text or a blob goes with the blob type of its size; any geometry goes with the one
/// type of geometries.
pub proof fn law_kinds_belong_to_their_types(value: MysqlValue, expected: ColumnType)
    ensures
        accepted(value@, expected) <==> match value {
            MysqlValue::Null => true,
            MysqlValue::Tinyint(_) | MysqlValue::TinyintUnsigned(_) => expected is MYSQL_TYPE_TINY,
            MysqlValue::Bool(_) | MysqlValue::Boolean(_) => expected is MYSQL_TYPE_TINY,
            MysqlValue::Smallint(_) | MysqlValue::SmallintUnsigned(_) => {
                expected is MYSQL_TYPE_SHORT
            },
            MysqlValue::Mediumint(_) | MysqlValue::MediumintUnsigned(_) => {
                expected is MYSQL_TYPE_INT24
            },
            MysqlValue::Int(_) | MysqlValue::Integer(_) => expected is MYSQL_TYPE_LONG,
            MysqlValue::IntUnsigned(_) | MysqlValue::IntegerUnsigned(_) => {
                expected is MYSQL_TYPE_LONG
            },
            MysqlValue::Bigint(_) | MysqlValue::BigintUnsigned(_) => {
                expected is MYSQL_TYPE_LONGLONG
            },
            MysqlValue::Float(_) => expected is MYSQL_TYPE_FLOAT,
            MysqlValue::Double(_) | MysqlValue::Real(_) => expected is MYSQL_TYPE_DOUBLE,
            MysqlValue::Decimal(_) | MysqlValue::Numeric(_) => {
                expected is MYSQL_TYPE_DECIMAL || expected is MYSQL_TYPE_NEWDECIMAL
            },
            MysqlValue::Date(_) => expected is MYSQL_TYPE_DATE,
            MysqlValue::Time(_) => expected is MYSQL_TYPE_TIME,
            MysqlValue::Datetime(_) => expected is MYSQL_TYPE_DATETIME,
            MysqlValue::Timestamp(_) => expected is MYSQL_TYPE_TIMESTAMP,
            MysqlValue::Year(_) => expected is MYSQL_TYPE_YEAR,
            MysqlValue::Char(_) => expected is MYSQL_TYPE_STRING,
            MysqlValue::Varchar(_) => expected is MYSQL_TYPE_VAR_STRING,
            MysqlValue::Binary(_) | MysqlValue::Varbinary(_) => {
                expected is MYSQL_TYPE_STRING || expected is MYSQL_TYPE_VAR_STRING
            },
            MysqlValue::Text(_) | MysqlValue::Blob(_) => expected is MYSQL_TYPE_BLOB,
            MysqlValue::Tinytext(_) | MysqlValue::Tinyblob(_) => expected is MYSQL_TYPE_TINY_BLOB,
            MysqlValue::Mediumtext(_) | MysqlValue::Mediumblob(_) => {
                expected is MYSQL_TYPE_MEDIUM_BLOB
            },
            MysqlValue::Longtext(_) | MysqlValue::Longblob(_) => expected is MYSQL_TYPE_LONG_BLOB,
            MysqlValue::Bit(_) => expected is MYSQL_TYPE_BIT,
            MysqlValue::Enum(_) => expected is MYSQL_TYPE_ENUM,
            MysqlValue::SetValue(_) => expected is MYSQL_TYPE_SET,
            MysqlValue::Json(_) => expected is MYSQL_TYPE_JSON,
            MysqlValue::Geometry(_)
            | MysqlValue::PointGeom(_)
            | MysqlValue::Linestring(_)
            | MysqlValue::Polygon(_)
            | MysqlValue::Multipoint(_)
            | MysqlValue::Multilinestring(_)
            | MysqlValue::Multipolygon(_)
            | MysqlValue::Geometrycollection(_) => expected is MYSQL_TYPE_GEOMETRY,
        },
{
}

/// The kinds of values are counted from null on, each one more than the kind before it.
pub proof fn law_kinds_are_counted_in_order(before: MysqlValue, after: MysqlValue)
    ensures
        before is Null ==> kind_index(before@) == 0,
        ({
            ||| before is Null && after is Tinyint
            ||| before is Tinyint && after is TinyintUnsigned
            ||| before is TinyintUnsigned && after is Smallint
            ||| before is Smallint && after is SmallintUnsigned
            ||| before is SmallintUnsigned && after is Mediumint
            ||| before is Mediumint && after is MediumintUnsigned
            ||| before is MediumintUnsigned && after is Int
            ||| before is Int && after is Integer
            ||| before is Integer && after is IntUnsigned
            ||| before is IntUnsigned && after is IntegerUnsigned
            ||| before is IntegerUnsigned && after is Bigint
            ||| before is Bigint && after is BigintUnsigned
            ||| before is BigintUnsigned && after is Decimal
            ||| before is Decimal && after is Numeric
            ||| before is Numeric && after is Float
            ||| before is Float && after is Double
            ||| before is Double && after is Real
            ||| before is Real && after is Bit
            ||| before is Bit && after is Bool
            ||| before is Bool && after is Boolean
            ||| before is Boolean && after is Date
            ||| before is Date && after is Time
            ||| before is Time && after is Datetime
            ||| before is Datetime && after is Timestamp
            ||| before is Timestamp && after is Year
            ||| before is Year && after is Char
            ||| before is Char && after is Varchar
            ||| before is Varchar && after is Text
            ||| before is Text && after is Tinytext
            ||| before is Tinytext && after is Mediumtext
            ||| before is Mediumtext && after is Longtext
            ||| before is Longtext && after is Binary
            ||| before is Binary && after is Varbinary
            ||| before is Varbinary && after is Blob
            ||| before is Blob && after is Tinyblob
            ||| before is Tinyblob && after is Mediumblob
            ||| before is Mediumblob && after is Longblob
            ||| before is Longblob && after is Json
            ||| before is Json && after is Enum
            ||| before is Enum && after is SetValue
            ||| before is SetValue && after is Geometry
            ||| before is Geometry && after is PointGeom
            ||| before is PointGeom && after is Linestring
            ||| before is Linestring && after is Polygon
            ||| before is Polygon && after is Multipoint
            ||| before is Multipoint && after is Multilinestring
            ||| before is Multilinestring && after is Multipolygon
            ||| before is Multipolygon && after is Geometrycollection
        }) ==> kind_index(after@) == kind_index(before@) + 1,
{
}

/// Every column type is reported by its own name in the protocol.
pub proof fn law_column_types_are_reported_by_name(column_type: ColumnType)
    ensures
        column_type_text(column_type) == "MYSQL_TYPE_"@ + (match column_type {
            ColumnType::MYSQL_TYPE_DECIMAL => "DECIMAL"@,
            ColumnType::MYSQL_TYPE_TINY => "TINY"@,
            ColumnType::MYSQL_TYPE_SHORT => "SHORT"@,
            ColumnType::MYSQL_TYPE_LONG => "LONG"@,
            ColumnType::MYSQL_TYPE_FLOAT => "FLOAT"@,
            ColumnType::MYSQL_TYPE_DOUBLE => "DOUBLE"@,
            ColumnType::MYSQL_TYPE_NULL => "NULL"@,
            ColumnType::MYSQL_TYPE_TIMESTAMP => "TIMESTAMP"@,
            ColumnType::MYSQL_TYPE_LONGLONG => "LONGLONG"@,
            ColumnType::MYSQL_TYPE_INT24 => "INT24"@,
            ColumnType::MYSQL_TYPE_DATE => "DATE"@,
            ColumnType::MYSQL_TYPE_TIME => "TIME"@,
            ColumnType::MYSQL_TYPE_DATETIME => "DATETIME"@,
            ColumnType::MYSQL_TYPE_YEAR => "YEAR"@,
            ColumnType::MYSQL_TYPE_NEWDATE => "NEWDATE"@,
            ColumnType::MYSQL_TYPE_VARCHAR => "VARCHAR"@,
            ColumnType::MYSQL_TYPE_BIT => "BIT"@,
            ColumnType::MYSQL_TYPE_TIMESTAMP2 => "TIMESTAMP2"@,
            ColumnType::MYSQL_TYPE_DATETIME2 => "DATETIME2"@,
            ColumnType::MYSQL_TYPE_TIME2 => "TIME2"@,
            ColumnType::MYSQL_TYPE_TYPED_ARRAY => "TYPED_ARRAY"@,
            ColumnType::MYSQL_TYPE_VECTOR => "VECTOR"@,
            ColumnType::MYSQL_TYPE_UNKNOWN => "UNKNOWN"@,
            ColumnType::MYSQL_TYPE_JSON => "JSON"@,
            ColumnType::MYSQL_TYPE_NEWDECIMAL => "NEWDECIMAL"@,
            ColumnType::MYSQL_TYPE_ENUM => "ENUM"@,
            ColumnType::MYSQL_TYPE_SET => "SET"@,
            ColumnType::MYSQL_TYPE_TINY_BLOB => "TINY_BLOB"@,
            ColumnType::MYSQL_TYPE_MEDIUM_BLOB => "MEDIUM_BLOB"@,
            ColumnType::MYSQL_TYPE_LONG_BLOB => "LONG_BLOB"@,
            ColumnType::MYSQL_TYPE_BLOB => "BLOB"@,
            ColumnType::MYSQL_TYPE_VAR_STRING => "VAR_STRING"@,
            ColumnType::MYSQL_TYPE_STRING => "STRING"@,
            ColumnType::MYSQL_TYPE_GEOMETRY => "GEOMETRY"@,
        }),
{
    reveal_strlit("MYSQL_TYPE_");
    match column_type {
        ColumnType::MYSQL_TYPE_DECIMAL => {
            reveal_strlit("DECIMAL");
            reveal_strlit("MYSQL_TYPE_DECIMAL");
            assert("MYSQL_TYPE_DECIMAL"@ =~= "MYSQL_TYPE_"@ + "DECIMAL"@);
        },
        ColumnType::MYSQL_TYPE_TINY => {
            reveal_strlit("TINY");
            reveal_strlit("MYSQL_TYPE_TINY");
            assert("MYSQL_TYPE_TINY"@ =~= "MYSQL_TYPE_"@ + "TINY"@);
        },
        ColumnType::MYSQL_TYPE_SHORT => {
            reveal_strlit("SHORT");
            reveal_strlit("MYSQL_TYPE_SHORT");
            assert("MYSQL_TYPE_SHORT"@ =~= "MYSQL_TYPE_"@ + "SHORT"@);
        },
        ColumnType::MYSQL_TYPE_LONG => {
            reveal_strlit("LONG");
            reveal_strlit("MYSQL_TYPE_LONG");
            assert("MYSQL_TYPE_LONG"@ =~= "MYSQL_TYPE_"@ + "LONG"@);
        },
        ColumnType::MYSQL_TYPE_FLOAT => {
            reveal_strlit("FLOAT");
            reveal_strlit("MYSQL_TYPE_FLOAT");
            assert("MYSQL_TYPE_FLOAT"@ =~= "MYSQL_TYPE_"@ + "FLOAT"@);
        },
        ColumnType::MYSQL_TYPE_DOUBLE => {
            reveal_strlit("DOUBLE");
            reveal_strlit("MYSQL_TYPE_DOUBLE");
            assert("MYSQL_TYPE_DOUBLE"@ =~= "MYSQL_TYPE_"@ + "DOUBLE"@);
        },
        ColumnType::MYSQL_TYPE_NULL => {
            reveal_strlit("NULL");
            reveal_strlit("MYSQL_TYPE_NULL");
            assert("MYSQL_TYPE_NULL"@ =~= "MYSQL_TYPE_"@ + "NULL"@);
        },
        ColumnType::MYSQL_TYPE_TIMESTAMP => {
            reveal_strlit("TIMESTAMP");
            reveal_strlit("MYSQL_TYPE_TIMESTAMP");
            assert("MYSQL_TYPE_TIMESTAMP"@ =~= "MYSQL_TYPE_"@ + "TIMESTAMP"@);
        },
        ColumnType::MYSQL_TYPE_LONGLONG => {
            reveal_strlit("LONGLONG");
            reveal_strlit("MYSQL_TYPE_LONGLONG");
            assert("MYSQL_TYPE_LONGLONG"@ =~= "MYSQL_TYPE_"@ + "LONGLONG"@);
        },
        ColumnType::MYSQL_TYPE_INT24 => {
            reveal_strlit("INT24");
            reveal_strlit("MYSQL_TYPE_INT24");
            assert("MYSQL_TYPE_INT24"@ =~= "MYSQL_TYPE_"@ + "INT24"@);
        },
        ColumnType::MYSQL_TYPE_DATE => {
            reveal_strlit("DATE");
            reveal_strlit("MYSQL_TYPE_DATE");
            assert("MYSQL_TYPE_DATE"@ =~= "MYSQL_TYPE_"@ + "DATE"@);
        },
        ColumnType::MYSQL_TYPE_TIME => {
            reveal_strlit("TIME");
            reveal_strlit("MYSQL_TYPE_TIME");
            assert("MYSQL_TYPE_TIME"@ =~= "MYSQL_TYPE_"@ + "TIME"@);
        },
        ColumnType::MYSQL_TYPE_DATETIME => {
            reveal_strlit("DATETIME");
            reveal_strlit("MYSQL_TYPE_DATETIME");
            assert("MYSQL_TYPE_DATETIME"@ =~= "MYSQL_TYPE_"@ + "DATETIME"@);
        },
        ColumnType::MYSQL_TYPE_YEAR => {
            reveal_strlit("YEAR");
            reveal_strlit("MYSQL_TYPE_YEAR");
            assert("MYSQL_TYPE_YEAR"@ =~= "MYSQL_TYPE_"@ + "YEAR"@);
        },
        ColumnType::MYSQL_TYPE_NEWDATE => {
            reveal_strlit("NEWDATE");
            reveal_strlit("MYSQL_TYPE_NEWDATE");
            assert("MYSQL_TYPE_NEWDATE"@ =~= "MYSQL_TYPE_"@ + "NEWDATE"@);
        },
        ColumnType::MYSQL_TYPE_VARCHAR => {
            reveal_strlit("VARCHAR");
            reveal_strlit("MYSQL_TYPE_VARCHAR");
            assert("MYSQL_TYPE_VARCHAR"@ =~= "MYSQL_TYPE_"@ + "VARCHAR"@);
        },
        ColumnType::MYSQL_TYPE_BIT => {
            reveal_strlit("BIT");
            reveal_strlit("MYSQL_TYPE_BIT");
            assert("MYSQL_TYPE_BIT"@ =~= "MYSQL_TYPE_"@ + "BIT"@);
        },
        ColumnType::MYSQL_TYPE_TIMESTAMP2 => {
            reveal_strlit("TIMESTAMP2");
            reveal_strlit("MYSQL_TYPE_TIMESTAMP2");
            assert("MYSQL_TYPE_TIMESTAMP2"@ =~= "MYSQL_TYPE_"@ + "TIMESTAMP2"@);
        },
        ColumnType::MYSQL_TYPE_DATETIME2 => {
            reveal_strlit("DATETIME2");
            reveal_strlit("MYSQL_TYPE_DATETIME2");
            assert("MYSQL_TYPE_DATETIME2"@ =~= "MYSQL_TYPE_"@ + "DATETIME2"@);
        },
        ColumnType::MYSQL_TYPE_TIME2 => {
            reveal_strlit("TIME2");
            reveal_strlit("MYSQL_TYPE_TIME2");
            assert("MYSQL_TYPE_TIME2"@ =~= "MYSQL_TYPE_"@ + "TIME2"@);
        },
        ColumnType::MYSQL_TYPE_TYPED_ARRAY => {
            reveal_strlit("TYPED_ARRAY");
            reveal_strlit("MYSQL_TYPE_TYPED_ARRAY");
            assert("MYSQL_TYPE_TYPED_ARRAY"@ =~= "MYSQL_TYPE_"@ + "TYPED_ARRAY"@);
        },
        ColumnType::MYSQL_TYPE_VECTOR => {
            reveal_strlit("VECTOR");
            reveal_strlit("MYSQL_TYPE_VECTOR");
            assert("MYSQL_TYPE_VECTOR"@ =~= "MYSQL_TYPE_"@ + "VECTOR"@);
        },
        ColumnType::MYSQL_TYPE_UNKNOWN => {
            reveal_strlit("UNKNOWN");
            reveal_strlit("MYSQL_TYPE_UNKNOWN");
            assert("MYSQL_TYPE_UNKNOWN"@ =~= "MYSQL_TYPE_"@ + "UNKNOWN"@);
        },
        ColumnType::MYSQL_TYPE_JSON => {
            reveal_strlit("JSON");
            reveal_strlit("MYSQL_TYPE_JSON");
            assert("MYSQL_TYPE_JSON"@ =~= "MYSQL_TYPE_"@ + "JSON"@);
        },
        ColumnType::MYSQL_TYPE_NEWDECIMAL => {
            reveal_strlit("NEWDECIMAL");
            reveal_strlit("MYSQL_TYPE_NEWDECIMAL");
            assert("MYSQL_TYPE_NEWDECIMAL"@ =~= "MYSQL_TYPE_"@ + "NEWDECIMAL"@);
        },
        ColumnType::MYSQL_TYPE_ENUM => {
            reveal_strlit("ENUM");
            reveal_strlit("MYSQL_TYPE_ENUM");
            assert("MYSQL_TYPE_ENUM"@ =~= "MYSQL_TYPE_"@ + "ENUM"@);
        },
        ColumnType::MYSQL_TYPE_SET => {
            reveal_strlit("SET");
            reveal_strlit("MYSQL_TYPE_SET");
            assert("MYSQL_TYPE_SET"@ =~= "MYSQL_TYPE_"@ + "SET"@);
        },
        ColumnType::MYSQL_TYPE_TINY_BLOB => {
            reveal_strlit("TINY_BLOB");
            reveal_strlit("MYSQL_TYPE_TINY_BLOB");
            assert("MYSQL_TYPE_TINY_BLOB"@ =~= "MYSQL_TYPE_"@ + "TINY_BLOB"@);
        },
        ColumnType::MYSQL_TYPE_MEDIUM_BLOB => {
            reveal_strlit("MEDIUM_BLOB");
            reveal_strlit("MYSQL_TYPE_MEDIUM_BLOB");
            assert("MYSQL_TYPE_MEDIUM_BLOB"@ =~= "MYSQL_TYPE_"@ + "MEDIUM_BLOB"@);
        },
        ColumnType::MYSQL_TYPE_LONG_BLOB => {
            reveal_strlit("LONG_BLOB");
            reveal_strlit("MYSQL_TYPE_LONG_BLOB");
            assert("MYSQL_TYPE_LONG_BLOB"@ =~= "MYSQL_TYPE_"@ + "LONG_BLOB"@);
        },
        ColumnType::MYSQL_TYPE_BLOB => {
            reveal_strlit("BLOB");
            reveal_strlit("MYSQL_TYPE_BLOB");
            assert("MYSQL_TYPE_BLOB"@ =~= "MYSQL_TYPE_"@ + "BLOB"@);
        },
        ColumnType::MYSQL_TYPE_VAR_STRING => {
            reveal_strlit("VAR_STRING");
            reveal_strlit("MYSQL_TYPE_VAR_STRING");
            assert("MYSQL_TYPE_VAR_STRING"@ =~= "MYSQL_TYPE_"@ + "VAR_STRING"@);
        },
        ColumnType::MYSQL_TYPE_STRING => {
            reveal_strlit("STRING");
            reveal_strlit("MYSQL_TYPE_STRING");
            assert("MYSQL_TYPE_STRING"@ =~= "MYSQL_TYPE_"@ + "STRING"@);
        },
        ColumnType::MYSQL_TYPE_GEOMETRY => {
            reveal_strlit("GEOMETRY");
            reveal_strlit("MYSQL_TYPE_GEOMETRY");
            assert("MYSQL_TYPE_GEOMETRY"@ =~= "MYSQL_TYPE_"@ + "GEOMETRY"@);
        },
    }
}

/// A mismatch is reported with the number of the value's kind and the name of the column's type.
pub proof fn law_mismatch_tells_kind_and_type(mismatch: TypeMismatch)
    ensures
        mismatch.text() == "Type mismatch: cannot use Discriminant("@ + decimal(
            mismatch.kind as nat,
        ) + ") for column type "@ + column_type_text(mismatch.expected),
{
}

} // verus!
