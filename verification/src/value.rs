//! The values that travel: what components exchange with the provider, what the MySQL driver
//! exchanges with the server, and the columns that values come from.

use vstd::prelude::*;

verus! {

/// A binary floating point number taken apart: mantissa, exponent of two and sign.
pub type FloatParts = (u64, i16, i8);

/// A calendar date.
#[derive(Clone, Copy, Debug, PartialEq, Eq)]
pub struct Date {
    pub year: u32,
    pub month: u32,
    pub day: u32,
}

/// A time of day, or a span of time that may be negative and longer than a day.
#[derive(Clone, Copy, Debug, PartialEq, Eq)]
pub struct Time {
    pub negative: bool,
    pub hour: u32,
    pub minute: u32,
    pub second: u32,
    pub microsecond: u32,
}

/// A date with a time of day.
#[derive(Clone, Copy, Debug, PartialEq, Eq)]
pub struct Datetime {
    pub date: Date,
    pub time: Time,
}

/// A point in time. MySQL converts to and from UTC itself.
#[derive(Clone, Copy, Debug, PartialEq, Eq)]
pub struct Timestamp {
    pub datetime: Datetime,
}

/// A year of two or of four digits.
#[derive(Clone, Copy, Debug, PartialEq, Eq)]
pub enum Year {
    YearTwo(u8),
    YearFour(u32),
}

/// A value as components see it. Pairs carry a length ahead of the contents.
#[derive(Debug, PartialEq)]
pub enum MysqlValue {
    Null,
    Tinyint(i8),
    TinyintUnsigned(u8),
    Smallint(i16),
    SmallintUnsigned(u16),
    Mediumint(i32),
    MediumintUnsigned(u32),
    Int(i32),
    Integer(i32),
    IntUnsigned(u32),
    IntegerUnsigned(u32),
    Bigint(i64),
    BigintUnsigned(u64),
    Decimal(String),
    Numeric(String),
    Float(FloatParts),
    Double(FloatParts),
    Real(FloatParts),
    Bit((u8, Vec<u8>)),
    Bool(bool),
    Boolean(bool),
    Date(Date),
    Time(Time),
    Datetime(Datetime),
    Timestamp(Timestamp),
    Year(Year),
    Char((u32, String)),
    Varchar((u32, String)),
    Text(String),
    Tinytext(String),
    Mediumtext(String),
    Longtext(String),
    Binary((u32, Vec<u8>)),
    Varbinary((u32, Vec<u8>)),
    Blob(Vec<u8>),
    Tinyblob(Vec<u8>),
    Mediumblob(Vec<u8>),
    Longblob(Vec<u8>),
    Json(String),
    Enum(String),
    SetValue(Vec<String>),
    Geometry(Vec<u8>),
    PointGeom(Vec<u8>),
    Linestring(Vec<u8>),
    Polygon(Vec<u8>),
    Multipoint(Vec<u8>),
    Multilinestring(Vec<u8>),
    Multipolygon(Vec<u8>),
    Geometrycollection(Vec<u8>),
}

/// What a [`MysqlValue`] stands for, with strings as sequences of characters and blobs as
/// sequences of bytes.
pub ghost enum ValueModel {
    Null,
    Tinyint(i8),
    TinyintUnsigned(u8),
    Smallint(i16),
    SmallintUnsigned(u16),
    Mediumint(i32),
    MediumintUnsigned(u32),
    Int(i32),
    Integer(i32),
    IntUnsigned(u32),
    IntegerUnsigned(u32),
    Bigint(i64),
    BigintUnsigned(u64),
    Decimal(Seq<char>),
    Numeric(Seq<char>),
    Float(FloatParts),
    Double(FloatParts),
    Real(FloatParts),
    Bit(u8, Seq<u8>),
    Bool(bool),
    Boolean(bool),
    Date(Date),
    Time(Time),
    Datetime(Datetime),
    Timestamp(Timestamp),
    Year(Year),
    Char(u32, Seq<char>),
    Varchar(u32, Seq<char>),
    Text(Seq<char>),
    Tinytext(Seq<char>),
    Mediumtext(Seq<char>),
    Longtext(Seq<char>),
    Binary(u32, Seq<u8>),
    Varbinary(u32, Seq<u8>),
    Blob(Seq<u8>),
    Tinyblob(Seq<u8>),
    Mediumblob(Seq<u8>),
    Longblob(Seq<u8>),
    Json(Seq<char>),
    Enum(Seq<char>),
    SetValue(Seq<Seq<char>>),
    Geometry(Seq<u8>),
    PointGeom(Seq<u8>),
    Linestring(Seq<u8>),
    Polygon(Seq<u8>),
    Multipoint(Seq<u8>),
    Multilinestring(Seq<u8>),
    Multipolygon(Seq<u8>),
    Geometrycollection(Seq<u8>),
}

/// The texts of a list of strings.
pub open spec fn texts(strings: Seq<String>) -> Seq<Seq<char>> {
    strings.map_values(|s: String| s@)
}

impl View for MysqlValue {
    type V = ValueModel;

    open spec fn view(&self) -> ValueModel {
        match *self {
            MysqlValue::Null => ValueModel::Null,
            MysqlValue::Tinyint(n) => ValueModel::Tinyint(n),
            MysqlValue::TinyintUnsigned(n) => ValueModel::TinyintUnsigned(n),
            MysqlValue::Smallint(n) => ValueModel::Smallint(n),
            MysqlValue::SmallintUnsigned(n) => ValueModel::SmallintUnsigned(n),
            MysqlValue::Mediumint(n) => ValueModel::Mediumint(n),
            MysqlValue::MediumintUnsigned(n) => ValueModel::MediumintUnsigned(n),
            MysqlValue::Int(n) => ValueModel::Int(n),
            MysqlValue::Integer(n) => ValueModel::Integer(n),
            MysqlValue::IntUnsigned(n) => ValueModel::IntUnsigned(n),
            MysqlValue::IntegerUnsigned(n) => ValueModel::IntegerUnsigned(n),
            MysqlValue::Bigint(n) => ValueModel::Bigint(n),
            MysqlValue::BigintUnsigned(n) => ValueModel::BigintUnsigned(n),
            MysqlValue::Decimal(s) => ValueModel::Decimal(s@),
            MysqlValue::Numeric(s) => ValueModel::Numeric(s@),
            MysqlValue::Float(f) => ValueModel::Float(f),
            MysqlValue::Double(f) => ValueModel::Double(f),
            MysqlValue::Real(f) => ValueModel::Real(f),
            MysqlValue::Bit(b) => ValueModel::Bit(b.0, b.1@),
            MysqlValue::Bool(b) => ValueModel::Bool(b),
            MysqlValue::Boolean(b) => ValueModel::Boolean(b),
            MysqlValue::Date(d) => ValueModel::Date(d),
            MysqlValue::Time(t) => ValueModel::Time(t),
            MysqlValue::Datetime(dt) => ValueModel::Datetime(dt),
            MysqlValue::Timestamp(ts) => ValueModel::Timestamp(ts),
            MysqlValue::Year(y) => ValueModel::Year(y),
            MysqlValue::Char(c) => ValueModel::Char(c.0, c.1@),
            MysqlValue::Varchar(c) => ValueModel::Varchar(c.0, c.1@),
            MysqlValue::Text(s) => ValueModel::Text(s@),
            MysqlValue::Tinytext(s) => ValueModel::Tinytext(s@),
            MysqlValue::Mediumtext(s) => ValueModel::Mediumtext(s@),
            MysqlValue::Longtext(s) => ValueModel::Longtext(s@),
            MysqlValue::Binary(b) => ValueModel::Binary(b.0, b.1@),
            MysqlValue::Varbinary(b) => ValueModel::Varbinary(b.0, b.1@),
            MysqlValue::Blob(b) => ValueModel::Blob(b@),
            MysqlValue::Tinyblob(b) => ValueModel::Tinyblob(b@),
            MysqlValue::Mediumblob(b) => ValueModel::Mediumblob(b@),
            MysqlValue::Longblob(b) => ValueModel::Longblob(b@),
            MysqlValue::Json(s) => ValueModel::Json(s@),
            MysqlValue::Enum(s) => ValueModel::Enum(s@),
            MysqlValue::SetValue(set) => ValueModel::SetValue(texts(set@)),
            MysqlValue::Geometry(b) => ValueModel::Geometry(b@),
            MysqlValue::PointGeom(b) => ValueModel::PointGeom(b@),
            MysqlValue::Linestring(b) => ValueModel::Linestring(b@),
            MysqlValue::Polygon(b) => ValueModel::Polygon(b@),
            MysqlValue::Multipoint(b) => ValueModel::Multipoint(b@),
            MysqlValue::Multilinestring(b) => ValueModel::Multilinestring(b@),
            MysqlValue::Multipolygon(b) => ValueModel::Multipolygon(b@),
            MysqlValue::Geometrycollection(b) => ValueModel::Geometrycollection(b@),
        }
    }
}

/// What a list of values stands for.
pub open spec fn values(list: Seq<MysqlValue>) -> Seq<ValueModel> {
    list.map_values(|v: MysqlValue| v@)
}

/// A value as the MySQL driver sees it. Floating point numbers are held taken apart.
#[derive(Debug, PartialEq)]
pub enum DriverValue {
    NULL,
    Bytes(Vec<u8>),
    Int(i64),
    UInt(u64),
    Float(FloatParts),
    Double(FloatParts),
    /// Year, month, day, hour, minute, second, microsecond.
    Date(u16, u8, u8, u8, u8, u8, u32),
    /// Whether it is negative, days, hours, minutes, seconds, microseconds.
    Time(bool, u32, u8, u8, u8, u32),
}

/// What a [`DriverValue`] stands for, with bytes as a sequence.
pub ghost enum DriverModel {
    NULL,
    Bytes(Seq<u8>),
    Int(i64),
    UInt(u64),
    Float(FloatParts),
    Double(FloatParts),
    Date(u16, u8, u8, u8, u8, u8, u32),
    Time(bool, u32, u8, u8, u8, u32),
}

impl View for DriverValue {
    type V = DriverModel;

    open spec fn view(&self) -> DriverModel {
        match *self {
            DriverValue::NULL => DriverModel::NULL,
            DriverValue::Bytes(b) => DriverModel::Bytes(b@),
            DriverValue::Int(n) => DriverModel::Int(n),
            DriverValue::UInt(n) => DriverModel::UInt(n),
            DriverValue::Float(f) => DriverModel::Float(f),
            DriverValue::Double(f) => DriverModel::Double(f),
            DriverValue::Date(year, month, day, hour, minute, second, micro) => DriverModel::Date(
                year,
                month,
                day,
                hour,
                minute,
                second,
                micro,
            ),
            DriverValue::Time(negative, days, hours, minutes, seconds, micros) => DriverModel::Time(
                negative,
                days,
                hours,
                minutes,
                seconds,
                micros,
            ),
        }
    }
}

/// What a list of driver values stands for.
pub open spec fn driver_values(list: Seq<DriverValue>) -> Seq<DriverModel> {
    list.map_values(|v: DriverValue| v@)
}

/// The column types of the MySQL protocol.
#[allow(non_camel_case_types)]
#[derive(Clone, Copy, Debug, PartialEq, Eq, Structural)]
pub enum ColumnType {
    MYSQL_TYPE_DECIMAL,
    MYSQL_TYPE_TINY,
    MYSQL_TYPE_SHORT,
    MYSQL_TYPE_LONG,
    MYSQL_TYPE_FLOAT,
    MYSQL_TYPE_DOUBLE,
    MYSQL_TYPE_NULL,
    MYSQL_TYPE_TIMESTAMP,
    MYSQL_TYPE_LONGLONG,
    MYSQL_TYPE_INT24,
    MYSQL_TYPE_DATE,
    MYSQL_TYPE_TIME,
    MYSQL_TYPE_DATETIME,
    MYSQL_TYPE_YEAR,
    MYSQL_TYPE_NEWDATE,
    MYSQL_TYPE_VARCHAR,
    MYSQL_TYPE_BIT,
    MYSQL_TYPE_TIMESTAMP2,
    MYSQL_TYPE_DATETIME2,
    MYSQL_TYPE_TIME2,
    MYSQL_TYPE_TYPED_ARRAY,
    MYSQL_TYPE_VECTOR,
    MYSQL_TYPE_UNKNOWN,
    MYSQL_TYPE_JSON,
    MYSQL_TYPE_NEWDECIMAL,
    MYSQL_TYPE_ENUM,
    MYSQL_TYPE_SET,
    MYSQL_TYPE_TINY_BLOB,
    MYSQL_TYPE_MEDIUM_BLOB,
    MYSQL_TYPE_LONG_BLOB,
    MYSQL_TYPE_BLOB,
    MYSQL_TYPE_VAR_STRING,
    MYSQL_TYPE_STRING,
    MYSQL_TYPE_GEOMETRY,
}

/// The weight of the flag that marks a column as holding binary data.
pub const BINARY_FLAG: u16 = 128;

/// What is known of the column that a value comes from.
#[derive(Debug, PartialEq)]
pub struct Column {
    pub name: String,
    pub column_type: ColumnType,
    pub column_length: u32,
    /// The column flags of the protocol, one per bit.
    pub flags: u16,
}

impl Column {
    /// Whether the column holds binary data rather than text.
    pub open spec fn binary(&self) -> bool {
        (self.flags / BINARY_FLAG) % 2 == 1
    }

    /// Whether the column holds binary data rather than text.
    pub fn is_binary(&self) -> (r: bool)
        ensures
            r == self.binary(),
    {
        (self.flags / BINARY_FLAG) % 2 == 1
    }
}

/// A column holds binary data exactly where the eighth of its flags, counted from the lowest, is
/// set.
pub proof fn law_binary_columns_are_flagged(column: Column)
    ensures
        column.binary() <==> column.flags & 0x80 != 0,
{
    let flags = column.flags;
    assert((flags & 0x80 != 0) == ((flags / 128) % 2 == 1)) by (bit_vector);
}

/// Lists are seen with their values in place: none is lost, added or moved.
pub proof fn law_lists_are_seen_in_place(
    strings: Seq<String>,
    list: Seq<MysqlValue>,
    driver_list: Seq<DriverValue>,
    i: int,
)
    ensures
        texts(strings).len() == strings.len(),
        0 <= i < strings.len() ==> texts(strings)[i] == strings[i]@,
        values(list).len() == list.len(),
        0 <= i < list.len() ==> values(list)[i] == list[i]@,
        driver_values(driver_list).len() == driver_list.len(),
        0 <= i < driver_list.len() ==> driver_values(driver_list)[i] == driver_list[i]@,
{
}

} // verus!
