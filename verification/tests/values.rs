use sqldb_mysql::convert::{classify_text, mysql_value_to_wit_value, InvalidText};
use sqldb_mysql::error::QueryError;
use sqldb_mysql::rows::{convert_rows, into_result_row, DriverCell, ResultRowEntry};
use sqldb_mysql::validate::{column_type_name, validate_mysql_value_for_column_type};
use sqldb_mysql::value::{
    Column, ColumnType, Date, Datetime, DriverValue, MysqlValue, Time, Timestamp, Year,
};

fn column(column_type: ColumnType, column_length: u32, flags: u16) -> Column {
    Column { name: "c".to_string(), column_type, column_length, flags }
}

fn text(s: &str) -> DriverValue {
    DriverValue::Bytes(s.as_bytes().to_vec())
}

fn read(value: DriverValue, column_type: ColumnType) -> Result<MysqlValue, InvalidText> {
    mysql_value_to_wit_value(value, &column(column_type, 300, 0))
}

const NO_TEXT: [u8; 2] = [0xff, 0xfe];

fn no_text() -> DriverValue {
    DriverValue::Bytes(NO_TEXT.to_vec())
}

#[test]
fn text_columns_need_text() {
    assert_eq!(
        read(text("{}"), ColumnType::MYSQL_TYPE_JSON),
        Ok(MysqlValue::Json("{}".to_string()))
    );
    assert_eq!(
        read(text("red"), ColumnType::MYSQL_TYPE_ENUM),
        Ok(MysqlValue::Enum("red".to_string()))
    );
    assert_eq!(
        read(text("a,b"), ColumnType::MYSQL_TYPE_SET),
        Ok(MysqlValue::SetValue(vec!["a".to_string(), "b".to_string()]))
    );
    assert_eq!(read(text(""), ColumnType::MYSQL_TYPE_SET), Ok(MysqlValue::SetValue(vec![])));
    assert_eq!(
        read(text("1.50"), ColumnType::MYSQL_TYPE_DECIMAL),
        Ok(MysqlValue::Decimal("1.50".to_string()))
    );
    assert_eq!(
        read(text("1.50"), ColumnType::MYSQL_TYPE_NEWDECIMAL),
        Ok(MysqlValue::Decimal("1.50".to_string()))
    );
    assert_eq!(read(no_text(), ColumnType::MYSQL_TYPE_JSON), Err(InvalidText::JsonColumn));
    assert_eq!(read(no_text(), ColumnType::MYSQL_TYPE_ENUM), Err(InvalidText::EnumColumn));
    assert_eq!(read(no_text(), ColumnType::MYSQL_TYPE_SET), Err(InvalidText::SetColumn));
    assert_eq!(read(no_text(), ColumnType::MYSQL_TYPE_DECIMAL), Err(InvalidText::DecimalColumn));
    assert_eq!(read(no_text(), ColumnType::MYSQL_TYPE_NEWDECIMAL), Err(InvalidText::DecimalColumn));
    assert_eq!(InvalidText::JsonColumn.message(), "Failed to convert JSON bytes to UTF-8");
    assert_eq!(InvalidText::EnumColumn.message(), "Failed to convert ENUM bytes to UTF-8");
    assert_eq!(InvalidText::SetColumn.message(), "Failed to convert SET bytes to UTF-8");
    assert_eq!(InvalidText::DecimalColumn.message(), "Failed to convert DECIMAL bytes to UTF-8");
}

#[test]
fn binary_columns_keep_bytes() {
    let bytes = NO_TEXT.to_vec();
    assert_eq!(
        read(no_text(), ColumnType::MYSQL_TYPE_BIT),
        Ok(MysqlValue::Bit((44, bytes.clone())))
    );
    assert_eq!(
        read(no_text(), ColumnType::MYSQL_TYPE_GEOMETRY),
        Ok(MysqlValue::Geometry(bytes.clone()))
    );
    assert_eq!(
        read(no_text(), ColumnType::MYSQL_TYPE_TINY_BLOB),
        Ok(MysqlValue::Tinyblob(bytes.clone()))
    );
    assert_eq!(
        read(no_text(), ColumnType::MYSQL_TYPE_MEDIUM_BLOB),
        Ok(MysqlValue::Mediumblob(bytes.clone()))
    );
    assert_eq!(
        read(no_text(), ColumnType::MYSQL_TYPE_LONG_BLOB),
        Ok(MysqlValue::Longblob(bytes.clone()))
    );
    assert_eq!(read(text("t"), ColumnType::MYSQL_TYPE_BLOB), Ok(MysqlValue::Blob(vec![b't'])));
}

#[test]
fn string_columns_by_flag_and_contents() {
    let fixed = ColumnType::MYSQL_TYPE_STRING;
    let varying = ColumnType::MYSQL_TYPE_VAR_STRING;
    let get = |v: DriverValue, t: ColumnType, flags: u16| {
        mysql_value_to_wit_value(v, &column(t, 300, flags))
    };
    assert_eq!(get(text("ab"), fixed, 0), Ok(MysqlValue::Char((300, "ab".to_string()))));
    assert_eq!(get(text("ab"), varying, 0), Ok(MysqlValue::Varchar((300, "ab".to_string()))));
    assert_eq!(get(text("ab"), fixed, 128), Ok(MysqlValue::Binary((300, b"ab".to_vec()))));
    assert_eq!(get(text("ab"), varying, 129), Ok(MysqlValue::Varbinary((300, b"ab".to_vec()))));
    assert_eq!(get(text("ab"), varying, 256 + 1), Ok(MysqlValue::Varchar((300, "ab".to_string()))));
    assert_eq!(get(no_text(), fixed, 0), Ok(MysqlValue::Binary((300, NO_TEXT.to_vec()))));
    assert_eq!(get(no_text(), varying, 0), Ok(MysqlValue::Varbinary((300, NO_TEXT.to_vec()))));
}

#[test]
fn other_columns_hold_text_or_blobs() {
    assert_eq!(
        read(text("1"), ColumnType::MYSQL_TYPE_TINY),
        Ok(MysqlValue::Tinytext("1".to_string()))
    );
    assert_eq!(
        read(text("1"), ColumnType::MYSQL_TYPE_LONG),
        Ok(MysqlValue::Longtext("1".to_string()))
    );
    assert_eq!(
        read(text("1"), ColumnType::MYSQL_TYPE_DATE),
        Ok(MysqlValue::Text("1".to_string()))
    );
    for t in [ColumnType::MYSQL_TYPE_TINY, ColumnType::MYSQL_TYPE_LONG, ColumnType::MYSQL_TYPE_YEAR]
    {
        assert_eq!(read(no_text(), t), Ok(MysqlValue::Blob(NO_TEXT.to_vec())));
    }
    assert_eq!(read(DriverValue::NULL, ColumnType::MYSQL_TYPE_JSON), Ok(MysqlValue::Null));
    assert_eq!(
        read(DriverValue::Int(1), ColumnType::MYSQL_TYPE_JSON),
        Ok(MysqlValue::Tinyint(1))
    );
}

#[test]
fn texts_without_a_column() {
    let json = |s: &str| assert_eq!(classify_text(s.to_string()), MysqlValue::Json(s.to_string()));
    let dec = |s: &str| assert_eq!(classify_text(s.to_string()), MysqlValue::Decimal(s.to_string()));
    let txt = |s: &str| assert_eq!(classify_text(s.to_string()), MysqlValue::Text(s.to_string()));
    json("{}");
    json(" \t[1]");
    json("\u{3000}{");
    dec("1.5");
    dec("-1.5e+10");
    dec(".");
    txt("15");
    txt("");
    txt("  ");
    txt("1.5 ");
    txt("hello [");
    txt("v1.5");
    assert_eq!(MysqlValue::from_driver(no_text()), MysqlValue::Blob(NO_TEXT.to_vec()));
    assert_eq!(MysqlValue::from_driver(text("caf\u{e9}")), MysqlValue::Text("caf\u{e9}".to_string()));
}

#[test]
fn integers_take_the_narrowest_type() {
    let int = |n: i64| MysqlValue::from_driver(DriverValue::Int(n));
    assert_eq!(int(-128), MysqlValue::Tinyint(-128));
    assert_eq!(int(127), MysqlValue::Tinyint(127));
    assert_eq!(int(128), MysqlValue::Smallint(128));
    assert_eq!(int(-32768), MysqlValue::Smallint(-32768));
    assert_eq!(int(32768), MysqlValue::Int(32768));
    assert_eq!(int(i32::MIN as i64), MysqlValue::Int(i32::MIN));
    assert_eq!(int(i32::MIN as i64 - 1), MysqlValue::Bigint(i32::MIN as i64 - 1));
    let uint = |n: u64| MysqlValue::from_driver(DriverValue::UInt(n));
    assert_eq!(uint(255), MysqlValue::TinyintUnsigned(255));
    assert_eq!(uint(256), MysqlValue::SmallintUnsigned(256));
    assert_eq!(uint(65536), MysqlValue::IntUnsigned(65536));
    assert_eq!(uint(u64::MAX), MysqlValue::BigintUnsigned(u64::MAX));
}

#[test]
fn dates_and_times_are_read() {
    let date = Date { year: 2024, month: 2, day: 29 };
    assert_eq!(
        MysqlValue::from_driver(DriverValue::Date(2024, 2, 29, 0, 0, 0, 0)),
        MysqlValue::Date(date)
    );
    assert_eq!(
        MysqlValue::from_driver(DriverValue::Date(2024, 2, 29, 0, 0, 0, 1)),
        MysqlValue::Datetime(Datetime {
            date,
            time: Time { negative: false, hour: 0, minute: 0, second: 0, microsecond: 1 },
        })
    );
    assert_eq!(
        MysqlValue::from_driver(DriverValue::Time(true, 34, 22, 59, 58, 7)),
        MysqlValue::Time(Time { negative: true, hour: 838, minute: 59, second: 58, microsecond: 7 })
    );
    assert!(DriverValue::Time(false, 178956970, 15, 0, 0, 0).time_fits());
    assert!(!DriverValue::Time(false, 178956970, 16, 0, 0, 0).time_fits());
    assert!(!DriverValue::Time(false, u32::MAX, 0, 0, 0, 0).time_fits());
    assert!(DriverValue::NULL.time_fits());
}

#[test]
fn values_take_the_driver_form() {
    let put = DriverValue::from_value;
    assert_eq!(put(MysqlValue::Null), DriverValue::NULL);
    assert_eq!(put(MysqlValue::Tinyint(-1)), DriverValue::Int(-1));
    assert_eq!(put(MysqlValue::MediumintUnsigned(9)), DriverValue::UInt(9));
    assert_eq!(put(MysqlValue::Integer(-5)), DriverValue::Int(-5));
    assert_eq!(put(MysqlValue::Bool(true)), DriverValue::Int(1));
    assert_eq!(put(MysqlValue::Boolean(false)), DriverValue::Int(0));
    assert_eq!(put(MysqlValue::Real((3, -1, 1))), DriverValue::Double((3, -1, 1)));
    assert_eq!(put(MysqlValue::Float((3, -1, -1))), DriverValue::Float((3, -1, -1)));
    assert_eq!(put(MysqlValue::Numeric("1.0".to_string())), text("1.0"));
    assert_eq!(put(MysqlValue::Bit((3, vec![5]))), DriverValue::Bytes(vec![5]));
    assert_eq!(put(MysqlValue::Year(Year::YearTwo(24))), DriverValue::UInt(24));
    assert_eq!(put(MysqlValue::Year(Year::YearFour(2024))), DriverValue::UInt(2024));
    assert_eq!(put(MysqlValue::Varchar((9, "\u{e9}".to_string()))), DriverValue::Bytes(vec![0xc3, 0xa9]));
    assert_eq!(
        put(MysqlValue::SetValue(vec!["a".to_string(), "b".to_string()])),
        text("a,b")
    );
    assert_eq!(put(MysqlValue::Multipolygon(vec![1, 2])), DriverValue::Bytes(vec![1, 2]));
    let date = Date { year: 65536 + 2024, month: 256 + 2, day: 3 };
    let time = Time { negative: true, hour: 49, minute: 61, second: 256, microsecond: 8 };
    assert_eq!(put(MysqlValue::Date(date)), DriverValue::Date(2024, 2, 3, 0, 0, 0, 0));
    assert_eq!(put(MysqlValue::Time(time)), DriverValue::Time(true, 2, 1, 61, 0, 8));
    let datetime = Datetime { date, time };
    assert_eq!(put(MysqlValue::Datetime(datetime)), DriverValue::Date(2024, 2, 3, 49, 61, 0, 8));
    assert_eq!(
        put(MysqlValue::Timestamp(Timestamp { datetime })),
        DriverValue::Date(2024, 2, 3, 49, 61, 0, 8)
    );
}

#[test]
fn driver_values_come_back() {
    let samples = || {
        vec![
            DriverValue::NULL,
            text("1.5"),
            text("{}"),
            text("a,,b"),
            no_text(),
            DriverValue::Int(i64::MIN),
            DriverValue::UInt(70000),
            DriverValue::Float((5, 3, -1)),
            DriverValue::Double((0, 0, 1)),
            DriverValue::Date(2024, 1, 2, 0, 0, 0, 0),
            DriverValue::Date(2024, 1, 2, 3, 4, 5, 6),
            DriverValue::Time(true, 2, 23, 59, 59, 1),
        ]
    };
    for (value, same) in samples().into_iter().zip(samples()) {
        assert_eq!(DriverValue::from_value(MysqlValue::from_driver(value)), same);
    }
    for t in [
        ColumnType::MYSQL_TYPE_SET,
        ColumnType::MYSQL_TYPE_STRING,
        ColumnType::MYSQL_TYPE_BIT,
        ColumnType::MYSQL_TYPE_BLOB,
        ColumnType::MYSQL_TYPE_TINY,
    ] {
        for (value, same) in samples().into_iter().zip(samples()) {
            if let Ok(v) = read(value, t) {
                assert_eq!(DriverValue::from_value(v), same);
            }
        }
    }
    let full_day = MysqlValue::from_driver(DriverValue::Time(false, 0, 24, 0, 0, 0));
    assert_eq!(DriverValue::from_value(full_day), DriverValue::Time(false, 1, 0, 0, 0, 0));
}

#[test]
fn written_values_read_back() {
    let back = |v: MysqlValue, c: Column| mysql_value_to_wit_value(DriverValue::from_value(v), &c);
    let set = || MysqlValue::SetValue(vec!["x".to_string(), "".to_string()]);
    assert_eq!(back(set(), column(ColumnType::MYSQL_TYPE_SET, 0, 0)), Ok(set()));
    let bits = || MysqlValue::Bit((44, vec![7]));
    assert_eq!(back(bits(), column(ColumnType::MYSQL_TYPE_BIT, 300, 0)), Ok(bits()));
    let chars = || MysqlValue::Char((4, "\u{1f600}".to_string()));
    assert_eq!(back(chars(), column(ColumnType::MYSQL_TYPE_STRING, 4, 0)), Ok(chars()));
    let binary = || MysqlValue::Varbinary((9, NO_TEXT.to_vec()));
    assert_eq!(back(binary(), column(ColumnType::MYSQL_TYPE_VAR_STRING, 9, 0)), Ok(binary()));
    let date = || MysqlValue::Date(Date { year: 65535, month: 12, day: 31 });
    assert_eq!(MysqlValue::from_driver(DriverValue::from_value(date())), date());
    let span = || {
        MysqlValue::Time(Time { negative: true, hour: u32::MAX, minute: 1, second: 2, microsecond: 3 })
    };
    assert_eq!(MysqlValue::from_driver(DriverValue::from_value(span())), span());
    assert_eq!(
        MysqlValue::from_driver(DriverValue::from_value(MysqlValue::Bigint(5))),
        MysqlValue::Tinyint(5)
    );
}

#[test]
fn what_is_read_back_means_the_same() {
    let samples = || {
        vec![
            MysqlValue::Numeric("1".to_string()),
            MysqlValue::Mediumtext("m".to_string()),
            MysqlValue::SetValue(vec!["a,b".to_string(), "".to_string()]),
            MysqlValue::Real((1, 2, -1)),
            MysqlValue::Year(Year::YearTwo(7)),
            MysqlValue::Date(Date { year: 70000, month: 300, day: 1 }),
            MysqlValue::Polygon(vec![1, 0xff]),
        ]
    };
    for t in [ColumnType::MYSQL_TYPE_BLOB, ColumnType::MYSQL_TYPE_STRING, ColumnType::MYSQL_TYPE_YEAR]
    {
        for (value, same) in samples().into_iter().zip(samples()) {
            let back = read(DriverValue::from_value(value), t).unwrap();
            assert_eq!(DriverValue::from_value(back), DriverValue::from_value(same));
        }
    }
}

#[test]
fn columns_of_another_kind_change_the_value() {
    let text = || MysqlValue::Text("t".to_string());
    assert_eq!(
        read(DriverValue::from_value(text()), ColumnType::MYSQL_TYPE_BLOB),
        Ok(MysqlValue::Blob(b"t".to_vec()))
    );
    assert_eq!(
        read(DriverValue::from_value(text()), ColumnType::MYSQL_TYPE_VARCHAR),
        Ok(text())
    );
    assert_eq!(
        read(DriverValue::from_value(MysqlValue::Int(7)), ColumnType::MYSQL_TYPE_LONG),
        Ok(MysqlValue::Tinyint(7))
    );
}

#[test]
fn column_types_have_protocol_names() {
    assert_eq!(column_type_name(ColumnType::MYSQL_TYPE_VAR_STRING), "MYSQL_TYPE_VAR_STRING");
    assert_eq!(
        column_type_name(ColumnType::MYSQL_TYPE_INT24),
        format!("{:?}", mysql_async::consts::ColumnType::MYSQL_TYPE_INT24)
    );
}

#[test]
fn values_are_held_to_column_types() {
    let ok = |v: MysqlValue, t: ColumnType| {
        assert_eq!(validate_mysql_value_for_column_type(&v, t), Ok(()));
    };
    ok(MysqlValue::Null, ColumnType::MYSQL_TYPE_VECTOR);
    ok(MysqlValue::Bool(true), ColumnType::MYSQL_TYPE_TINY);
    ok(MysqlValue::TinyintUnsigned(1), ColumnType::MYSQL_TYPE_TINY);
    ok(MysqlValue::Smallint(1), ColumnType::MYSQL_TYPE_SHORT);
    ok(MysqlValue::Mediumint(1), ColumnType::MYSQL_TYPE_INT24);
    ok(MysqlValue::IntegerUnsigned(1), ColumnType::MYSQL_TYPE_LONG);
    ok(MysqlValue::Bigint(1), ColumnType::MYSQL_TYPE_LONGLONG);
    ok(MysqlValue::Numeric("1".to_string()), ColumnType::MYSQL_TYPE_NEWDECIMAL);
    ok(MysqlValue::Text("t".to_string()), ColumnType::MYSQL_TYPE_BLOB);
    ok(MysqlValue::Varbinary((1, vec![1])), ColumnType::MYSQL_TYPE_STRING);
    ok(MysqlValue::Geometrycollection(vec![]), ColumnType::MYSQL_TYPE_GEOMETRY);
    let refused = |v: MysqlValue, t: ColumnType| {
        let e = validate_mysql_value_for_column_type(&v, t).unwrap_err();
        assert_eq!(
            e.message(),
            format!(
                "Type mismatch: cannot use {:?} for column type {:?}",
                std::mem::discriminant(&v),
                t
            )
        );
    };
    refused(MysqlValue::Tinyint(1), ColumnType::MYSQL_TYPE_SHORT);
    refused(MysqlValue::Float((0, 0, 1)), ColumnType::MYSQL_TYPE_DOUBLE);
    refused(MysqlValue::Char((1, "a".to_string())), ColumnType::MYSQL_TYPE_VAR_STRING);
    refused(MysqlValue::Text("t".to_string()), ColumnType::MYSQL_TYPE_TINY_BLOB);
    refused(MysqlValue::Geometrycollection(vec![]), ColumnType::MYSQL_TYPE_VECTOR);
}

#[test]
fn what_is_read_is_accepted_again() {
    for t in [
        ColumnType::MYSQL_TYPE_STRING,
        ColumnType::MYSQL_TYPE_VAR_STRING,
        ColumnType::MYSQL_TYPE_BLOB,
        ColumnType::MYSQL_TYPE_SET,
        ColumnType::MYSQL_TYPE_GEOMETRY,
    ] {
        for bytes in [text("abc"), no_text()] {
            if let Ok(v) = read(bytes, t) {
                assert_eq!(validate_mysql_value_for_column_type(&v, t), Ok(()));
            }
        }
    }
}

#[test]
fn rows_carry_names_and_values() {
    let cell = |name: &str, t: ColumnType, value: DriverValue| DriverCell {
        column: Column { name: name.to_string(), column_type: t, column_length: 1, flags: 0 },
        value,
    };
    let row = into_result_row(vec![
        cell("id", ColumnType::MYSQL_TYPE_LONG, DriverValue::Int(300)),
        cell("doc", ColumnType::MYSQL_TYPE_JSON, text("[]")),
    ]);
    assert_eq!(
        row,
        Ok(vec![
            ResultRowEntry { column_name: "id".to_string(), value: MysqlValue::Smallint(300) },
            ResultRowEntry {
                column_name: "doc".to_string(),
                value: MysqlValue::Json("[]".to_string()),
            },
        ])
    );
    let failed = convert_rows(vec![
        vec![cell("a", ColumnType::MYSQL_TYPE_BLOB, no_text())],
        vec![
            cell("b", ColumnType::MYSQL_TYPE_SET, no_text()),
            cell("c", ColumnType::MYSQL_TYPE_JSON, no_text()),
        ],
    ]);
    assert_eq!(
        failed,
        Err(QueryError::Unexpected(
            "failed to convert rows: Failed to convert SET bytes to UTF-8".to_string()
        ))
    );
    assert_eq!(convert_rows(vec![]), Ok(vec![]));
}
