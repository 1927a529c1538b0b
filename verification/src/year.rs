//! MySQL `YEAR` values of two and of four digits.

use vstd::prelude::*;
use crate::bits::low_u16;
use crate::value::Year;

verus! {

/// The year that a `YEAR` value means. Two digits up to 69 mean a year from 2000 on, more mean a
/// year from 1900 on; of four digits as much counts as sixteen bits hold.
pub open spec fn year_number(year: Year) -> int {
    match year {
        Year::YearTwo(y) => if y <= 69 {
            2000 + y
        } else {
            1900 + y
        },
        Year::YearFour(y) => y as int % 0x1_0000,
    }
}

/// The `YEAR` value of a year: two digits from 1970 to 2069, four otherwise.
pub open spec fn year_value(year: u16) -> Year {
    if 2000 <= year <= 2069 {
        Year::YearTwo((year - 2000) as u8)
    } else if 1970 <= year <= 1999 {
        Year::YearTwo((year - 1900) as u8)
    } else {
        Year::YearFour(year as u32)
    }
}

/// Handle MySQL YEAR type conversion.
pub fn mysql_year_to_u16(year: &Year) -> (number: u16)
    ensures
        number == year_number(*year),
{
    match year {
        // MySQL reads two digits as follows:
        // 00-69 -> 2000-2069
        // 70-99 -> 1970-1999
        Year::YearTwo(y) => if *y <= 69 {
            2000 + *y as u16
        } else {
            1900 + *y as u16
        },
        Year::YearFour(y) => low_u16(*y),
    }
}

/// Convert u16 year back to MySQL Year type.
pub fn u16_to_mysql_year(year: u16) -> (value: Year)
    ensures
        value == year_value(year),
{
    if year >= 2000 && year <= 2069 {
        Year::YearTwo((year - 2000) as u8)
    } else if year >= 1970 && year <= 1999 {
        Year::YearTwo((year - 1900) as u8)
    } else {
        Year::YearFour(year as u32)
    }
}

/// Every year survives being turned into a `YEAR` value and back.
pub proof fn law_year_survives(year: u16)
    ensures
        year_number(year_value(year)) == year,
{
}

/// Every `YEAR` value of two decimal digits survives being turned into a year and back.
pub proof fn law_two_digit_year_survives(digits: u8)
    requires
        digits <= 99,
    ensures
        year_value(year_number(Year::YearTwo(digits)) as u16) == Year::YearTwo(digits),
{
}

/// Two decimal digits mean the one year from 1970 to 2069 that ends in them. More than two digits
/// in a `YEAR` value of two count from 1900.
pub proof fn law_two_digits_mean_a_year_around_2000(digits: u8)
    ensures
        digits <= 99 ==> {
            &&& 1970 <= year_number(Year::YearTwo(digits)) <= 2069
            &&& year_number(Year::YearTwo(digits)) % 100 == digits
        },
        digits > 99 ==> year_number(Year::YearTwo(digits)) - 1900 == digits,
{
}

/// Four digits mean themselves, as far as sixteen bits hold them.
pub proof fn law_four_digits_mean_themselves(digits: u32)
    ensures
        digits < 0x1_0000 ==> year_number(Year::YearFour(digits)) == digits,
        0 <= year_number(Year::YearFour(digits)) < 0x1_0000,
        (digits - year_number(Year::YearFour(digits))) % 0x1_0000 == 0,
{
}

/// A year is written with its last two digits from 1970 to 2069, and in full otherwise.
pub proof fn law_years_around_2000_have_two_digits(year: u16)
    ensures
        match year_value(year) {
            Year::YearTwo(digits) => 1970 <= year <= 2069 && digits == year % 100,
            Year::YearFour(digits) => !(1970 <= year <= 2069) && digits == year,
        },
{
}

} // verus!
