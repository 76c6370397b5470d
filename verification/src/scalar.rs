//! The scalar values whose wire text is read and written by other crates:
//! byte strings in base64, decimal numbers, instants and calendar dates.

use crate::text::digit_char;
use std::str::FromStr;
use vstd::prelude::*;
use vstd::std_specs::cmp::PartialEqSpecImpl;

verus! {

/// What `base64::decode` makes of a text: the bytes, or the message of its
/// error.
pub uninterp spec fn base64_decoded(text: Seq<char>) -> Result<Seq<u8>, Seq<char>>;

/// The text that `base64::encode` writes for a byte string.
pub uninterp spec fn base64_encoded(bytes: Seq<u8>) -> Seq<char>;

/// What `BigDecimal::from_str` makes of a text: the unscaled integer, as
/// big-endian two's-complement bytes, and the scale; `None` where it refuses
/// the text.
pub uninterp spec fn numeric_parsed(text: Seq<char>) -> Option<(Seq<u8>, i64)>;

/// The text that a `BigDecimal` with this unscaled integer and scale
/// displays.
pub uninterp spec fn numeric_text(unscaled: Seq<u8>, scale: i64) -> Seq<char>;

/// Whether `==` holds between the `BigDecimal` with the first unscaled
/// integer and scale and the one with the second: whether the two are the
/// same number.
pub uninterp spec fn numeric_equal(
    unscaled: Seq<u8>,
    scale: i64,
    other_unscaled: Seq<u8>,
    other_scale: i64,
) -> bool;

/// Whether `text` is read as the number with this unscaled integer and
/// scale, in a representation that is written as `text` again.
pub open spec fn numeric_reads_back(text: Seq<char>, unscaled: Seq<u8>, scale: i64) -> bool {
    match numeric_parsed(text) {
        Some(read) => numeric_equal(read.0, read.1, unscaled, scale) && numeric_text(
            read.0,
            read.1,
        ) == text,
        None => false,
    }
}

/// What `DateTime::parse_from_rfc3339` makes of a text, moved to UTC: the
/// seconds since the Unix epoch and the nanoseconds within the second, or
/// the message of its error.
pub uninterp spec fn instant_parsed(text: Seq<char>) -> Result<(i64, u32), Seq<char>>;

/// The text that `DateTime::<Utc>::to_rfc3339` writes for an instant.
pub uninterp spec fn instant_text(seconds: i64, nanos: u32) -> Seq<char>;

/// Whether `DateTime::from_timestamp` has an instant for these numbers.
pub uninterp spec fn instant_exists(seconds: i64, nanos: u32) -> bool;

/// What `NaiveDate::from_str` makes of a text: year, month and day, or the
/// message of its error.
pub uninterp spec fn date_parsed(text: Seq<char>) -> Result<(i32, u32, u32), Seq<char>>;

/// The text that a `NaiveDate` displays.
pub uninterp spec fn date_text(year: i32, month: u32, day: u32) -> Seq<char>;

/// Whether a year of the proleptic Gregorian calendar has a 29th of
/// February.
pub open spec fn is_leap_year(year: int) -> bool {
    year % 4 == 0 && (year % 100 != 0 || year % 400 == 0)
}

/// The number of days of a month of a year.
pub open spec fn days_in_month(year: int, month: int) -> int {
    if month == 2 {
        if is_leap_year(year) {
            29
        } else {
            28
        }
    } else if month == 4 || month == 6 || month == 9 || month == 11 {
        30
    } else {
        31
    }
}

/// Whether the proleptic Gregorian calendar has a day with these numbers
/// among the years that a `NaiveDate` can hold, which is when
/// `NaiveDate::from_ymd_opt` has a date for them.
pub open spec fn date_exists(year: i32, month: u32, day: u32) -> bool {
    &&& -262143 <= year <= 262142
    &&& 1 <= month <= 12
    &&& 1 <= day <= days_in_month(year as int, month as int)
}

/// Whether `base64::decode` reads `text` as `bytes`.
pub open spec fn base64_reads_back(text: Seq<char>, bytes: Seq<u8>) -> bool {
    base64_decoded(text) == Ok::<Seq<u8>, Seq<char>>(bytes)
}

/// Whether an instant lies in the years 1 to 9999, which are the instants
/// that the database stores and that the RFC 3339 format has text for.
pub open spec fn instant_in_range(seconds: i64, nanos: u32) -> bool {
    -62135596800 <= seconds <= 253402300799
}

/// Whether `text` is read as the instant with these numbers, where the
/// instant is one that the database stores.
pub open spec fn instant_reads_back(text: Seq<char>, seconds: i64, nanos: u32) -> bool {
    instant_in_range(seconds, nanos) ==> instant_parsed(text) == Ok::<(i64, u32), Seq<char>>(
        (seconds, nanos),
    )
}

/// The two digits that write a number below one hundred.
pub open spec fn two_digits(n: int) -> Seq<char> {
    seq![digit_char(n / 10), digit_char(n % 10)]
}

/// A date of the years 0 to 9999 in the form `YYYY-MM-DD`.
pub open spec fn iso_date(year: i32, month: u32, day: u32) -> Seq<char> {
    two_digits(year as int / 100) + two_digits(year as int % 100) + seq!['-'] + two_digits(
        month as int,
    )
        + seq!['-'] + two_digits(day as int)
}

/// Whether `text` is what a date of the years 0 to 9999 is written as: four
/// digits of the year, two of the month and two of the day, with hyphens
/// between them.
pub open spec fn date_written_as(text: Seq<char>, year: i32, month: u32, day: u32) -> bool {
    0 <= year <= 9999 ==> text == iso_date(year, month, day)
}

/// Whether `text` is read as the date with these numbers.
pub open spec fn date_reads_back(text: Seq<char>, year: i32, month: u32, day: u32) -> bool {
    date_parsed(text) == Ok::<(i32, u32, u32), Seq<char>>((year, month, day))
}

/// Calls `base64::decode`, which reads standard base64 with padding. The
/// result is what that function returns for the text; its error is handed on
/// as the text that the error displays.
#[verifier::external_body]
pub(crate) fn base64_decode(text: &str) -> (r: Result<Vec<u8>, String>)
    ensures
        match r {
            Ok(bytes) => base64_decoded(text@) == Ok::<Seq<u8>, Seq<char>>(bytes@),
            Err(message) => base64_decoded(text@) == Err::<Seq<u8>, Seq<char>>(message@),
        },
{
    match base64::decode(text) {
        Ok(bytes) => Ok(bytes),
        Err(e) => Err(e.to_string()),
    }
}

/// Calls `base64::encode`, which writes standard base64 with padding. The
/// result is what that function returns for the bytes, and `base64::decode`
/// reads it back as the same bytes.
#[verifier::external_body]
pub(crate) fn base64_encode(bytes: &Vec<u8>) -> (r: String)
    ensures
        r@ == base64_encoded(bytes@),
        base64_reads_back(r@, bytes@),
{
    base64::encode(bytes)
}

/// Calls `BigDecimal::from_str` and hands out the parts of the number that
/// it returns: the unscaled integer as the bytes of
/// `BigInt::to_signed_bytes_be`, and the scale.
#[verifier::external_body]
pub(crate) fn numeric_parse(text: &str) -> (r: Option<(Vec<u8>, i64)>)
    ensures
        match r {
            Some(parts) => numeric_parsed(text@) == Some((parts.0@, parts.1)),
            None => numeric_parsed(text@) is None,
        },
{
    match bigdecimal::BigDecimal::from_str(text) {
        Ok(number) => {
            let (unscaled, scale) = number.into_bigint_and_exponent();
            Some((unscaled.to_signed_bytes_be(), scale))
        },
        Err(_) => None,
    }
}

/// Builds the `BigDecimal` with this unscaled integer and scale, with
/// `BigInt::from_signed_bytes_be` and `BigDecimal::new`, and returns what it
/// displays. The text holds every digit of the number, so that
/// `BigDecimal::from_str` reads it as a number that is `==` to the one that
/// was written, and that is displayed as the same text.
#[verifier::external_body]
pub(crate) fn numeric_format(unscaled: &Vec<u8>, scale: i64) -> (r: String)
    ensures
        r@ == numeric_text(unscaled@, scale),
        numeric_reads_back(r@, unscaled@, scale),
{
    let digits = bigdecimal::num_bigint::BigInt::from_signed_bytes_be(unscaled);
    bigdecimal::BigDecimal::new(digits, scale).to_string()
}

/// Builds the two `BigDecimal`s with `BigInt::from_signed_bytes_be` and
/// `BigDecimal::new` and compares them with `==`, which compares numbers:
/// `1.0` and `1.00` are equal.
#[verifier::external_body]
pub(crate) fn numeric_compare(
    unscaled: &Vec<u8>,
    scale: i64,
    other_unscaled: &Vec<u8>,
    other_scale: i64,
) -> (r: bool)
    ensures
        r == numeric_equal(unscaled@, scale, other_unscaled@, other_scale),
{
    let digits = bigdecimal::num_bigint::BigInt::from_signed_bytes_be(unscaled);
    let other_digits = bigdecimal::num_bigint::BigInt::from_signed_bytes_be(other_unscaled);
    bigdecimal::BigDecimal::new(digits, scale) == bigdecimal::BigDecimal::new(
        other_digits,
        other_scale,
    )
}

/// Calls `DateTime::parse_from_rfc3339`, moves the result to UTC and hands
/// out its `timestamp` and `timestamp_subsec_nanos`, from which
/// `DateTime::from_timestamp` makes the same instant again. The error is
/// handed on as the text that it displays.
#[verifier::external_body]
pub(crate) fn instant_parse(text: &str) -> (r: Result<(i64, u32), String>)
    ensures
        match r {
            Ok(parts) => instant_parsed(text@) == Ok::<(i64, u32), Seq<char>>(parts)
                && instant_exists(parts.0, parts.1),
            Err(message) => instant_parsed(text@) == Err::<(i64, u32), Seq<char>>(message@),
        },
{
    match chrono::DateTime::parse_from_rfc3339(text) {
        Ok(parsed) => {
            let utc = parsed.with_timezone(&chrono::Utc);
            Ok((utc.timestamp(), utc.timestamp_subsec_nanos()))
        },
        Err(e) => Err(e.to_string()),
    }
}

/// Whether `DateTime::from_timestamp` returns an instant for these numbers.
#[verifier::external_body]
pub(crate) fn instant_check(seconds: i64, nanos: u32) -> (r: bool)
    ensures
        r == instant_exists(seconds, nanos),
{
    chrono::DateTime::from_timestamp(seconds, nanos).is_some()
}

/// Makes the instant with `DateTime::from_timestamp` and returns what
/// `to_rfc3339` writes for it. For an instant of the years 1 to 9999, within
/// a leap second or not, `parse_from_rfc3339` reads that text back as the
/// same instant.
#[verifier::external_body]
pub(crate) fn instant_format(seconds: i64, nanos: u32) -> (r: String)
    requires
        instant_exists(seconds, nanos),
    ensures
        r@ == instant_text(seconds, nanos),
        instant_reads_back(r@, seconds, nanos),
{
    match chrono::DateTime::from_timestamp(seconds, nanos) {
        Some(instant) => instant.to_rfc3339(),
        None => String::new(),
    }
}

/// Calls `NaiveDate::from_str` and hands out year, month and day of the date
/// that it returns, from which `NaiveDate::from_ymd_opt` makes the same date
/// again. The error is handed on as the text that it displays.
#[verifier::external_body]
pub(crate) fn date_parse(text: &str) -> (r: Result<(i32, u32, u32), String>)
    ensures
        match r {
            Ok(parts) => date_parsed(text@) == Ok::<(i32, u32, u32), Seq<char>>(parts)
                && date_exists(parts.0, parts.1, parts.2),
            Err(message) => date_parsed(text@) == Err::<(i32, u32, u32), Seq<char>>(message@),
        },
{
    match chrono::NaiveDate::from_str(text) {
        Ok(date) => Ok(
            (
                chrono::Datelike::year(&date),
                chrono::Datelike::month(&date),
                chrono::Datelike::day(&date),
            ),
        ),
        Err(e) => Err(e.to_string()),
    }
}

/// Whether `NaiveDate::from_ymd_opt` returns a date for these numbers: it
/// does for every day of the proleptic Gregorian calendar in the years from
/// -262143 to 262142, and for nothing else.
#[verifier::external_body]
pub(crate) fn date_check(year: i32, month: u32, day: u32) -> (r: bool)
    ensures
        r == date_exists(year, month, day),
{
    chrono::NaiveDate::from_ymd_opt(year, month, day).is_some()
}

/// Makes the date with `NaiveDate::from_ymd_opt` and returns what it
/// displays, which `NaiveDate::from_str` reads back as the same date. For
/// the years 0 to 9999 that is the form `%Y-%m-%d`: the year in four digits,
/// month and day in two.
#[verifier::external_body]
pub(crate) fn date_format(year: i32, month: u32, day: u32) -> (r: String)
    requires
        date_exists(year, month, day),
    ensures
        r@ == date_text(year, month, day),
        date_reads_back(r@, year, month, day),
        date_written_as(r@, year, month, day),
{
    match chrono::NaiveDate::from_ymd_opt(year, month, day) {
        Some(date) => date.to_string(),
        None => String::new(),
    }
}

/// A decimal number of arbitrary precision: an integer, held as big-endian
/// two's-complement bytes, that is to be divided by ten to the power of the
/// scale. Two of them are equal where they are the same number, whatever
/// their scales: `1.0` is equal to `1.00`.
#[derive(Debug)]
pub struct Numeric {
    pub unscaled: Vec<u8>,
    pub scale: i64,
}

impl PartialEq for Numeric {
    fn eq(&self, other: &Self) -> (r: bool) {
        numeric_compare(&self.unscaled, self.scale, &other.unscaled, other.scale)
    }
}

impl PartialEqSpecImpl for Numeric {
    open spec fn obeys_eq_spec() -> bool {
        true
    }

    open spec fn eq_spec(&self, other: &Self) -> bool {
        self@.same_number(other@)
    }
}

/// The mathematical content of a [`Numeric`].
pub ghost struct NumericModel {
    pub unscaled: Seq<u8>,
    pub scale: i64,
}

impl NumericModel {
    /// Whether this and `other` are the same number.
    pub open spec fn same_number(self, other: NumericModel) -> bool {
        numeric_equal(self.unscaled, self.scale, other.unscaled, other.scale)
    }
}

impl View for Numeric {
    type V = NumericModel;

    open spec fn view(&self) -> NumericModel {
        NumericModel { unscaled: self.unscaled@, scale: self.scale }
    }
}

impl Numeric {
    /// The number with this unscaled integer, given as big-endian
    /// two's-complement bytes, and this scale.
    pub fn new(unscaled: Vec<u8>, scale: i64) -> (r: Numeric)
        ensures
            r.unscaled == unscaled,
            r.scale == scale,
    {
        Numeric { unscaled, scale }
    }

    /// The number that a decimal literal denotes, in the representation in
    /// which it was written.
    pub open spec fn parsed(text: Seq<char>) -> Option<NumericModel> {
        match numeric_parsed(text) {
            Some(parts) => Some(NumericModel { unscaled: parts.0, scale: parts.1 }),
            None => None,
        }
    }

    /// Reads a number from its decimal text.
    pub fn parse(text: &str) -> (r: Option<Numeric>)
        ensures
            match r {
                Some(n) => Numeric::parsed(text@) == Some(n@),
                None => Numeric::parsed(text@) is None,
            },
    {
        match numeric_parse(text) {
            Some(parts) => Some(Numeric { unscaled: parts.0, scale: parts.1 }),
            None => None,
        }
    }

    /// Writes the number as decimal text, with every digit that it has;
    /// the text is read as the same number.
    pub fn to_text(&self) -> (r: String)
        ensures
            r@ == numeric_text(self@.unscaled, self@.scale),
            numeric_reads_back(r@, self@.unscaled, self@.scale),
    {
        numeric_format(&self.unscaled, self.scale)
    }
}

impl Clone for Numeric {
    fn clone(&self) -> (r: Self)
        ensures
            r@ == self@,
    {
        Numeric { unscaled: self.unscaled.clone(), scale: self.scale }
    }
}

/// An instant of the UTC time line: seconds since 1970-01-01T00:00:00Z and
/// nanoseconds within the second.
#[derive(Clone, Copy, Debug, PartialEq, Eq)]
pub struct Timestamp {
    seconds: i64,
    nanos: u32,
}

impl Timestamp {
    #[verifier::type_invariant]
    closed spec fn inv(self) -> bool {
        instant_exists(self.seconds, self.nanos)
    }

    /// The seconds since the Unix epoch.
    pub closed spec fn spec_seconds(&self) -> i64 {
        self.seconds
    }

    /// The nanoseconds within the second.
    pub closed spec fn spec_nanos(&self) -> u32 {
        self.nanos
    }

    /// The instant so many seconds and nanoseconds after the Unix epoch, or
    /// `None` where there is no such instant.
    pub fn new(seconds: i64, nanos: u32) -> (r: Option<Timestamp>)
        ensures
            r is Some <==> instant_exists(seconds, nanos),
            r matches Some(t) ==> t.spec_seconds() == seconds && t.spec_nanos() == nanos,
    {
        if instant_check(seconds, nanos) {
            Some(Timestamp { seconds, nanos })
        } else {
            None
        }
    }

    /// The seconds since the Unix epoch.
    #[verifier::when_used_as_spec(spec_seconds)]
    pub fn seconds(&self) -> (r: i64)
        ensures
            r == self.spec_seconds(),
    {
        self.seconds
    }

    /// The nanoseconds within the second.
    #[verifier::when_used_as_spec(spec_nanos)]
    pub fn nanos(&self) -> (r: u32)
        ensures
            r == self.spec_nanos(),
    {
        self.nanos
    }

    /// Reads an instant from text in the RFC 3339 format.
    pub fn parse(text: &str) -> (r: Result<Timestamp, String>)
        ensures
            match r {
                Ok(t) => instant_parsed(text@) == Ok::<(i64, u32), Seq<char>>(
                    (t.spec_seconds(), t.spec_nanos()),
                ),
                Err(message) => instant_parsed(text@) == Err::<(i64, u32), Seq<char>>(message@),
            },
    {
        match instant_parse(text) {
            Ok(parts) => Ok(Timestamp { seconds: parts.0, nanos: parts.1 }),
            Err(message) => Err(message),
        }
    }

    /// Writes the instant in the RFC 3339 format.
    pub fn to_text(&self) -> (r: String)
        ensures
            r@ == instant_text(self.spec_seconds(), self.spec_nanos()),
            instant_reads_back(r@, self.spec_seconds(), self.spec_nanos()),
    {
        proof {
            use_type_invariant(self);
        }
        instant_format(self.seconds, self.nanos)
    }
}

/// A day of the calendar.
#[derive(Clone, Copy, Debug, PartialEq, Eq)]
pub struct Date {
    year: i32,
    month: u32,
    day: u32,
}

impl Date {
    #[verifier::type_invariant]
    closed spec fn inv(self) -> bool {
        date_exists(self.year, self.month, self.day)
    }

    /// The year.
    pub closed spec fn spec_year(&self) -> i32 {
        self.year
    }

    /// The month, from 1.
    pub closed spec fn spec_month(&self) -> u32 {
        self.month
    }

    /// The day of the month, from 1.
    pub closed spec fn spec_day(&self) -> u32 {
        self.day
    }

    /// The day with this year, month and day of the month, or `None` where
    /// the calendar has no such day.
    pub fn new(year: i32, month: u32, day: u32) -> (r: Option<Date>)
        ensures
            r is Some <==> date_exists(year, month, day),
            r matches Some(d) ==> d.spec_year() == year && d.spec_month() == month && d.spec_day()
                == day,
    {
        if date_check(year, month, day) {
            Some(Date { year, month, day })
        } else {
            None
        }
    }

    /// The year.
    #[verifier::when_used_as_spec(spec_year)]
    pub fn year(&self) -> (r: i32)
        ensures
            r == self.spec_year(),
    {
        self.year
    }

    /// The month, from 1.
    #[verifier::when_used_as_spec(spec_month)]
    pub fn month(&self) -> (r: u32)
        ensures
            r == self.spec_month(),
    {
        self.month
    }

    /// The day of the month, from 1.
    #[verifier::when_used_as_spec(spec_day)]
    pub fn day(&self) -> (r: u32)
        ensures
            r == self.spec_day(),
    {
        self.day
    }

    /// Reads a day from text of the form `YYYY-MM-DD`.
    pub fn parse(text: &str) -> (r: Result<Date, String>)
        ensures
            match r {
                Ok(d) => date_parsed(text@) == Ok::<(i32, u32, u32), Seq<char>>(
                    (d.spec_year(), d.spec_month(), d.spec_day()),
                ),
                Err(message) => date_parsed(text@) == Err::<(i32, u32, u32), Seq<char>>(message@),
            },
    {
        match date_parse(text) {
            Ok(parts) => Ok(Date { year: parts.0, month: parts.1, day: parts.2 }),
            Err(message) => Err(message),
        }
    }

    /// Writes the day in the form `YYYY-MM-DD`; reading the text gives the
    /// day back.
    pub fn to_text(&self) -> (r: String)
        ensures
            r@ == date_text(self.spec_year(), self.spec_month(), self.spec_day()),
            date_reads_back(r@, self.spec_year(), self.spec_month(), self.spec_day()),
            date_written_as(r@, self.spec_year(), self.spec_month(), self.spec_day()),
    {
        proof {
            use_type_invariant(self);
        }
        date_format(self.year, self.month, self.day)
    }
}

/// A string of bytes.
#[derive(Debug, PartialEq, Eq)]
pub struct Bytes(pub Vec<u8>);

impl View for Bytes {
    type V = Seq<u8>;

    open spec fn view(&self) -> Seq<u8> {
        self.0@
    }
}

impl Bytes {
    /// The empty byte string.
    pub fn new() -> (r: Bytes)
        ensures
            r@ == Seq::<u8>::empty(),
    {
        Bytes(Vec::new())
    }

    /// The byte string that holds the given bytes.
    pub fn from(bytes: Vec<u8>) -> (r: Bytes)
        ensures
            r.0 == bytes,
    {
        Bytes(bytes)
    }

    /// The bytes, as a slice.
    pub fn as_slice(&self) -> (r: &[u8])
        ensures
            r@ == self@,
    {
        self.0.as_slice()
    }

    /// The number of bytes.
    pub fn len(&self) -> (r: usize)
        ensures
            r == self@.len(),
    {
        self.0.len()
    }
}

impl Clone for Bytes {
    fn clone(&self) -> (r: Self)
        ensures
            r@ == self@,
    {
        Bytes(self.0.clone())
    }
}

/// A double-precision floating-point number, held as its IEEE 754 bit
/// pattern. Two numbers are the same where their bit patterns are, so a
/// not-a-number is the same as itself and the two zeros differ.
#[derive(Clone, Copy, Debug, PartialEq, Eq, Structural)]
pub struct Float64 {
    pub bits: u64,
}

impl Float64 {
    /// The number with the given bit pattern.
    pub fn from_bits(bits: u64) -> (r: Float64)
        ensures
            r.bits == bits,
    {
        Float64 { bits }
    }

    /// The bit pattern of the number.
    pub fn to_bits(self) -> (r: u64)
        ensures
            r == self.bits,
    {
        self.bits
    }
}

} // verus!
