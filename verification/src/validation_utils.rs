//! Shapes of single values: dates, reference codes, names, contact details.
//!
//! Each function is total and decides by the text alone; the ones that compare
//! a date with the present come in two forms, one that takes the present as an
//! argument and one that reads the host's clock.

use vstd::prelude::*;
use crate::clock::current_time;
use crate::text::all_alphabetic;
use crate::text::all_alphanumeric;
use crate::text::all_numeric;
use crate::text::byte_len;
use crate::text::byte_length;
use crate::text::char_in_class;
use crate::text::char_is_alphanumeric;
use crate::text::char_is_whitespace;
use crate::text::chars_contain;
use crate::text::chars_equal;
use crate::text::chars_of;
use crate::text::chars_start_with;
use crate::text::every_char_is;
use crate::text::parse_u32;
use crate::text::split_chars;
use crate::text::split_on;
use crate::text::u32_value;
use crate::text::views_of;
use crate::text::CharClass;

verus! {

// ---------------------------------------------------------------------------
// Dates
// ---------------------------------------------------------------------------

/// The three numbers of a date written as `year-month-day`, or `Err` where
/// the text has not three parts or a part is no `u32`. No range is checked.
pub open spec fn date_parts(s: Seq<char>) -> Result<(u32, u32, u32), ()> {
    let parts = split_on(s, '-');
    if parts.len() != 3 {
        Err(())
    } else {
        match (u32_value(parts[0]), u32_value(parts[1]), u32_value(parts[2])) {
            (Some(year), Some(month), Some(day)) => Ok((year, month, day)),
            _ => Err(()),
        }
    }
}

/// Reads the three numbers of a date written as `year-month-day`.
pub fn parse_date(date: &str) -> (res: Result<(u32, u32, u32), ()>)
    ensures
        res == date_parts(date@),
{
    let cs = chars_of(date);
    let parts = split_chars(&cs, '-');
    proof {
        assert(views_of(parts@).len() == parts@.len());
    }
    if parts.len() != 3 {
        return Err(());
    }
    proof {
        assert(views_of(parts@)[0] == parts@[0]@);
        assert(views_of(parts@)[1] == parts@[1]@);
        assert(views_of(parts@)[2] == parts@[2]@);
    }
    let year = match parse_u32(&parts[0]) {
        Some(v) => v,
        None => {
            return Err(());
        },
    };
    let month = match parse_u32(&parts[1]) {
        Some(v) => v,
        None => {
            return Err(());
        },
    };
    let day = match parse_u32(&parts[2]) {
        Some(v) => v,
        None => {
            return Err(());
        },
    };
    Ok((year, month, day))
}

/// Nanoseconds in a day.
pub const NANOS_PER_DAY: u64 = 86_400_000_000_000;

/// Nanoseconds in a year of 365 days.
pub const NANOS_PER_YEAR: u64 = 31_536_000_000_000_000;

/// Seven days, in nanoseconds.
pub const SEVEN_DAYS: u64 = 604_800_000_000_000;

/// Thirty days, in nanoseconds.
pub const THIRTY_DAYS: u64 = 2_592_000_000_000_000;

/// Two years of 365 days, in nanoseconds.
pub const TWO_YEARS: u64 = 63_072_000_000_000_000;

/// Fifty years of 365 days, in nanoseconds.
pub const FIFTY_YEARS: u64 = 1_576_800_000_000_000_000;

/// `x` reduced to the range of a `u32`, as 32-bit arithmetic reduces it.
pub open spec fn wrap32(x: int) -> int {
    x % 0x1_0000_0000
}

/// `x` reduced to the range of a `u64`, as 64-bit arithmetic reduces it.
pub open spec fn wrap64(x: int) -> int {
    x % 0x1_0000_0000_0000_0000
}

/// The day number of a date in the approximate calendar: years of 365 days
/// and months of 30 days, counted from 1970, in 32-bit arithmetic.
pub open spec fn day_number(year: u32, month: u32, day: u32) -> int {
    wrap32((year - 1970) * 365 + (month - 1) * 30 + day)
}

/// The approximate timestamp of a date: its day number in nanoseconds, in
/// 64-bit arithmetic.
pub open spec fn timestamp_of(year: u32, month: u32, day: u32) -> int {
    wrap64(day_number(year, month, day) * NANOS_PER_DAY)
}

/// The approximate timestamp of a date, in nanoseconds since 1970.
pub fn date_to_timestamp(year: u32, month: u32, day: u32) -> (ts: u64)
    ensures
        ts == timestamp_of(year, month, day),
{
    let shifted: u128 = year as u128 * 365 + month as u128 * 30 + day as u128 + 4_294_248_216;
    let days: u128 = shifted % 0x1_0000_0000;
    assert(days == day_number(year, month, day));
    assert(NANOS_PER_DAY == 86_400_000_000_000);
    let nanos: u128 = (days * 86_400_000_000_000) % 0x1_0000_0000_0000_0000;
    nanos as u64
}

/// From 1970 on, and as long as the result fits in 64 bits, the timestamp is
/// the plain product: no reduction takes place.
pub proof fn lemma_timestamp_plain(year: u32, month: u32, day: u32)
    requires
        year >= 1970,
        month >= 1,
        (year - 1970) * 365 + (month - 1) * 30 + day <= 213_503,
    ensures
        timestamp_of(year, month, day) == ((year - 1970) * 365 + (month - 1) * 30 + day)
            * NANOS_PER_DAY,
{
}

/// Whether the date `s` lies later than `margin` nanoseconds after `now`.
/// A text that is no date lies nowhere.
pub open spec fn date_after(s: Seq<char>, now: u64, margin: u64) -> bool {
    match date_parts(s) {
        Ok((year, month, day)) => timestamp_of(year, month, day) > wrap64(now + margin),
        Err(_) => false,
    }
}

/// Whether the date `s` lies earlier than `margin` nanoseconds before `now`.
/// A text that is no date lies nowhere.
pub open spec fn date_before(s: Seq<char>, now: u64, margin: u64) -> bool {
    match date_parts(s) {
        Ok((year, month, day)) => timestamp_of(year, month, day) < wrap64(now - margin),
        Err(_) => false,
    }
}

/// Whether `date` lies later than `margin` nanoseconds after `now`.
pub fn date_is_after(date: &str, now: u64, margin: u64) -> (r: bool)
    ensures
        r == date_after(date@, now, margin),
{
    match parse_date(date) {
        Ok((year, month, day)) => {
            let ts = date_to_timestamp(year, month, day);
            let limit: u128 = (now as u128 + margin as u128) % 0x1_0000_0000_0000_0000;
            (ts as u128) > limit
        },
        Err(_) => false,
    }
}

/// Whether `date` lies earlier than `margin` nanoseconds before `now`.
pub fn date_is_before(date: &str, now: u64, margin: u64) -> (r: bool)
    ensures
        r == date_before(date@, now, margin),
{
    match parse_date(date) {
        Ok((year, month, day)) => {
            let ts = date_to_timestamp(year, month, day);
            let limit: u128 = (now as u128 + 0x1_0000_0000_0000_0000 - margin as u128)
                % 0x1_0000_0000_0000_0000;
            (ts as u128) < limit
        },
        Err(_) => false,
    }
}

/// The span of `years` years of 365 days in nanoseconds, in 64-bit
/// arithmetic; a negative count is read as the 64-bit number with the same
/// bits.
pub open spec fn years_span(years: i32) -> int {
    wrap64(wrap64(years as int) * NANOS_PER_YEAR)
}

/// The span of `years` years in nanoseconds.
pub fn years_in_nanos(years: i32) -> (span: u64)
    ensures
        span == years_span(years),
{
    let count: u128 = if years >= 0 {
        years as u128
    } else {
        (0x1_0000_0000_0000_0000 + years as i128) as u128
    };
    assert(count == wrap64(years as int));
    assert(NANOS_PER_YEAR == 31_536_000_000_000_000);
    let span: u128 = (count * 31_536_000_000_000_000) % 0x1_0000_0000_0000_0000;
    span as u64
}

/// Whether `date` lies after the present.
pub fn is_date_in_future(date: &str) -> (r: bool)
    ensures
        exists|now: u64| r == #[trigger] date_after(date@, now, 0),
{
    let now = current_time();
    let r = date_is_after(date, now, 0);
    assert(r == date_after(date@, now, 0));
    r
}

/// Whether `date` lies more than seven days after the present.
pub fn is_date_too_far_in_future(date: &str) -> (r: bool)
    ensures
        exists|now: u64| r == #[trigger] date_after(date@, now, SEVEN_DAYS),
{
    let now = current_time();
    let r = date_is_after(date, now, SEVEN_DAYS);
    assert(r == date_after(date@, now, SEVEN_DAYS));
    r
}

/// Whether `date` lies more than thirty days after the present.
pub fn is_date_too_far_in_future_30_days(date: &str) -> (r: bool)
    ensures
        exists|now: u64| r == #[trigger] date_after(date@, now, THIRTY_DAYS),
{
    let now = current_time();
    let r = date_is_after(date, now, THIRTY_DAYS);
    assert(r == date_after(date@, now, THIRTY_DAYS));
    r
}

/// Whether `date` lies more than `years` years before the present.
pub fn is_date_too_old(date: &str, years: i32) -> (r: bool)
    ensures
        exists|now: u64| r == #[trigger] date_before(date@, now, years_span(years) as u64),
{
    let now = current_time();
    let span = years_in_nanos(years);
    let r = date_is_before(date, now, span);
    assert(r == date_before(date@, now, years_span(years) as u64));
    r
}

/// Whether `date` lies more than two years before the present.
pub fn is_date_too_old_2_years(date: &str) -> (r: bool)
    ensures
        exists|now: u64| r == #[trigger] date_before(date@, now, TWO_YEARS),
{
    let now = current_time();
    let r = date_is_before(date, now, TWO_YEARS);
    assert(r == date_before(date@, now, TWO_YEARS));
    r
}

/// Whether `date` lies more than fifty years before the present.
pub fn is_employment_date_too_old(date: &str) -> (r: bool)
    ensures
        exists|now: u64| r == #[trigger] date_before(date@, now, FIFTY_YEARS),
{
    let now = current_time();
    let r = date_is_before(date, now, FIFTY_YEARS);
    assert(r == date_before(date@, now, FIFTY_YEARS));
    r
}

/// The `u32` that `s` is read as, and 0 where it is none.
pub open spec fn u32_or_zero(s: Seq<char>) -> u32 {
    match u32_value(s) {
        Some(v) => v,
        None => 0,
    }
}

/// `s` takes `width` bytes and holds numeric characters only.
pub open spec fn numeric_field(s: Seq<char>, width: nat) -> bool {
    byte_len(s) == width && all_numeric(s)
}

/// The shape `YYYY-MM-DD`: ten bytes in three parts of four, two and two
/// bytes, numeric characters only, the month from 1 to 12 and the day from 1
/// to 31. The length of the month is not looked at.
pub open spec fn date_format_ok(s: Seq<char>) -> bool {
    let parts = split_on(s, '-');
    &&& byte_len(s) == 10
    &&& parts.len() == 3
    &&& numeric_field(parts[0], 4)
    &&& numeric_field(parts[1], 2)
    &&& numeric_field(parts[2], 2)
    &&& 1 <= u32_or_zero(parts[1]) <= 12
    &&& 1 <= u32_or_zero(parts[2]) <= 31
}

fn is_numeric_field(s: &Vec<char>, width: u128) -> (r: bool)
    ensures
        r == numeric_field(s@, width as nat),
{
    byte_length(s) == width && every_char_is(s, CharClass::Numeric)
}

fn number_or_zero(s: &Vec<char>) -> (r: u32)
    ensures
        r == u32_or_zero(s@),
{
    match parse_u32(s) {
        Some(v) => v,
        None => 0,
    }
}

/// Whether `date` has the shape `YYYY-MM-DD`.
pub fn is_valid_date_format(date: &str) -> (r: bool)
    ensures
        r == date_format_ok(date@),
{
    let cs = chars_of(date);
    if byte_length(&cs) != 10 {
        return false;
    }
    let parts = split_chars(&cs, '-');
    proof {
        assert(views_of(parts@).len() == parts@.len());
    }
    if parts.len() != 3 {
        return false;
    }
    proof {
        assert(views_of(parts@)[0] == parts@[0]@);
        assert(views_of(parts@)[1] == parts@[1]@);
        assert(views_of(parts@)[2] == parts@[2]@);
    }
    if !is_numeric_field(&parts[0], 4) {
        return false;
    }
    if !is_numeric_field(&parts[1], 2) {
        return false;
    }
    if !is_numeric_field(&parts[2], 2) {
        return false;
    }
    let month = number_or_zero(&parts[1]);
    let day = number_or_zero(&parts[2]);
    month >= 1 && month <= 12 && day >= 1 && day <= 31
}

// ---------------------------------------------------------------------------
// Contact details
// ---------------------------------------------------------------------------

/// An e-mail address holds `@` and `.` and takes more than five bytes.
pub open spec fn email_ok(s: Seq<char>) -> bool {
    s.contains('@') && s.contains('.') && byte_len(s) > 5
}

/// Whether `email` can be an e-mail address.
pub fn is_valid_email(email: &str) -> (r: bool)
    ensures
        r == email_ok(email@),
{
    let cs = chars_of(email);
    chars_contain(&cs, '@') && chars_contain(&cs, '.') && byte_length(&cs) > 5
}

/// The marks that may stand between the digits of a phone number.
pub open spec fn is_phone_mark(c: char) -> bool {
    c == ' ' || c == '-' || c == '+' || c == '(' || c == ')'
}

/// `s` without its phone marks.
pub open spec fn without_phone_marks(s: Seq<char>) -> Seq<char>
    decreases s.len(),
{
    if s.len() == 0 {
        Seq::<char>::empty()
    } else if is_phone_mark(s.last()) {
        without_phone_marks(s.drop_last())
    } else {
        without_phone_marks(s.drop_last()).push(s.last())
    }
}

/// A phone number, its marks taken out, is numeric and either takes eleven
/// bytes and begins with `0`, or takes thirteen and begins with `234`.
pub open spec fn phone_ok(s: Seq<char>) -> bool {
    let digits = without_phone_marks(s);
    &&& all_numeric(digits)
    &&& {
        ||| byte_len(digits) == 11 && seq!['0'].is_prefix_of(digits)
        ||| byte_len(digits) == 13 && seq!['2', '3', '4'].is_prefix_of(digits)
    }
}

fn strip_phone_marks(s: &Vec<char>) -> (out: Vec<char>)
    ensures
        out@ == without_phone_marks(s@),
{
    let mut out: Vec<char> = Vec::new();
    let mut i: usize = 0;
    while i < s.len()
        invariant
            i <= s.len(),
            out@ == without_phone_marks(s@.take(i as int)),
        decreases s.len() - i,
    {
        let c = s[i];
        proof {
            assert(s@.take(i + 1).drop_last() =~= s@.take(i as int));
        }
        if !(c == ' ' || c == '-' || c == '+' || c == '(' || c == ')') {
            out.push(c);
        }
        i = i + 1;
    }
    proof {
        assert(s@.take(s.len() as int) =~= s@);
    }
    out
}

/// Whether `phone` is a phone number in the local or the international form.
pub fn is_valid_phone_number(phone: &str) -> (r: bool)
    ensures
        r == phone_ok(phone@),
{
    let cs = chars_of(phone);
    let digits = strip_phone_marks(&cs);
    let n = byte_length(&digits);
    let mut local: Vec<char> = Vec::new();
    local.push('0');
    let mut abroad: Vec<char> = Vec::new();
    abroad.push('2');
    abroad.push('3');
    abroad.push('4');
    proof {
        assert(local@ =~= seq!['0']);
        assert(abroad@ =~= seq!['2', '3', '4']);
    }
    if n == 11 && chars_start_with(&digits, &local) {
        return every_char_is(&digits, CharClass::Numeric);
    }
    if n == 13 && chars_start_with(&digits, &abroad) {
        return every_char_is(&digits, CharClass::Numeric);
    }
    false
}

/// A URL begins with `http://` or `https://`.
pub open spec fn url_ok(s: Seq<char>) -> bool {
    "http://"@.is_prefix_of(s) || "https://"@.is_prefix_of(s)
}

/// Whether `url` begins like a web address.
pub fn is_valid_url(url: &str) -> (r: bool)
    ensures
        r == url_ok(url@),
{
    let cs = chars_of(url);
    let plain = chars_of("http://");
    let secure = chars_of("https://");
    chars_start_with(&cs, &plain) || chars_start_with(&cs, &secure)
}

// ---------------------------------------------------------------------------
// Names
// ---------------------------------------------------------------------------

/// The punctuation that a category name may hold.
pub open spec fn is_name_mark(c: char) -> bool {
    c == '.' || c == '_' || c == '-' || c == '\'' || c == '(' || c == ')'
}

/// A character of a name: a letter, a digit, white space or a name mark;
/// where `ampersand` is set, `&` too.
pub open spec fn is_name_char(c: char, ampersand: bool) -> bool {
    char_is_alphanumeric(c) || char_is_whitespace(c) || is_name_mark(c) || (ampersand && c == '&')
}

/// Every character of `s` is a character of a name.
pub open spec fn all_name_chars(s: Seq<char>, ampersand: bool) -> bool {
    forall|i: int| 0 <= i < s.len() ==> is_name_char(#[trigger] s[i], ampersand)
}

fn only_name_chars(s: &Vec<char>, ampersand: bool) -> (r: bool)
    ensures
        r == all_name_chars(s@, ampersand),
{
    let mut i: usize = 0;
    while i < s.len()
        invariant
            i <= s.len(),
            forall|j: int| 0 <= j < i ==> is_name_char(#[trigger] s@[j], ampersand),
        decreases s.len() - i,
    {
        let c = s[i];
        let mark = c == '.' || c == '_' || c == '-' || c == '\'' || c == '(' || c == ')';
        let fine = char_in_class(c, CharClass::Alphanumeric) || char_in_class(
            c,
            CharClass::Whitespace,
        ) || mark || (ampersand && c == '&');
        if !fine {
            return false;
        }
        i = i + 1;
    }
    true
}

/// A department name takes at most fifty bytes and holds letters, digits,
/// white space and the marks `._-&'()` only.
pub open spec fn department_name_ok(s: Seq<char>) -> bool {
    byte_len(s) <= 50 && all_name_chars(s, true)
}

/// Whether `name` can be the name of a department.
pub fn is_valid_department_name(name: &str) -> (r: bool)
    ensures
        r == department_name_ok(name@),
{
    let cs = chars_of(name);
    byte_length(&cs) <= 50 && only_name_chars(&cs, true)
}

/// A category name takes three to a hundred bytes and holds letters, digits,
/// white space and the marks `._-'()` only.
pub open spec fn category_name_ok(s: Seq<char>) -> bool {
    3 <= byte_len(s) <= 100 && all_name_chars(s, false)
}

/// Whether `name` can be the name of a category.
pub fn is_valid_category_name(name: &str) -> (r: bool)
    ensures
        r == category_name_ok(name@),
{
    let cs = chars_of(name);
    let n = byte_length(&cs);
    n >= 3 && n <= 100 && only_name_chars(&cs, false)
}

// ---------------------------------------------------------------------------
// Codes
// ---------------------------------------------------------------------------

/// An account number takes ten bytes, all numeric.
pub open spec fn account_number_ok(s: Seq<char>) -> bool {
    numeric_field(s, 10)
}

/// Whether `account` can be a bank account number.
pub fn is_valid_account_number(account: &str) -> (r: bool)
    ensures
        r == account_number_ok(account@),
{
    let cs = chars_of(account);
    is_numeric_field(&cs, 10)
}

/// A reference takes seven bytes or more and holds a hyphen.
pub open spec fn reference_ok(s: Seq<char>) -> bool {
    byte_len(s) >= 7 && s.contains('-')
}

/// Whether `reference` can be a reference code of any kind.
pub fn is_valid_reference(reference: &str) -> (r: bool)
    ensures
        r == reference_ok(reference@),
{
    let cs = chars_of(reference);
    byte_length(&cs) >= 7 && chars_contain(&cs, '-')
}

/// `s` takes `width` bytes and holds letters and digits only.
pub open spec fn alphanumeric_field(s: Seq<char>, width: nat) -> bool {
    byte_len(s) == width && all_alphanumeric(s)
}

/// A code of seventeen bytes in three parts: `prefix`, a year of four numeric
/// bytes, and a suffix of eight bytes of letters and digits.
pub open spec fn yearly_code_ok(s: Seq<char>, prefix: Seq<char>) -> bool {
    let parts = split_on(s, '-');
    &&& byte_len(s) == 17
    &&& parts.len() == 3
    &&& parts[0] == prefix
    &&& numeric_field(parts[1], 4)
    &&& alphanumeric_field(parts[2], 8)
}

fn is_yearly_code(reference: &str, prefix: &str) -> (r: bool)
    ensures
        r == yearly_code_ok(reference@, prefix@),
{
    let cs = chars_of(reference);
    if byte_length(&cs) != 17 {
        return false;
    }
    let parts = split_chars(&cs, '-');
    proof {
        assert(views_of(parts@).len() == parts@.len());
    }
    if parts.len() != 3 {
        return false;
    }
    proof {
        assert(views_of(parts@)[0] == parts@[0]@);
        assert(views_of(parts@)[1] == parts@[1]@);
        assert(views_of(parts@)[2] == parts@[2]@);
    }
    let wanted = chars_of(prefix);
    if !chars_equal(&parts[0], &wanted) {
        return false;
    }
    if !is_numeric_field(&parts[1], 4) {
        return false;
    }
    byte_length(&parts[2]) == 8 && every_char_is(&parts[2], CharClass::Alphanumeric)
}

/// The shape of an expense reference: `EXP-YYYY-XXXXXXXX`.
pub open spec fn expense_reference_ok(s: Seq<char>) -> bool {
    yearly_code_ok(s, "EXP"@)
}

/// Whether `reference` has the shape `EXP-YYYY-XXXXXXXX`.
pub fn is_valid_expense_reference(reference: &str) -> (r: bool)
    ensures
        r == expense_reference_ok(reference@),
{
    is_yearly_code(reference, "EXP")
}

/// The shape of a payment reference: `PAY-YYYY-XXXXXXXX`.
pub open spec fn payment_reference_ok(s: Seq<char>) -> bool {
    yearly_code_ok(s, "PAY"@)
}

/// Whether `reference` has the shape `PAY-YYYY-XXXXXXXX`.
pub fn is_valid_payment_reference(reference: &str) -> (r: bool)
    ensures
        r == payment_reference_ok(reference@),
{
    is_yearly_code(reference, "PAY")
}

/// The shape of a salary reference, `SAL-YYYY-MM-XXXXXX`: eighteen bytes in
/// four parts, the year of four and the month of two numeric bytes, the month
/// from 1 to 12, the suffix of six bytes of letters and digits.
pub open spec fn salary_reference_ok(s: Seq<char>) -> bool {
    let parts = split_on(s, '-');
    &&& byte_len(s) == 18
    &&& parts.len() == 4
    &&& parts[0] == "SAL"@
    &&& numeric_field(parts[1], 4)
    &&& numeric_field(parts[2], 2)
    &&& 1 <= u32_or_zero(parts[2]) <= 12
    &&& alphanumeric_field(parts[3], 6)
}

/// Whether `reference` has the shape `SAL-YYYY-MM-XXXXXX`.
pub fn is_valid_salary_reference(reference: &str) -> (r: bool)
    ensures
        r == salary_reference_ok(reference@),
{
    let cs = chars_of(reference);
    if byte_length(&cs) != 18 {
        return false;
    }
    let parts = split_chars(&cs, '-');
    proof {
        assert(views_of(parts@).len() == parts@.len());
    }
    if parts.len() != 4 {
        return false;
    }
    proof {
        assert(views_of(parts@)[0] == parts@[0]@);
        assert(views_of(parts@)[1] == parts@[1]@);
        assert(views_of(parts@)[2] == parts@[2]@);
        assert(views_of(parts@)[3] == parts@[3]@);
    }
    let wanted = chars_of("SAL");
    if !chars_equal(&parts[0], &wanted) {
        return false;
    }
    if !is_numeric_field(&parts[1], 4) {
        return false;
    }
    if !is_numeric_field(&parts[2], 2) {
        return false;
    }
    let month = number_or_zero(&parts[2]);
    if month < 1 || month > 12 {
        return false;
    }
    byte_length(&parts[3]) == 6 && every_char_is(&parts[3], CharClass::Alphanumeric)
}

/// The shape of a budget code, `XXX-000`: seven bytes in two parts, three
/// bytes of letters and three numeric bytes.
pub open spec fn budget_code_ok(s: Seq<char>) -> bool {
    let parts = split_on(s, '-');
    &&& byte_len(s) == 7
    &&& parts.len() == 2
    &&& byte_len(parts[0]) == 3
    &&& all_alphabetic(parts[0])
    &&& numeric_field(parts[1], 3)
}

/// Whether `code` has the shape `XXX-000`.
pub fn is_valid_budget_code(code: &str) -> (r: bool)
    ensures
        r == budget_code_ok(code@),
{
    let cs = chars_of(code);
    if byte_length(&cs) != 7 {
        return false;
    }
    let parts = split_chars(&cs, '-');
    proof {
        assert(views_of(parts@).len() == parts@.len());
    }
    if parts.len() != 2 {
        return false;
    }
    proof {
        assert(views_of(parts@)[0] == parts@[0]@);
        assert(views_of(parts@)[1] == parts@[1]@);
    }
    byte_length(&parts[0]) == 3 && every_char_is(&parts[0], CharClass::Alphabetic)
        && is_numeric_field(&parts[1], 3)
}

// ---------------------------------------------------------------------------
// Amounts
// ---------------------------------------------------------------------------

/// The largest amount that counts as plausible: one million, in hundredths.
pub const MAX_PLAUSIBLE_AMOUNT: i64 = 100_000_000;

/// An amount, in hundredths of the currency unit, is plausible from zero to
/// one million units.
pub open spec fn amount_ok(amount: i64) -> bool {
    0 <= amount <= MAX_PLAUSIBLE_AMOUNT
}

/// Whether `amount`, in hundredths of the currency unit, lies between zero
/// and one million units.
pub fn is_valid_amount(amount: i64) -> (r: bool)
    ensures
        r == amount_ok(amount),
{
    amount >= 0 && amount <= MAX_PLAUSIBLE_AMOUNT
}

} // verus!
