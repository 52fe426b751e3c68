use school_rules::validation_utils::date_is_after;
use school_rules::validation_utils::date_is_before;
use school_rules::validation_utils::date_to_timestamp;
use school_rules::validation_utils::is_valid_account_number;
use school_rules::validation_utils::is_valid_amount;
use school_rules::validation_utils::is_valid_budget_code;
use school_rules::validation_utils::is_valid_category_name;
use school_rules::validation_utils::is_valid_date_format;
use school_rules::validation_utils::is_valid_department_name;
use school_rules::validation_utils::is_valid_email;
use school_rules::validation_utils::is_valid_expense_reference;
use school_rules::validation_utils::is_valid_payment_reference;
use school_rules::validation_utils::is_valid_phone_number;
use school_rules::validation_utils::is_valid_reference;
use school_rules::validation_utils::is_valid_salary_reference;
use school_rules::validation_utils::is_valid_url;
use school_rules::validation_utils::parse_date;
use school_rules::validation_utils::years_in_nanos;
use school_rules::validation_utils::FIFTY_YEARS;
use school_rules::validation_utils::NANOS_PER_DAY;
use school_rules::validation_utils::THIRTY_DAYS;

#[test]
fn parse_date_reads_three_numbers() {
    assert_eq!(parse_date("2024-03-15"), Ok((2024, 3, 15)));
    assert_eq!(parse_date("2024-3-5"), Ok((2024, 3, 5)));
    assert_eq!(parse_date("+2024-03-15"), Ok((2024, 3, 15)));
    assert_eq!(parse_date("0-0-0"), Ok((0, 0, 0)));
}

#[test]
fn parse_date_rejects_other_texts() {
    assert_eq!(parse_date(""), Err(()));
    assert_eq!(parse_date("2024-03"), Err(()));
    assert_eq!(parse_date("2024-03-15-01"), Err(()));
    assert_eq!(parse_date("2024-xx-15"), Err(()));
    assert_eq!(parse_date("2024--15"), Err(()));
    assert_eq!(parse_date("2024-03-4294967296"), Err(()));
    assert_eq!(parse_date("2024-03-4294967295"), Ok((2024, 3, 4294967295)));
    assert_eq!(parse_date("2024-03-+"), Err(()));
    assert_eq!(parse_date("2024-03-٣"), Err(()));
}

#[test]
fn timestamp_uses_years_of_365_and_months_of_30_days() {
    assert_eq!(date_to_timestamp(1970, 1, 1), NANOS_PER_DAY);
    assert_eq!(date_to_timestamp(1970, 1, 0), 0);
    assert_eq!(date_to_timestamp(2024, 3, 15), (54 * 365 + 2 * 30 + 15) * NANOS_PER_DAY);
    assert_eq!(date_to_timestamp(2024, 3, 15), 1_709_424_000_000_000_000);
}

#[test]
fn timestamp_wraps_as_fixed_width_arithmetic_does() {
    let days = 1969u32
        .wrapping_sub(1970)
        .wrapping_mul(365)
        .wrapping_add(11u32.wrapping_mul(30))
        .wrapping_add(31);
    let expected = (days as u64).wrapping_mul(86_400_000_000_000);
    assert_eq!(date_to_timestamp(1969, 12, 31), expected);
    let days = 0u32.wrapping_sub(1970).wrapping_mul(365).wrapping_add(0u32.wrapping_sub(1).wrapping_mul(30));
    assert_eq!(date_to_timestamp(0, 0, 0), (days as u64).wrapping_mul(86_400_000_000_000));
    assert_eq!(
        date_to_timestamp(4_000_000_000, 13, 77),
        ((4_000_000_000u32 - 1970).wrapping_mul(365).wrapping_add(12 * 30 + 77) as u64)
            .wrapping_mul(86_400_000_000_000)
    );
}

#[test]
fn dates_are_compared_with_a_given_present() {
    let now = date_to_timestamp(2024, 3, 15);
    assert!(date_is_after("2024-03-16", now, 0));
    assert!(!date_is_after("2024-03-15", now, 0));
    assert!(!date_is_after("2024-04-15", now, THIRTY_DAYS));
    assert!(date_is_after("2024-04-16", now, THIRTY_DAYS));
    assert!(!date_is_after("not a date", now, 0));
    assert!(date_is_before("1974-03-14", now, FIFTY_YEARS));
    assert!(!date_is_before("1974-03-28", now, FIFTY_YEARS));
    assert!(!date_is_before("nothing", now, FIFTY_YEARS));
}

#[test]
fn spans_of_years_wrap_for_negative_counts() {
    assert_eq!(years_in_nanos(2), 63_072_000_000_000_000);
    assert_eq!(years_in_nanos(0), 0);
    assert_eq!(years_in_nanos(-1), (-1i32 as u64).wrapping_mul(31_536_000_000_000_000));
    assert_eq!(years_in_nanos(i32::MIN), (i32::MIN as u64).wrapping_mul(31_536_000_000_000_000));
    assert_eq!(years_in_nanos(i32::MAX), (i32::MAX as u64).wrapping_mul(31_536_000_000_000_000));
}

#[test]
fn email_needs_at_dot_and_six_bytes() {
    assert!(is_valid_email("a@b.co"));
    assert!(!is_valid_email("a@b.c"));
    assert!(!is_valid_email("abcdef.gh"));
    assert!(!is_valid_email("abcdef@gh"));
    assert!(is_valid_email("é@.xy"));
    assert!(!is_valid_email("e@.xy"));
}

#[test]
fn phone_numbers_in_both_forms() {
    assert!(is_valid_phone_number("08012345678"));
    assert!(is_valid_phone_number("0801 234 5678"));
    assert!(is_valid_phone_number("+234 (801) 234-5678"));
    assert!(is_valid_phone_number("2348012345678"));
    assert!(!is_valid_phone_number("18012345678"));
    assert!(!is_valid_phone_number("0801234567"));
    assert!(!is_valid_phone_number("0801234567a"));
    assert!(!is_valid_phone_number("23580123456789"));
    assert!(!is_valid_phone_number(""));
}

#[test]
fn url_begins_with_a_scheme() {
    assert!(is_valid_url("http://example.org"));
    assert!(is_valid_url("https://"));
    assert!(!is_valid_url("ftp://example.org"));
    assert!(!is_valid_url("HTTP://example.org"));
    assert!(!is_valid_url(""));
}

#[test]
fn date_format_checks_shape_and_ranges_only() {
    assert!(is_valid_date_format("2024-02-31"));
    assert!(is_valid_date_format("0000-12-01"));
    assert!(!is_valid_date_format("2024-13-01"));
    assert!(!is_valid_date_format("2024-00-10"));
    assert!(!is_valid_date_format("2024-01-32"));
    assert!(!is_valid_date_format("2024-01-00"));
    assert!(!is_valid_date_format("2024-1-01"));
    assert!(!is_valid_date_format("24-01-0101"));
    assert!(!is_valid_date_format("2024/01/01"));
    assert!(!is_valid_date_format("2024-01-01 "));
    assert!(!is_valid_date_format("20a4-01-01"));
}

#[test]
fn date_format_counts_bytes_not_characters() {
    // Two characters of two bytes each, both numeric, fill the year.
    assert!(is_valid_date_format("²²-01-01"));
    assert_eq!(parse_date("²²-01-01"), Err(()));
    // One numeric character of two bytes fills the month, but is no number.
    assert!(!is_valid_date_format("2024-²-01"));
}

#[test]
fn department_and_category_names() {
    assert!(is_valid_department_name("Science & Arts (Upper)"));
    assert!(is_valid_department_name(""));
    assert!(!is_valid_department_name("Science/Arts"));
    assert!(is_valid_department_name(&"a".repeat(50)));
    assert!(!is_valid_department_name(&"a".repeat(51)));
    assert!(is_valid_category_name("Office supplies"));
    assert!(is_valid_category_name("abc"));
    assert!(!is_valid_category_name("ab"));
    assert!(!is_valid_category_name("Science & Arts"));
    assert!(is_valid_category_name(&"b".repeat(100)));
    assert!(!is_valid_category_name(&"b".repeat(101)));
    assert!(is_valid_category_name("École"));
}

#[test]
fn account_numbers_and_references() {
    assert!(is_valid_account_number("0123456789"));
    assert!(!is_valid_account_number("012345678"));
    assert!(!is_valid_account_number("012345678x"));
    assert!(is_valid_reference("ABC-123"));
    assert!(!is_valid_reference("AB-123"));
    assert!(!is_valid_reference("ABCDEFGH"));
}

#[test]
fn coded_references() {
    assert!(is_valid_expense_reference("EXP-2024-AB12CD34"));
    assert!(!is_valid_expense_reference("PAY-2024-AB12CD34"));
    assert!(!is_valid_expense_reference("EXP-2024-AB12CD3"));
    assert!(!is_valid_expense_reference("EXP-2024-AB12-D34"));
    assert!(!is_valid_expense_reference("EXP-20x4-AB12CD34"));
    assert!(!is_valid_expense_reference("EXP-2024-AB12CD3!"));
    assert!(is_valid_payment_reference("PAY-2024-AB12CD34"));
    assert!(!is_valid_payment_reference("EXP-2024-AB12CD34"));
    assert!(is_valid_salary_reference("SAL-2024-03-AB12CD"));
    assert!(!is_valid_salary_reference("SAL-2024-13-AB12CD"));
    assert!(!is_valid_salary_reference("SAL-2024-00-AB12CD"));
    assert!(!is_valid_salary_reference("SAL-2024-03-AB12C"));
    assert!(!is_valid_salary_reference("SAL-2024-03-AB12CD3"));
}

#[test]
fn budget_codes() {
    assert!(is_valid_budget_code("ADM-001"));
    assert!(!is_valid_budget_code("AD1-001"));
    assert!(!is_valid_budget_code("ADM-0a1"));
    assert!(!is_valid_budget_code("ADM001"));
    assert!(!is_valid_budget_code("ADMN-01"));
}

#[test]
fn plausible_amounts() {
    assert!(is_valid_amount(0));
    assert!(is_valid_amount(100_000_000));
    assert!(!is_valid_amount(100_000_001));
    assert!(!is_valid_amount(-1));
}
