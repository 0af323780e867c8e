use media_core::delivery::{get_content_range, parse_range_header, plan_response, ResponsePlan};
use media_core::numfmt::u64_to_string;

#[test]
fn range_explicit_interval() {
    // "bytes=0-99" against a 1000-byte resource
    assert_eq!(parse_range_header("bytes=0-99", 1000), Some((0, Some(99))));
    let plan = plan_response(Some("bytes=0-99"), 1000);
    assert_eq!(
        plan,
        ResponsePlan::Partial {
            start: 0,
            end: 99,
            chunk_size: 100
        }
    );
    assert_eq!(plan.status_code(), 206);
    assert_eq!(get_content_range(0, 99, 1000), "bytes 0-99/1000");
}

#[test]
fn range_open_end() {
    // "bytes=500-" against a 1000-byte resource: end resolved to 999
    assert_eq!(parse_range_header("bytes=500-", 1000), Some((500, None)));
    let plan = plan_response(Some("bytes=500-"), 1000);
    assert_eq!(
        plan,
        ResponsePlan::Partial {
            start: 500,
            end: 999,
            chunk_size: 500
        }
    );
    assert_eq!(plan.status_code(), 206);
}

#[test]
fn range_start_at_length_rejected() {
    // start must be strictly below the resource length
    assert_eq!(parse_range_header("bytes=1000-", 1000), None);
    assert_eq!(plan_response(Some("bytes=1000-"), 1000), ResponsePlan::BadRange);
    assert_eq!(plan_response(Some("bytes=1000-"), 1000).status_code(), 400);
}

#[test]
fn no_range_serves_everything() {
    let plan = plan_response(None, 4242);
    assert_eq!(
        plan,
        ResponsePlan::Full {
            content_length: 4242
        }
    );
    assert_eq!(plan.status_code(), 200);
}

#[test]
fn range_malformed_prefix() {
    assert_eq!(parse_range_header("bites=0-99", 1000), None);
    assert_eq!(parse_range_header("bytes 0-99", 1000), None);
    assert_eq!(parse_range_header("", 1000), None);
    assert_eq!(parse_range_header("bytes=", 1000), None);
}

#[test]
fn range_malformed_bounds() {
    // no dash, empty start, non-digits, second dash
    assert_eq!(parse_range_header("bytes=5", 1000), None);
    assert_eq!(parse_range_header("bytes=-5", 1000), None);
    assert_eq!(parse_range_header("bytes=a-b", 1000), None);
    assert_eq!(parse_range_header("bytes=5x-9", 1000), None);
    assert_eq!(parse_range_header("bytes=0-99-", 1000), None);
    assert_eq!(parse_range_header("bytes=0-9x", 1000), None);
}

#[test]
fn range_non_ascii_digits_rejected() {
    // digits must be the ASCII ones
    assert_eq!(parse_range_header("bytes=\u{ff15}-", 1000), None);
    assert_eq!(parse_range_header("bytes=0-\u{0664}", 1000), None);
}

#[test]
fn range_bound_overflow() {
    // a bound that does not fit in 64 bits is no match
    assert_eq!(parse_range_header("bytes=18446744073709551616-", 1000), None);
    assert_eq!(
        parse_range_header("bytes=0-18446744073709551616", 1000),
        None
    );
}

#[test]
fn range_out_of_bounds_interval() {
    // explicit end past the resource, or before the start
    assert_eq!(plan_response(Some("bytes=0-1000"), 1000), ResponsePlan::BadRange);
    assert_eq!(plan_response(Some("bytes=5-2"), 1000), ResponsePlan::BadRange);
    // but the largest valid interval is fine
    assert_eq!(
        plan_response(Some("bytes=0-999"), 1000),
        ResponsePlan::Partial {
            start: 0,
            end: 999,
            chunk_size: 1000
        }
    );
}

#[test]
fn range_single_byte() {
    assert_eq!(
        plan_response(Some("bytes=999-999"), 1000),
        ResponsePlan::Partial {
            start: 999,
            end: 999,
            chunk_size: 1
        }
    );
}

#[test]
fn decimal_rendering() {
    assert_eq!(u64_to_string(0), "0");
    assert_eq!(u64_to_string(7), "7");
    assert_eq!(u64_to_string(42), "42");
    assert_eq!(u64_to_string(1000), "1000");
    assert_eq!(u64_to_string(u64::MAX), "18446744073709551615");
}

#[test]
fn content_range_rendering() {
    assert_eq!(get_content_range(500, 999, 1000), "bytes 500-999/1000");
    assert_eq!(get_content_range(0, 0, 1), "bytes 0-0/1");
}
