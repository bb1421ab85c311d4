//! Decimal rendering of integers, alone and inside log lines.

use try_log::DebugText;
use try_log::Severity;
use try_log::Sink;
use try_log::TryLog;
use try_log::i64_dec;
use try_log::u64_dec;

#[test]
fn unsigned_decimal() {
    assert_eq!(u64_dec(0), "0");
    assert_eq!(u64_dec(7), "7");
    assert_eq!(u64_dec(10), "10");
    assert_eq!(u64_dec(90210), "90210");
    assert_eq!(u64_dec(u64::MAX), "18446744073709551615");
}

#[test]
fn signed_decimal() {
    assert_eq!(i64_dec(0), "0");
    assert_eq!(i64_dec(42), "42");
    assert_eq!(i64_dec(-1), "-1");
    assert_eq!(i64_dec(-90210), "-90210");
    assert_eq!(i64_dec(i64::MIN), "-9223372036854775808");
    assert_eq!(i64_dec(i64::MAX), "9223372036854775807");
}

#[test]
fn rendering_matches_std_display() {
    for n in [0u64, 1, 9, 10, 99, 100, 12345, u64::MAX] {
        assert_eq!(u64_dec(n), n.to_string());
    }
    for n in [0i64, -1, 1, -10, i64::MIN, i64::MAX] {
        assert_eq!(i64_dec(n), n.to_string());
    }
    assert_eq!(1234u64.render(), "1234");
    assert_eq!((-5i32).render(), "-5");
    assert_eq!(77u32.render(), "77");
    assert_eq!(true.render(), "true");
    assert_eq!(false.render(), "false");
}

#[test]
fn integer_residual_in_log_line() {
    let mut sink = Sink::new();
    let v: Result<String, u64> = Err(404);
    let r = v.inspect_or_log("status", &mut sink);
    assert_eq!(r, Err(404));
    assert_eq!(sink.records.len(), 1);
    assert_eq!(sink.records[0].severity, Severity::Info);
    assert_eq!(sink.records[0].text, "status: 404");

    let w: Result<u64, i64> = Err(-3);
    let d = w.unwrap_or_default_log("fell back", &mut sink);
    assert_eq!(d, 0);
    assert_eq!(sink.records.len(), 2);
    assert_eq!(sink.records[1].severity, Severity::Warn);
    assert_eq!(sink.records[1].text, "fell back: -3");
}
