use mt4_analyzer::{
    decimal_string, fixed_digits, format_candle, format_candles, format_time, log_stamp,
    price_string, signed_string, year_string, Candle, LocalTime, Price,
};

fn price(negative: bool, thousandths: u64) -> Price {
    Price { negative, thousandths }
}

fn candle(time: &str, o: u64, h: u64, l: u64, c: u64) -> Candle {
    Candle {
        time: time.to_string(),
        open: price(false, o),
        high: price(false, h),
        low: price(false, l),
        close: price(false, c),
    }
}

#[test]
fn decimal_and_fixed_digits() {
    assert_eq!(decimal_string(0), "0");
    assert_eq!(decimal_string(907), "907");
    assert_eq!(decimal_string(u64::MAX), "18446744073709551615");
    assert_eq!(fixed_digits(7, 3), "007");
    assert_eq!(fixed_digits(12345, 2), "45");
    assert_eq!(fixed_digits(5, 0), "");
}

#[test]
fn signed_integers() {
    assert_eq!(signed_string(60), "60");
    assert_eq!(signed_string(-42), "-42");
    assert_eq!(signed_string(i64::MIN), "-9223372036854775808");
}

#[test]
fn prices_have_three_decimals() {
    assert_eq!(price_string(price(false, 150123)), "150.123");
    assert_eq!(price_string(price(false, 5)), "0.005");
    assert_eq!(price_string(price(false, 0)), "0.000");
    assert_eq!(price_string(price(true, 1500)), "-1.500");
    assert_eq!(price_string(price(true, 0)), "-0.000");
}

#[test]
fn one_candle_line() {
    let c = candle("2024.01.01 10:00", 150123, 150456, 149980, 150300);
    assert_eq!(
        format_candle(&c),
        "(2024.01.01 10:00, 150.123, 150.456, 149.980, 150.300)"
    );
}

#[test]
fn empty_series_is_empty_text() {
    assert_eq!(format_candles(&Vec::new()), "");
}

#[test]
fn series_has_one_line_per_candle() {
    let cs = vec![
        candle("t1", 1000, 2000, 500, 1500),
        candle("t2", 1100, 2100, 600, 1600),
        candle("t3", 1200, 2200, 700, 1700),
    ];
    let text = format_candles(&cs);
    let lines: Vec<&str> = text.split('\n').collect();
    assert_eq!(lines.len(), 3);
    assert_eq!(lines[0], "(t1, 1.000, 2.000, 0.500, 1.500)");
    assert_eq!(lines[2], "(t3, 1.200, 2.200, 0.700, 1.700)");
    for line in lines {
        assert!(line.starts_with('(') && line.ends_with(')'));
        let fields: Vec<&str> = line[1..line.len() - 1].split(", ").collect();
        assert_eq!(fields.len(), 5);
        for f in &fields[1..] {
            let dot = f.find('.').unwrap();
            assert_eq!(f.len() - dot - 1, 3);
        }
    }
}

#[test]
fn single_candle_series_has_no_newline() {
    let cs = vec![candle("only", 1, 2, 3, 4)];
    assert_eq!(format_candles(&cs), "(only, 0.001, 0.002, 0.003, 0.004)");
}

#[test]
fn calendar_time_text() {
    let t = LocalTime { year: 2025, month: 3, day: 7, hour: 9, minute: 5, second: 2 };
    assert_eq!(format_time(&t), "2025年03月07日 09:05:02");
    assert_eq!(log_stamp(&t), "20250307_090502");
}

#[test]
fn years_outside_four_digits() {
    assert_eq!(year_string(33), "0033");
    assert_eq!(year_string(-5), "-0005");
    assert_eq!(year_string(12345), "+12345");
    assert_eq!(year_string(-123456), "-123456");
}
