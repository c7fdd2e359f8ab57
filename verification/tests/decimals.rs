use bank_core::decimal::{Decimal, MAX_SCALE};

fn dec(text: &str) -> Decimal {
    Decimal::parse(text).unwrap()
}

#[test]
fn sums_and_differences_are_exact() {
    assert_eq!(dec("100.00").minus(&dec("40.00")).to_text(), "60.00");
    assert_eq!(dec("10.00").plus(&dec("40.00")).to_text(), "50.00");
    assert_eq!(dec("0.1").plus(&dec("0.2")).to_text(), "0.3");
    assert_eq!(dec("1").minus(&dec("0.000000000000000000000000000001")).to_text(),
        "0.999999999999999999999999999999");
    assert_eq!(
        dec("123456789012345678901234567890").plus(&dec("1")).to_text(),
        "123456789012345678901234567891"
    );
    assert!(dec("1.5").minus(&dec("2.5")).same_value(&dec("-1")));
    assert!(dec("5").minus(&dec("5")).same_value(&Decimal::zero()));
}

#[test]
fn amounts_are_compared_by_value_not_by_scale() {
    assert!(dec("1.5").same_value(&dec("1.50")));
    assert!(dec("1e2").same_value(&dec("100")));
    assert!(!dec("1.5").same_value(&dec("1.51")));
    assert!(dec("9.99").lt(&dec("10")));
    assert!(!dec("10").lt(&dec("10.00")));
    assert!(!dec("10.01").lt(&dec("10")));
    assert!(dec("-1").lt(&dec("0")));
}

#[test]
fn sign_is_told() {
    assert!(dec("0.01").is_positive());
    assert!(!dec("0").is_positive());
    assert!(!dec("0.00").is_positive());
    assert!(!dec("-3").is_positive());
    assert!(dec("-3").is_negative());
    assert!(!dec("0").is_negative());
    assert!(!Decimal::zero().is_positive());
    assert!(!Decimal::zero().is_negative());
}

#[test]
fn whole_amounts_are_made_from_integers() {
    assert_eq!(Decimal::from_u64(12_345).to_text(), "12345");
    assert_eq!(Decimal::from_u64(0).to_text(), "0");
    assert_eq!(Decimal::from_u64(u64::MAX).to_text(), "18446744073709551615");
    assert!(Decimal::from_u64(7).same_value(&dec("7.000")));
}

#[test]
fn text_that_is_no_decimal_is_refused() {
    assert!(Decimal::parse("").is_none());
    assert!(Decimal::parse("abc").is_none());
    assert!(Decimal::parse("1.2.3").is_none());
    assert!(Decimal::parse("1e").is_none());
    assert!(Decimal::parse("--1").is_none());
}

#[test]
fn scale_beyond_the_limit_is_refused() {
    assert!(Decimal::parse(&format!("1e-{}", MAX_SCALE)).is_some());
    assert!(Decimal::parse(&format!("1e-{}", MAX_SCALE + 1)).is_none());
    assert!(Decimal::parse(&format!("1e{}", MAX_SCALE)).is_some());
    assert!(Decimal::parse(&format!("1e{}", MAX_SCALE + 1)).is_none());
    assert!(Decimal::parse("1e-999999999999").is_none());
    assert!(Decimal::parse("1e999999999999").is_none());
}

#[test]
fn duplicate_has_the_same_text() {
    let a = dec("12.340");
    let b = a.duplicate();
    assert_eq!(a.to_text(), "12.340");
    assert_eq!(b.to_text(), "12.340");
    assert!(a.same_value(&b));
}

#[test]
fn amounts_at_the_limits_of_scale_add_up() {
    let tiny = dec(&format!("1e-{}", MAX_SCALE));
    let huge = dec(&format!("1e{}", MAX_SCALE));
    let sum = huge.plus(&tiny);
    assert!(huge.lt(&sum));
    assert!(sum.minus(&huge).same_value(&tiny));
}

#[test]
fn scale_of_sum_and_difference_lies_between_those_of_the_operands() {
    let texts = [
        "0", "0.00", "0e5", "0e-7", "1", "-1", "100.00", "100", "40.00", "1e3", "-2.5e-3",
        "0.000000000000000000001", "12345678901234567890e10", "1e-40", "1e40", "0e-40", "0e40",
    ];
    for a in texts {
        for b in texts {
            let x: bigdecimal::BigDecimal = a.parse().unwrap();
            let y: bigdecimal::BigDecimal = b.parse().unwrap();
            let low = x.fractional_digit_count().min(y.fractional_digit_count());
            let high = x.fractional_digit_count().max(y.fractional_digit_count());
            let sum = &x + &y;
            let difference = &x - &y;
            assert!(low <= sum.fractional_digit_count(), "{} + {}", a, b);
            assert!(sum.fractional_digit_count() <= high, "{} + {}", a, b);
            assert!(low <= difference.fractional_digit_count(), "{} - {}", a, b);
            assert!(difference.fractional_digit_count() <= high, "{} - {}", a, b);
            let p = Decimal::parse(a).unwrap();
            let q = Decimal::parse(b).unwrap();
            assert_eq!(p.plus(&q).to_text(), sum.to_string());
            assert_eq!(p.minus(&q).to_text(), difference.to_string());
            assert_eq!(p.lt(&q), x < y);
        }
    }
}

#[test]
fn stored_text_reads_back_as_the_same_amount() {
    let texts = [
        "0", "0.00", "0e5", "0e-7", "1", "-1", "100.00", "40.00", "1e3", "-2.5e-3", "12345.678900",
        "0.000000000000000000001", "12345678901234567890e10", "1e-40", "1e40", "1e-4096", "1e4096",
        "-0.5", "99999999999999999999999999999999999999.99",
    ];
    for text in texts {
        let amount = dec(text);
        let stored = amount.to_stored_text().unwrap();
        assert_eq!(stored, amount.to_text(), "{}", text);
        assert!(dec(&stored).same_value(&amount), "{}", text);
    }
    assert_eq!(dec("60.00").to_stored_text().as_deref(), Some("60.00"));
    let sum = dec("1e4096").plus(&dec("1e-4096"));
    assert!(dec(&sum.to_stored_text().unwrap()).same_value(&sum));
}
