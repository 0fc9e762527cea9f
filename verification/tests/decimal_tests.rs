use transactions_engine::decimal::Decimal4;
use transactions_engine::decimal::Decimal4Error;

#[test]
fn decimal4_serialization_keeps_four_digits() {
    assert_eq!(Ok("1.0000".to_string()), Decimal4::from_str("1").map(|x| x.to_string()));
    assert_eq!(Ok("1.0000".to_string()), Decimal4::from_str("1.0000").map(|x| x.to_string()));
    assert_eq!(Ok("1.0100".to_string()), Decimal4::from_str("1.01").map(|x| x.to_string()));
}

#[test]
fn decimal4_deserialization_with_round_up() {
    assert_eq!(Ok("1.2345".to_string()), Decimal4::from_str("1.2345").map(|x| x.to_string()));
    assert_eq!(Ok("1.2346".to_string()), Decimal4::from_str("1.234567").map(|x| x.to_string()));
    assert_eq!(Ok("1.2346".to_string()), Decimal4::from_str("1.23456789").map(|x| x.to_string()));
}

#[test]
fn decimal4_deserialization_with_round_down() {
    assert_eq!(Ok("1.2345".to_string()), Decimal4::from_str("1.2345").map(|x| x.to_string()));
    assert_eq!(Ok("1.2345".to_string()), Decimal4::from_str("1.234543").map(|x| x.to_string()));
    assert_eq!(Ok("1.2345".to_string()), Decimal4::from_str("1.23454321").map(|x| x.to_string()));
}

#[test]
fn decimal4_addition() {
    let a = Decimal4::from_str("1.2345").unwrap();
    let b = Decimal4::from_str("2.3456").unwrap();
    let c = a + b;
    assert_eq!("3.5801".to_string(), c.to_string());
}

#[test]
fn decimal4_subtraction() {
    let a = Decimal4::from_str("1.2345").unwrap();
    let b = Decimal4::from_str("2.3456").unwrap();
    let c = a - b;
    assert_eq!("-1.1111".to_string(), c.to_string());
}

#[test]
fn decimal4_counts_ten_thousandths() {
    assert_eq!(Decimal4::from_str("1.2345").unwrap().units(), 12345);
    assert_eq!(Decimal4::from_str("-0.0001").unwrap().units(), -1);
    assert_eq!(Decimal4::from(100).units(), 1_000_000);
    assert_eq!(Decimal4::from(7u32).units(), 70_000);
    assert_eq!(Decimal4::from(-3).units(), -30_000);
    assert_eq!(Decimal4::zero().units(), 0);
    assert_eq!(Decimal4::default(), Decimal4::zero());
    assert_eq!(Decimal4::from_units(15), Decimal4::from_str("0.0015").unwrap());
}

#[test]
fn decimal4_midpoint_goes_toward_zero() {
    assert_eq!(Decimal4::from_str("1.23455").unwrap().units(), 12345);
    assert_eq!(Decimal4::from_str("-1.23455").unwrap().units(), -12345);
    assert_eq!(Decimal4::from_str("1.234550000").unwrap().units(), 12345);
    assert_eq!(Decimal4::from_str("1.234550001").unwrap().units(), 12346);
    assert_eq!(Decimal4::from_str("-1.234550001").unwrap().units(), -12346);
    assert_eq!(Decimal4::from_str("0.00005").unwrap().units(), 0);
    assert_eq!(Decimal4::from_str("0.00006").unwrap().units(), 1);
    assert_eq!(Decimal4::from_str("2.99995").unwrap().units(), 29999);
    assert_eq!(Decimal4::from_str("2.99996").unwrap().units(), 30000);
}

#[test]
fn decimal4_from_scaled_rounds_and_rescales() {
    assert_eq!(Decimal4::from_scaled(123456, 5).map(|x| x.units()), Ok(12346));
    assert_eq!(Decimal4::from_scaled(123455, 5).map(|x| x.units()), Ok(12345));
    assert_eq!(Decimal4::from_scaled(-123456, 5).map(|x| x.units()), Ok(-12346));
    assert_eq!(Decimal4::from_scaled(15, 1).map(|x| x.units()), Ok(15_000));
    assert_eq!(Decimal4::from_scaled(15, 0).map(|x| x.units()), Ok(150_000));
    assert_eq!(Decimal4::from_scaled(15, 4).map(|x| x.units()), Ok(15));
    assert_eq!(Decimal4::from_scaled(1, 28).map(|x| x.units()), Ok(0));
    assert_eq!(
        Decimal4::from_scaled(5_000_500_000_000_000_000_000_000_001, 28).map(|x| x.units()),
        Ok(5001)
    );
    assert_eq!(
        Decimal4::from_scaled(5_000_500_000_000_000_000_000_000_000, 28).map(|x| x.units()),
        Ok(5000)
    );
    assert_eq!(
        Decimal4::from_scaled(-5_000_500_000_000_000_000_000_000_000, 28).map(|x| x.units()),
        Ok(-5000)
    );
}

#[test]
fn decimal4_from_scaled_out_of_range() {
    assert_eq!(Decimal4::from_scaled(1, 29), Err(Decimal4Error::OutOfRange));
    assert_eq!(Decimal4::from_scaled(1 << 96, 0), Err(Decimal4Error::OutOfRange));
    assert_eq!(Decimal4::from_scaled(-(1 << 96), 4), Err(Decimal4Error::OutOfRange));
    assert_eq!(
        Decimal4::from_scaled(i64::MAX as i128 + 1, 4),
        Err(Decimal4Error::OutOfRange)
    );
    assert_eq!(
        Decimal4::from_scaled(i64::MAX as i128, 4).map(|x| x.units()),
        Ok(i64::MAX)
    );
    assert_eq!(
        Decimal4::from_scaled(i64::MIN as i128, 4).map(|x| x.units()),
        Ok(i64::MIN)
    );
    assert_eq!(
        Decimal4::from_scaled(i64::MIN as i128 - 1, 4),
        Err(Decimal4Error::OutOfRange)
    );
}

#[test]
fn decimal4_from_str_errors() {
    assert_eq!(Decimal4::from_str("abc"), Err(Decimal4Error::Invalid));
    assert_eq!(Decimal4::from_str(""), Err(Decimal4Error::Invalid));
    assert_eq!(Decimal4::from_str("1.2.3"), Err(Decimal4Error::Invalid));
    assert_eq!(
        Decimal4::from_str("922337203685477.5808"),
        Err(Decimal4Error::OutOfRange)
    );
    assert_eq!(
        Decimal4::from_str("922337203685477.5807").map(|x| x.units()),
        Ok(i64::MAX)
    );
    assert_eq!(
        Decimal4::from_str("-922337203685477.5808").map(|x| x.units()),
        Ok(i64::MIN)
    );
    assert_eq!(
        Decimal4::from_str("1000000000000000"),
        Err(Decimal4Error::OutOfRange)
    );
}

#[test]
fn decimal4_text_round_trip() {
    let samples: [i64; 12] = [
        0,
        1,
        -1,
        9,
        10,
        9_999,
        10_000,
        -10_000,
        12_345_678,
        -987_654_321,
        i64::MAX,
        i64::MIN,
    ];
    for units in samples {
        let amount = Decimal4::from_units(units);
        assert_eq!(Decimal4::from_str(&amount.to_string()), Ok(amount));
    }
}

#[test]
fn decimal4_text_has_four_fractional_digits() {
    assert_eq!(Decimal4::from_units(0).to_string(), "0.0000");
    assert_eq!(Decimal4::from_units(5).to_string(), "0.0005");
    assert_eq!(Decimal4::from_units(-5).to_string(), "-0.0005");
    assert_eq!(Decimal4::from_units(1_234_500).to_string(), "123.4500");
    assert_eq!(Decimal4::from(100).to_string(), "100.0000");
    assert_eq!(Decimal4::from_units(i64::MAX).to_string(), "922337203685477.5807");
    assert_eq!(Decimal4::from_units(i64::MIN).to_string(), "-922337203685477.5808");
}

#[test]
fn decimal4_checked_arithmetic() {
    let max = Decimal4::from_units(i64::MAX);
    let min = Decimal4::from_units(i64::MIN);
    let one = Decimal4::from_units(1);
    assert_eq!(max.checked_add(one), None);
    assert_eq!(min.checked_sub(one), None);
    assert_eq!(max.checked_sub(one), Some(Decimal4::from_units(i64::MAX - 1)));
    assert_eq!(min.checked_add(one), Some(Decimal4::from_units(i64::MIN + 1)));
    assert_eq!(
        Decimal4::from(2).checked_add(Decimal4::from(3)),
        Some(Decimal4::from(5))
    );
}

#[test]
fn decimal4_sign_and_order() {
    assert!(Decimal4::from_units(1).is_positive());
    assert!(!Decimal4::zero().is_positive());
    assert!(!Decimal4::from_units(-1).is_positive());
    assert!(Decimal4::from_units(-1).is_negative());
    assert!(!Decimal4::zero().is_negative());
    assert!(Decimal4::from_units(-1) < Decimal4::zero());
    assert!(Decimal4::from(2) > Decimal4::from_str("1.9999").unwrap());
    assert_eq!(Decimal4::from_str("1.50"), Decimal4::from_str("1.5"));
}

#[test]
fn decimal4_parse_and_assign() {
    let mut amount: Decimal4 = "1.5".parse().unwrap();
    amount += Decimal4::from(1);
    amount -= Decimal4::from_units(1);
    assert_eq!(amount.to_string(), "2.4999");
    assert_eq!("x".parse::<Decimal4>(), Err(Decimal4Error::Invalid));
}
