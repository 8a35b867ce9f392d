use date_render::precision::InvalidPrecision;
use date_render::Precision;

#[test]
fn test_precision_as_u8() {
    assert_eq!(Precision::Day.as_u8(), 11);
    assert_eq!(Precision::Month.as_u8(), 10);
    assert_eq!(Precision::Year.as_u8(), 9);
    assert_eq!(Precision::Decade.as_u8(), 8);
    assert_eq!(Precision::Century.as_u8(), 7);
    assert_eq!(Precision::Millennium.as_u8(), 6);
}

#[test]
fn test_precision_display() {
    assert_eq!(Precision::Day.as_string(), "11");
    assert_eq!(Precision::Month.as_string(), "10");
    assert_eq!(Precision::Year.as_string(), "9");
    assert_eq!(Precision::Decade.as_string(), "8");
    assert_eq!(Precision::Century.as_string(), "7");
    assert_eq!(Precision::Millennium.as_string(), "6");
}

#[test]
fn test_precision_from_u8() {
    assert_eq!(Precision::from_rank(11).unwrap(), Precision::Day);
    assert_eq!(Precision::from_rank(10).unwrap(), Precision::Month);
    assert_eq!(Precision::from_rank(9).unwrap(), Precision::Year);
    assert_eq!(Precision::from_rank(8).unwrap(), Precision::Decade);
    assert_eq!(Precision::from_rank(7).unwrap(), Precision::Century);
    assert_eq!(Precision::from_rank(6).unwrap(), Precision::Millennium);
    assert!(Precision::from_rank(5).is_err());
    assert!(Precision::from_rank(12).is_err());
}

#[test]
fn test_precision_rank_round_trip() {
    let all = [
        Precision::Day,
        Precision::Month,
        Precision::Year,
        Precision::Decade,
        Precision::Century,
        Precision::Millennium,
    ];
    for p in all {
        assert_eq!(Precision::from_rank(p.as_u8()).unwrap(), p);
    }
}

#[test]
fn test_precision_invalid_carries_value() {
    assert_eq!(Precision::from_rank(0), Err(InvalidPrecision(0)));
    assert_eq!(Precision::from_rank(5), Err(InvalidPrecision(5)));
    assert_eq!(Precision::from_rank(12), Err(InvalidPrecision(12)));
    assert_eq!(Precision::from_rank(255), Err(InvalidPrecision(255)));
}
