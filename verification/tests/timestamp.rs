use scylla_aws_keyspaces_authenticator::Timestamp;

#[test]
fn instant_is_written_in_two_forms() {
    let t = Timestamp::new(2022, 1, 1, 0, 0, 0, 0).unwrap();
    assert_eq!(t.datestamp(), "20220101");
    assert_eq!(t.amz_date(), "2022-01-01T00:00:00.000Z");
    let t = Timestamp::new(2018, 1, 26, 18, 30, 9, 453).unwrap();
    assert_eq!(t.datestamp(), "20180126");
    assert_eq!(t.amz_date(), "2018-01-26T18:30:09.453Z");
}

#[test]
fn fields_are_padded_with_zeros() {
    let t = Timestamp::new(987, 6, 5, 4, 3, 2, 1).unwrap();
    assert_eq!(t.datestamp(), "09870605");
    assert_eq!(t.amz_date(), "0987-06-05T04:03:02.001Z");
    let t = Timestamp::new(0, 1, 1, 0, 0, 0, 0).unwrap();
    assert_eq!(t.datestamp(), "00000101");
    assert_eq!(t.amz_date(), "0000-01-01T00:00:00.000Z");
    let t = Timestamp::new(12, 10, 31, 10, 20, 30, 40).unwrap();
    assert_eq!(t.datestamp(), "00121031");
    assert_eq!(t.amz_date(), "0012-10-31T10:20:30.040Z");
}

#[test]
fn last_instant_is_written_in_full() {
    let t = Timestamp::new(9999, 12, 31, 23, 59, 59, 999).unwrap();
    assert_eq!(t.datestamp(), "99991231");
    assert_eq!(t.amz_date(), "9999-12-31T23:59:59.999Z");
}

#[test]
fn days_that_do_not_exist_are_refused() {
    assert!(Timestamp::new(2023, 2, 29, 0, 0, 0, 0).is_none());
    assert!(Timestamp::new(2024, 2, 29, 0, 0, 0, 0).is_some());
    assert!(Timestamp::new(2024, 2, 30, 0, 0, 0, 0).is_none());
    assert!(Timestamp::new(1900, 2, 29, 0, 0, 0, 0).is_none());
    assert!(Timestamp::new(2000, 2, 29, 0, 0, 0, 0).is_some());
    assert!(Timestamp::new(0, 2, 29, 0, 0, 0, 0).is_some());
    assert!(Timestamp::new(2023, 4, 31, 0, 0, 0, 0).is_none());
    assert!(Timestamp::new(2023, 4, 30, 0, 0, 0, 0).is_some());
    assert!(Timestamp::new(2023, 12, 31, 0, 0, 0, 0).is_some());
    assert!(Timestamp::new(2023, 12, 32, 0, 0, 0, 0).is_none());
    assert!(Timestamp::new(2023, 1, 0, 0, 0, 0, 0).is_none());
    assert!(Timestamp::new(2023, 0, 1, 0, 0, 0, 0).is_none());
    assert!(Timestamp::new(2023, 13, 1, 0, 0, 0, 0).is_none());
    assert!(Timestamp::new(-4, 2, 29, 0, 0, 0, 0).is_some());
    assert!(Timestamp::new(-1, 2, 29, 0, 0, 0, 0).is_none());
    assert!(Timestamp::new(-100, 2, 29, 0, 0, 0, 0).is_none());
    assert!(Timestamp::new(-400, 2, 29, 0, 0, 0, 0).is_some());
}

#[test]
fn years_outside_the_calendar_are_refused() {
    assert!(Timestamp::new(262142, 12, 31, 23, 59, 59, 999).is_some());
    assert!(Timestamp::new(262143, 1, 1, 0, 0, 0, 0).is_none());
    assert!(Timestamp::new(-262143, 1, 1, 0, 0, 0, 0).is_some());
    assert!(Timestamp::new(-262144, 12, 31, 23, 59, 59, 999).is_none());
    assert!(Timestamp::new(i32::MAX, 1, 1, 0, 0, 0, 0).is_none());
    assert!(Timestamp::new(i32::MIN, 1, 1, 0, 0, 0, 0).is_none());
}

#[test]
fn years_beyond_four_digits_carry_a_sign() {
    let t = Timestamp::new(10000, 1, 1, 0, 0, 0, 0).unwrap();
    assert_eq!(t.datestamp(), "+100000101");
    assert_eq!(t.amz_date(), "+10000-01-01T00:00:00.000Z");
    let t = Timestamp::new(99999, 12, 31, 1, 2, 3, 4).unwrap();
    assert_eq!(t.datestamp(), "+999991231");
    assert_eq!(t.amz_date(), "+99999-12-31T01:02:03.004Z");
    let t = Timestamp::new(100000, 2, 29, 0, 0, 0, 0).unwrap();
    assert_eq!(t.datestamp(), "+1000000229");
    assert_eq!(t.amz_date(), "+100000-02-29T00:00:00.000Z");
    let t = Timestamp::new(262142, 12, 31, 23, 59, 59, 999).unwrap();
    assert_eq!(t.datestamp(), "+2621421231");
    assert_eq!(t.amz_date(), "+262142-12-31T23:59:59.999Z");
}

#[test]
fn years_before_the_year_zero_carry_a_sign() {
    let t = Timestamp::new(-1, 12, 31, 23, 59, 59, 999).unwrap();
    assert_eq!(t.datestamp(), "-00011231");
    assert_eq!(t.amz_date(), "-0001-12-31T23:59:59.999Z");
    let t = Timestamp::new(-9999, 1, 2, 3, 4, 5, 6).unwrap();
    assert_eq!(t.datestamp(), "-99990102");
    assert_eq!(t.amz_date(), "-9999-01-02T03:04:05.006Z");
    let t = Timestamp::new(-10000, 1, 1, 0, 0, 0, 0).unwrap();
    assert_eq!(t.datestamp(), "-100000101");
    assert_eq!(t.amz_date(), "-10000-01-01T00:00:00.000Z");
    let t = Timestamp::new(-262143, 1, 1, 0, 0, 0, 0).unwrap();
    assert_eq!(t.datestamp(), "-2621430101");
    assert_eq!(t.amz_date(), "-262143-01-01T00:00:00.000Z");
}

#[test]
fn leap_second_reads_as_second_sixty() {
    let t = Timestamp::new(2016, 12, 31, 23, 59, 59, 1000).unwrap();
    assert_eq!(t.datestamp(), "20161231");
    assert_eq!(t.amz_date(), "2016-12-31T23:59:60.000Z");
    let t = Timestamp::new(2016, 12, 31, 23, 59, 59, 1500).unwrap();
    assert_eq!(t.amz_date(), "2016-12-31T23:59:60.500Z");
    let t = Timestamp::new(2022, 1, 1, 0, 0, 59, 1999).unwrap();
    assert_eq!(t.amz_date(), "2022-01-01T00:00:60.999Z");
    let t = Timestamp::new(2022, 1, 1, 0, 0, 59, 999).unwrap();
    assert_eq!(t.amz_date(), "2022-01-01T00:00:59.999Z");
}

#[test]
fn every_month_has_its_length() {
    let lengths = [31u8, 28, 31, 30, 31, 30, 31, 31, 30, 31, 30, 31];
    for (index, length) in lengths.iter().enumerate() {
        let month = index as u8 + 1;
        assert!(Timestamp::new(2023, month, *length, 0, 0, 0, 0).is_some());
        assert!(Timestamp::new(2023, month, *length + 1, 0, 0, 0, 0).is_none());
    }
}

#[test]
fn times_that_do_not_exist_are_refused() {
    assert!(Timestamp::new(2023, 1, 1, 23, 59, 59, 999).is_some());
    assert!(Timestamp::new(2023, 1, 1, 24, 0, 0, 0).is_none());
    assert!(Timestamp::new(2023, 1, 1, 0, 60, 0, 0).is_none());
    assert!(Timestamp::new(2023, 1, 1, 0, 0, 60, 0).is_none());
    assert!(Timestamp::new(2023, 1, 1, 0, 0, 58, 1000).is_none());
    assert!(Timestamp::new(2023, 1, 1, 0, 0, 0, 1999).is_none());
    assert!(Timestamp::new(2023, 1, 1, 0, 0, 59, 1000).is_some());
    assert!(Timestamp::new(2023, 1, 1, 0, 0, 59, 1999).is_some());
    assert!(Timestamp::new(2023, 1, 1, 0, 0, 59, 2000).is_none());
    assert!(Timestamp::new(2023, 1, 1, 0, 0, 59, u16::MAX).is_none());
}
