use pywr::timestep::holds_long_number;
use pywr::{PywrError, Timestep, Timestepper};

#[test]
fn a_fortnight_of_daily_timesteps() {
    let timestepper = Timestepper::new("2020-01-01", "2020-01-15", "%Y-%m-%d", 1).unwrap();
    let timesteps = timestepper.timesteps();
    assert_eq!(timesteps.len(), 15);
    // 2020-01-01 is day 737425 of the proleptic Gregorian calendar
    assert_eq!(timesteps[0], Timestep { date: 737425, index: 0, duration: 1 });
    assert_eq!(timesteps[14], Timestep { date: 737439, index: 14, duration: 1 });
    for (i, timestep) in timesteps.iter().enumerate() {
        assert_eq!(timestep.index, i);
        assert_eq!(timestep.date, 737425 + i as i64);
        assert_eq!(timestep.days(), 1);
    }
}

#[test]
fn dates_are_read_in_the_given_format() {
    let dashes = Timestepper::new("2020-01-01", "2020-01-15", "%Y-%m-%d", 1).unwrap();
    let slashes = Timestepper::new("01/01/2020", "15/01/2020", "%d/%m/%Y", 1).unwrap();
    assert_eq!(dashes, slashes);
    assert_eq!(dashes, Timestepper::from_day_numbers(737425, 737439, 1));
    assert_eq!(
        Timestepper::new("0001-01-01", "0001-01-01", "%Y-%m-%d", 1).unwrap(),
        Timestepper::from_day_numbers(1, 1, 1)
    );
}

#[test]
fn a_text_that_is_no_date_is_refused() {
    assert_eq!(
        Timestepper::new("2020-13-01", "2020-01-15", "%Y-%m-%d", 1),
        Err(PywrError::InvalidDate)
    );
    assert_eq!(
        Timestepper::new("2020-01-01", "the fifteenth", "%Y-%m-%d", 1),
        Err(PywrError::InvalidDate)
    );
    assert_eq!(
        Timestepper::new("2020-01-01", "2020-01-15", "%d/%m/%Y", 1),
        Err(PywrError::InvalidDate)
    );
}

#[test]
fn weekly_timesteps_stop_at_the_end() {
    let timesteps = Timestepper::from_day_numbers(1, 15, 7).timesteps();
    assert_eq!(
        timesteps,
        vec![
            Timestep { date: 1, index: 0, duration: 7 },
            Timestep { date: 8, index: 1, duration: 7 },
            Timestep { date: 15, index: 2, duration: 7 },
        ]
    );
    let timesteps = Timestepper::from_day_numbers(1, 14, 7).timesteps();
    assert_eq!(timesteps.len(), 2);
    assert_eq!(timesteps[1].date, 8);
}

#[test]
fn an_end_before_the_start_gives_no_timestep() {
    assert!(Timestepper::from_day_numbers(10, 9, 1).timesteps().is_empty());
    assert_eq!(Timestepper::from_day_numbers(10, 10, 3).timesteps().len(), 1);
}

#[test]
fn a_step_may_be_longer_than_any_span() {
    let timesteps = Timestepper::from_day_numbers(i32::MIN, i32::MAX, i64::MAX).timesteps();
    assert_eq!(
        timesteps,
        vec![Timestep { date: i32::MIN as i64, index: 0, duration: i64::MAX }]
    );
}

#[test]
fn a_sign_before_ten_digits_is_a_long_number() {
    assert!(holds_long_number("-2147483648-W01-1"));
    assert!(holds_long_number("+2147483647"));
    assert!(holds_long_number("on +00000000001"));
    assert!(holds_long_number("12-0123456789"));
    assert!(holds_long_number("+-1234567890x"));
    assert!(holds_long_number("+12345+1234567890"));

    assert!(!holds_long_number(""));
    assert!(!holds_long_number("+"));
    assert!(!holds_long_number("2020-01-01"));
    assert!(!holds_long_number("-123456789"));
    assert!(!holds_long_number("+123456789-"));
    assert!(!holds_long_number("+12345 67890"));
    assert!(!holds_long_number("+12345-67890"));
    // ten digits and more, but no sign before them
    assert!(!holds_long_number("20200101120000"));
    assert!(!holds_long_number("x1234567890"));
    // digits of another script are no digits here
    assert!(!holds_long_number("+\u{0661}\u{0662}\u{0663}\u{0664}\u{0665}\u{0666}\u{0667}\u{0668}\u{0669}\u{0660}"));
}

#[test]
fn a_year_beyond_nine_digits_is_refused() {
    assert_eq!(
        Timestepper::new("-2147483648-W01-1", "2020-W01-1", "%G-W%V-%u", 1),
        Err(PywrError::InvalidDate)
    );
    assert_eq!(
        Timestepper::new("2020-W01-1", "+2147483647-W52-7", "%G-W%V-%u", 1),
        Err(PywrError::InvalidDate)
    );
    assert_eq!(
        Timestepper::new("+0000002020-01-01", "2020-01-15", "%Y-%m-%d", 1),
        Err(PywrError::InvalidDate)
    );
    // nine digits after the sign are read
    assert_eq!(
        Timestepper::new("+000002020-01-01", "+2020-01-15", "%Y-%m-%d", 1),
        Ok(Timestepper::from_day_numbers(737425, 737439, 1))
    );
    assert_eq!(
        Timestepper::new("-999999999-01-01", "2020-01-15", "%Y-%m-%d", 1),
        Err(PywrError::InvalidDate)
    );
    // the Mondays of the first weeks of 2019 and 2020: 2018-12-31 and 2019-12-30
    assert_eq!(
        Timestepper::new("2019-W01-1", "2020-W01-1", "%G-W%V-%u", 1),
        Ok(Timestepper::from_day_numbers(737059, 737423, 1))
    );
}

#[test]
fn a_date_may_be_written_without_separators() {
    assert_eq!(
        Timestepper::new("20200101120000", "20200115120000", "%Y%m%d%H%M%S", 1),
        Ok(Timestepper::from_day_numbers(737425, 737439, 1))
    );
}
