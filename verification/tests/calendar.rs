use emotion_pipeline::calendar::{get_date_month, get_previous_weekday, to_signed_seconds, CalendarError};

#[test]
fn monday_maps_to_friday() {
    assert_eq!(get_previous_weekday(1728865800), Ok("2024-10-11".to_string()));
}

#[test]
fn tuesday_maps_to_monday() {
    assert_eq!(get_previous_weekday(1728952200), Ok("2024-10-14".to_string()));
}

#[test]
fn wednesday_maps_to_tuesday() {
    assert_eq!(get_previous_weekday(1729038600), Ok("2024-10-15".to_string()));
}

#[test]
fn thursday_maps_to_wednesday() {
    assert_eq!(get_previous_weekday(1729125000), Ok("2024-10-16".to_string()));
}

#[test]
fn friday_maps_to_thursday() {
    assert_eq!(get_previous_weekday(1729211400), Ok("2024-10-17".to_string()));
}

#[test]
fn saturday_maps_to_friday() {
    assert_eq!(get_previous_weekday(1729297800), Ok("2024-10-18".to_string()));
}

#[test]
fn sunday_maps_to_saturday() {
    assert_eq!(get_previous_weekday(1729384200), Ok("2024-10-19".to_string()));
}

#[test]
fn weekday_is_taken_nine_hours_east() {
    // 14:59:59 UTC on Sunday is still Sunday locally; one second later it is Monday.
    assert_eq!(get_previous_weekday(1728831599), Ok("2024-10-12".to_string()));
    assert_eq!(get_previous_weekday(1728831600), Ok("2024-10-11".to_string()));
}

#[test]
fn previous_weekday_out_of_range() {
    assert_eq!(get_previous_weekday(i64::MIN), Err(CalendarError::OutOfRange));
    assert_eq!(get_previous_weekday(i64::MAX), Err(CalendarError::OutOfRange));
}

#[test]
fn date_and_month_of_timestamp() {
    assert_eq!(
        get_date_month(1728800000),
        Ok(("2024-10-13".to_string(), "2024-10".to_string()))
    );
    assert_eq!(
        get_date_month(1728831600),
        Ok(("2024-10-14".to_string(), "2024-10".to_string()))
    );
    assert_eq!(get_date_month(0), Ok(("1970-01-01".to_string(), "1970-01".to_string())));
    assert_eq!(
        get_date_month(32503680000),
        Ok(("3000-01-01".to_string(), "3000-01".to_string()))
    );
}

#[test]
fn date_and_month_out_of_range() {
    assert_eq!(get_date_month(i64::MAX as u64), Err(CalendarError::OutOfRange));
}

#[test]
fn date_of_wrapped_timestamp() {
    assert_eq!(to_signed_seconds(u64::MAX), -1);
    assert_eq!(to_signed_seconds(5), 5);
    assert_eq!(to_signed_seconds(1u64 << 63), i64::MIN);
    assert_eq!(
        get_date_month(u64::MAX),
        Ok(("1970-01-01".to_string(), "1970-01".to_string()))
    );
}
