use hotel_booking::booking::{
    book_room, booking_for_stay, parse_guests, stay_between, validate_stay, AppError,
};
use hotel_booking::date::{days_between, Date};
use hotel_booking::models::{BookingForm, RoomWithHotel};

fn form(check_in: &str, check_out: &str, guests: &str) -> BookingForm {
    BookingForm {
        guest_name: "Ada Lovelace".to_string(),
        guest_email: "ada@example.com".to_string(),
        check_in: check_in.to_string(),
        check_out: check_out.to_string(),
        guests: guests.to_string(),
    }
}

fn room(price: i64) -> RoomWithHotel {
    RoomWithHotel {
        id: 1,
        hotel_id: 1,
        name: "Deluxe King".to_string(),
        description: "Spacious room.".to_string(),
        room_type: "deluxe".to_string(),
        price_per_night_cents: price,
        max_guests: 2,
        image_url: None,
        hotel_name: "Grand Plaza Hotel".to_string(),
        hotel_city: "New York".to_string(),
        hotel_has_pool: true,
    }
}

fn date(year: i32, month: u32, day: u32) -> Date {
    Date { year, month, day }
}

#[test]
fn three_nights_at_29900_cost_89700() {
    let r = room(29900);
    let b = book_room(1, &form("2025-06-01", "2025-06-04", "2"), Some(&r)).unwrap();
    assert_eq!(b.total_cents, 89700);
    assert_eq!(b.room_id, 1);
    assert_eq!(b.guests, 2);
    assert_eq!(b.check_in, date(2025, 6, 1));
    assert_eq!(b.check_out, date(2025, 6, 4));
    assert_eq!(b.guest_name, "Ada Lovelace");
    assert_eq!(b.guest_email, "ada@example.com");
}

#[test]
fn same_day_check_out_is_rejected() {
    let r = room(29900);
    let e = book_room(1, &form("2025-06-04", "2025-06-04", "2"), Some(&r)).unwrap_err();
    assert_eq!(e, AppError::ClientInput);
}

#[test]
fn check_out_before_check_in_is_rejected() {
    let r = room(29900);
    let e = book_room(1, &form("2025-06-04", "2025-06-03", "2"), Some(&r)).unwrap_err();
    assert_eq!(e, AppError::ClientInput);
}

#[test]
fn malformed_dates_are_rejected() {
    let r = room(29900);
    assert_eq!(book_room(1, &form("06/01/2025", "2025-06-04", "1"), Some(&r)).unwrap_err(), AppError::ClientInput);
    assert_eq!(book_room(1, &form("2025-06-01", "tomorrow", "1"), Some(&r)).unwrap_err(), AppError::ClientInput);
    assert_eq!(book_room(1, &form("2025-02-30", "2025-03-04", "1"), Some(&r)).unwrap_err(), AppError::ClientInput);
}

#[test]
fn missing_room_is_not_found() {
    let e = book_room(7, &form("2025-06-01", "2025-06-04", "2"), None).unwrap_err();
    assert_eq!(e, AppError::NotFound);
}

#[test]
fn bad_dates_win_over_missing_room() {
    let e = book_room(7, &form("2025-06-04", "2025-06-01", "2"), None).unwrap_err();
    assert_eq!(e, AppError::ClientInput);
}

#[test]
fn overflowing_total_is_rejected() {
    let r = room(i64::MAX);
    let e = book_room(1, &form("2025-06-01", "2025-06-03", "2"), Some(&r)).unwrap_err();
    assert_eq!(e, AppError::ClientInput);
}

#[test]
fn stay_across_a_leap_day() {
    let s = validate_stay(&form("2024-02-28", "2024-03-01", "x")).unwrap();
    assert_eq!(s.nights, 2);
    assert_eq!(s.guests, 1);
}

#[test]
fn guest_count_defaults_to_one() {
    assert_eq!(parse_guests("3"), 3);
    assert_eq!(parse_guests("abc"), 1);
    assert_eq!(parse_guests(""), 1);
    assert_eq!(parse_guests("0"), 1);
    assert_eq!(parse_guests("-4"), 1);
    assert_eq!(parse_guests("+5"), 5);
}

#[test]
fn dates_parse_as_year_month_day() {
    assert_eq!(Date::parse("2025-06-01"), Some(date(2025, 6, 1)));
    assert_eq!(Date::parse("2024-02-29"), Some(date(2024, 2, 29)));
    assert_eq!(Date::parse("2023-02-29"), None);
    assert_eq!(Date::parse("2025-13-01"), None);
    assert_eq!(Date::parse(""), None);
}

#[test]
fn day_numbers_count_from_year_one() {
    assert_eq!(date(1, 1, 1).day_number(), 1);
    assert_eq!(date(1970, 1, 1).day_number(), 719163);
    assert_eq!(date(0, 12, 31).day_number(), 0);
    assert_eq!(date(-1, 1, 1).day_number(), -730);
}

#[test]
fn days_between_dates() {
    assert_eq!(days_between(&date(2023, 12, 31), &date(2024, 1, 1)), 1);
    assert_eq!(days_between(&date(2000, 1, 1), &date(2001, 1, 1)), 366);
    assert_eq!(days_between(&date(1900, 1, 1), &date(1901, 1, 1)), 365);
    assert_eq!(days_between(&date(2025, 6, 4), &date(2025, 6, 1)), -3);
}

#[test]
fn error_kinds_map_to_statuses() {
    assert_eq!(AppError::ClientInput.status_code(), 400);
    assert_eq!(AppError::NotFound.status_code(), 404);
    assert_eq!(AppError::Storage.status_code(), 500);
}

#[test]
fn stay_between_parsed_dates() {
    let s = stay_between(date(2025, 6, 1), date(2025, 6, 4), "2").unwrap();
    assert_eq!(s.nights, 3);
    assert_eq!(s.guests, 2);
    assert_eq!(stay_between(date(2025, 6, 4), date(2025, 6, 4), "2").unwrap_err(), AppError::ClientInput);
    assert_eq!(stay_between(date(2025, 6, 4), date(2025, 6, 3), "2").unwrap_err(), AppError::ClientInput);
    assert_eq!(stay_between(date(2024, 12, 30), date(2025, 1, 2), "0").unwrap().nights, 3);
}

#[test]
fn booking_for_a_validated_stay() {
    let f = form("2025-06-01", "2025-06-04", "2");
    let stay = stay_between(date(2025, 6, 1), date(2025, 6, 4), "2").unwrap();
    let r = room(29900);
    let b = booking_for_stay(1, &f, &stay, Some(&r)).unwrap();
    assert_eq!(b.total_cents, 89700);
    assert_eq!(booking_for_stay(1, &f, &stay, None).unwrap_err(), AppError::NotFound);
    let big = room(i64::MAX / 2);
    assert_eq!(booking_for_stay(1, &f, &stay, Some(&big)).unwrap_err(), AppError::ClientInput);
}
