use hotel_booking::booking::AppError;
use hotel_booking::catalog::{
    get_booking, get_hotel, get_room, join_rooms, list_hotels, list_rooms_by_hotel, search_rooms,
};
use hotel_booking::date::{Date, Timestamp};
use hotel_booking::handlers::{
    booking_confirmation, home, hotel_detail, parse_home_pool, parse_search_pool, room_detail,
    same_text, search, HomeQuery, SearchQuery,
};
use hotel_booking::models::{Booking, Room, RoomWithHotel};
use hotel_booking::seed::{seed_data, seed_hotels, seed_rooms};
use hotel_booking::text::{eq_ignore_ascii_case, parse_i64};

fn seeded_rows() -> Vec<RoomWithHotel> {
    join_rooms(&seed_rooms(), &seed_hotels())
}

fn ids(rows: &[RoomWithHotel]) -> Vec<i64> {
    rows.iter().map(|r| r.id).collect()
}

fn booking(id: i64, room_id: i64, total_cents: i64) -> Booking {
    Booking {
        id,
        room_id,
        guest_name: "Grace Hopper".to_string(),
        guest_email: "grace@example.com".to_string(),
        check_in: Date { year: 2025, month: 6, day: 1 },
        check_out: Date { year: 2025, month: 6, day: 4 },
        guests: 2,
        total_cents,
        created_at: Timestamp { date: Date { year: 2025, month: 5, day: 20 }, hour: 9, minute: 30, second: 0 },
    }
}

#[test]
fn amenity_filter_selects_by_pool_flag() {
    let hotels = seed_hotels();
    let all = list_hotels(&hotels, None);
    assert_eq!(all.len(), 3);
    let with_pool: Vec<i64> = list_hotels(&hotels, Some(true)).iter().map(|h| h.id).collect();
    let without: Vec<i64> = list_hotels(&hotels, Some(false)).iter().map(|h| h.id).collect();
    let expected_with: Vec<i64> = all.iter().filter(|h| h.has_pool).map(|h| h.id).collect();
    let expected_without: Vec<i64> = all.iter().filter(|h| !h.has_pool).map(|h| h.id).collect();
    assert_eq!(with_pool, expected_with);
    assert_eq!(without, expected_without);
    assert_eq!(with_pool, vec![1, 2]);
    assert_eq!(without, vec![3]);
}

#[test]
fn city_search_ignores_case() {
    let rows = seeded_rows();
    let a = search_rooms(&rows, Some("New York"), Some(2), None);
    let b = search_rooms(&rows, Some("NEW YORK"), Some(2), None);
    let c = search_rooms(&rows, Some("new york"), Some(2), None);
    assert_eq!(ids(&a), vec![1, 2, 3]);
    assert_eq!(ids(&a), ids(&b));
    assert_eq!(ids(&a), ids(&c));
}

#[test]
fn empty_city_matches_every_city() {
    let rows = seeded_rows();
    assert_eq!(search_rooms(&rows, Some(""), None, None).len(), 8);
    assert_eq!(search_rooms(&rows, Some("Paris"), None, None).len(), 0);
}

#[test]
fn guest_criterion_keeps_rooms_that_sleep_enough() {
    let rows = seeded_rows();
    for g in 0..8 {
        for r in search_rooms(&rows, None, Some(g), None) {
            assert!(r.max_guests >= g);
        }
    }
    assert_eq!(ids(&search_rooms(&rows, None, Some(4), None)), vec![2, 5, 8]);
    assert_eq!(search_rooms(&rows, None, Some(0), None).len(), 8);
    assert_eq!(search_rooms(&rows, None, Some(7), None).len(), 0);
}

#[test]
fn pool_criterion_in_search() {
    let rows = seeded_rows();
    assert_eq!(ids(&search_rooms(&rows, None, None, Some(false))), vec![7, 8]);
    assert_eq!(search_rooms(&rows, Some("aspen"), Some(3), Some(false)).len(), 1);
}

#[test]
fn join_drops_rooms_without_hotel() {
    let mut rooms: Vec<Room> = seed_rooms();
    let mut orphan = rooms[0].clone();
    orphan.id = 99;
    orphan.hotel_id = 42;
    rooms.push(orphan);
    let rows = join_rooms(&rooms, &seed_hotels());
    assert_eq!(rows.len(), 8);
    assert_eq!(rows[3].hotel_name, "Seaside Resort");
    assert_eq!(rows[3].hotel_city, "Miami");
    assert!(rows[3].hotel_has_pool);
}

#[test]
fn rooms_of_a_hotel() {
    let rooms = seed_rooms();
    let ids: Vec<i64> = list_rooms_by_hotel(&rooms, 2).iter().map(|r| r.id).collect();
    assert_eq!(ids, vec![4, 5, 6]);
    assert!(list_rooms_by_hotel(&rooms, 9).is_empty());
}

#[test]
fn booking_round_trip() {
    let mut table = vec![booking(1, 3, 37800)];
    let stored = booking(2, 1, 89700);
    table.push(stored.clone());
    let found = get_booking(&table, 2).unwrap();
    assert_eq!(found.room_id, 1);
    assert_eq!(found.check_in, stored.check_in);
    assert_eq!(found.check_out, stored.check_out);
    assert_eq!(found.guests, 2);
    assert_eq!(found.total_cents, 89700);
}

#[test]
fn unknown_ids_are_not_found() {
    let hotels = seed_hotels();
    let rows = seeded_rows();
    let bookings = vec![booking(1, 1, 89700)];
    assert!(get_hotel(&hotels, 99).is_none());
    assert!(get_room(&rows, 99).is_none());
    assert!(get_booking(&bookings, 99).is_none());
    assert_eq!(hotel_detail(&hotels, &seed_rooms(), 99).err(), Some(AppError::NotFound));
    assert_eq!(room_detail(&rows, 99).err(), Some(AppError::NotFound));
    assert_eq!(booking_confirmation(&bookings, &rows, 99).err(), Some(AppError::NotFound));
    let dangling = vec![booking(5, 99, 100)];
    assert_eq!(booking_confirmation(&dangling, &rows, 5).err(), Some(AppError::NotFound));
}

#[test]
fn known_ids_are_found() {
    let hotels = seed_hotels();
    let rows = seeded_rows();
    let page = hotel_detail(&hotels, &seed_rooms(), 1).ok().unwrap();
    assert_eq!(page.hotel.name, "Grand Plaza Hotel");
    assert_eq!(page.rooms.len(), 3);
    assert_eq!(room_detail(&rows, 5).ok().unwrap().room.name, "Beach Bungalow");
    let bookings = vec![booking(1, 4, 104700)];
    let conf = booking_confirmation(&bookings, &rows, 1).ok().unwrap();
    assert_eq!(conf.room.hotel_name, "Seaside Resort");
    assert_eq!(conf.booking.total_cents, 104700);
}

#[test]
fn seeding_happens_once() {
    let (hotels, rooms) = seed_data(0);
    assert_eq!(hotels.len(), 3);
    assert_eq!(rooms.len(), 8);
    let (again_hotels, again_rooms) = seed_data(hotels.len() as i64);
    assert!(again_hotels.is_empty());
    assert!(again_rooms.is_empty());
    assert_eq!(hotels[0].name, "Grand Plaza Hotel");
    assert_eq!(rooms[7].max_guests, 6);
    assert_eq!(rooms[0].price_per_night_cents, 29900);
}

#[test]
fn home_query_pool_filter() {
    let hotels = seed_hotels();
    let t = home(&hotels, &HomeQuery { has_pool: Some("yes".to_string()) });
    assert_eq!(t.hotels.len(), 2);
    assert!(t.filter_with_pool && !t.filter_all && !t.filter_no_pool);
    let t = home(&hotels, &HomeQuery { has_pool: Some("0".to_string()) });
    assert_eq!(t.hotels.len(), 1);
    assert!(t.filter_no_pool);
    let t = home(&hotels, &HomeQuery { has_pool: Some("maybe".to_string()) });
    assert_eq!(t.hotels.len(), 3);
    assert!(t.filter_all);
    assert_eq!(parse_home_pool(&None), None);
    assert_eq!(parse_home_pool(&Some("false".to_string())), Some(false));
    assert_eq!(parse_search_pool(&Some("false".to_string())), None);
    assert_eq!(parse_search_pool(&Some("true".to_string())), Some(true));
}

#[test]
fn search_page_keeps_typed_criteria() {
    let rows = seeded_rows();
    let q = SearchQuery {
        city: Some("MIAMI".to_string()),
        guests: Some("four".to_string()),
        has_pool: Some("1".to_string()),
    };
    let t = search(&rows, &q);
    assert_eq!(ids(&t.rooms), vec![4, 5, 6]);
    assert_eq!(t.city, "MIAMI");
    assert_eq!(t.guests, "four");
    assert!(t.has_pool);
    let q = SearchQuery { city: None, guests: Some("4".to_string()), has_pool: Some("yes".to_string()) };
    let t = search(&rows, &q);
    assert_eq!(ids(&t.rooms), vec![2, 5]);
    assert!(!t.has_pool);
    assert_eq!(t.city, "");
}

#[test]
fn integers_parse_like_std() {
    assert_eq!(parse_i64("42"), Some(42));
    assert_eq!(parse_i64("+7"), Some(7));
    assert_eq!(parse_i64("-3"), Some(-3));
    assert_eq!(parse_i64(""), None);
    assert_eq!(parse_i64("-"), None);
    assert_eq!(parse_i64(" 1"), None);
    assert_eq!(parse_i64("1x"), None);
    assert_eq!(parse_i64("9223372036854775807"), Some(i64::MAX));
    assert_eq!(parse_i64("9223372036854775808"), None);
    assert_eq!(parse_i64("-9223372036854775808"), Some(i64::MIN));
    assert_eq!(parse_i64("-9223372036854775809"), None);
    assert_eq!(parse_i64("000123"), Some(123));
    assert_eq!(parse_i64("99999999999999999999999"), None);
}

#[test]
fn text_comparisons() {
    assert!(eq_ignore_ascii_case("New York", "nEW yORK"));
    assert!(!eq_ignore_ascii_case("New York", "New Yorks"));
    assert!(!eq_ignore_ascii_case("Aspen", "Asp3n"));
    assert!(eq_ignore_ascii_case("", ""));
    assert!(same_text("yes", "yes"));
    assert!(!same_text("yes", "Yes"));
}

#[test]
fn money_and_stars_display() {
    let rows = seeded_rows();
    assert_eq!(rows[0].price_display(), "$299.00");
    let mut room = seed_rooms()[0].clone();
    assert_eq!(room.price_display(), "$299.00");
    room.price_per_night_cents = 1905;
    assert_eq!(room.price_display(), "$19.05");
    room.price_per_night_cents = 0;
    assert_eq!(room.price_display(), "$0.00");
    room.price_per_night_cents = 123456;
    assert_eq!(room.price_display(), "$1234.56");
    assert_eq!(booking(1, 1, 89700).total_display(), "$897.00");
    let hotels = seed_hotels();
    assert_eq!(hotels[0].stars_display(), "\u{2605}\u{2605}\u{2605}\u{2605}\u{2605}");
    assert_eq!(hotels[2].stars_display().chars().count(), 4);
}

#[test]
fn rooms_by_price_stay_by_price() {
    let mut rooms = seed_rooms();
    rooms.sort_by_key(|r| r.price_per_night_cents);
    let rows = join_rooms(&rooms, &seed_hotels());
    let prices: Vec<i64> = rows.iter().map(|r| r.price_per_night_cents).collect();
    assert_eq!(prices, vec![18900, 22900, 27900, 29900, 34900, 42900, 49900, 59900]);
    let found = search_rooms(&rows, Some("new york"), None, None);
    assert_eq!(ids(&found), vec![3, 1, 2]);
    let mine: Vec<i64> = list_rooms_by_hotel(&rooms, 2).iter().map(|r| r.id).collect();
    assert_eq!(mine, vec![6, 4, 5]);
}
