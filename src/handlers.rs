//! What each page shows, from the request's parameters and the rows the store
//! handed over: the query-string rules, and not-found answers for unknown ids.
use crate::booking::AppError;
use crate::catalog::{
    booking_has_id, first_match, get_booking, get_hotel, get_room, hotel_amenity, hotel_has_id,
    list_hotels, list_rooms_by_hotel, room_in_hotel, room_row_has_id, search_criteria, search_rooms,
};
use crate::models::{Booking, Hotel, Room, RoomWithHotel};
use crate::templates::{
    BookingTemplate, HomeTemplate, HotelDetailTemplate, RoomDetailTemplate, SearchTemplate,
};
use crate::text::{i64_text_value, parse_i64};
use vstd::prelude::*;
use vstd::string::StringExecFns;

verus! {

/// The query string of the hotel list.
#[derive(Clone, Debug)]
pub struct HomeQuery {
    pub has_pool: Option<String>,
}

/// The query string of the room search.
#[derive(Clone, Debug)]
pub struct SearchQuery {
    pub city: Option<String>,
    pub guests: Option<String>,
    pub has_pool: Option<String>,
}

pub open spec fn is_yes(s: Seq<char>) -> bool {
    s == "1"@ || s == "true"@ || s == "yes"@
}

pub open spec fn is_no(s: Seq<char>) -> bool {
    s == "0"@ || s == "false"@ || s == "no"@
}

/// The amenity filter of the hotel list: yes, no, or none for any other
/// value or none given.
pub open spec fn home_pool_choice(s: Option<Seq<char>>) -> Option<bool> {
    match s {
        Some(t) => if is_yes(t) {
            Some(true)
        } else if is_no(t) {
            Some(false)
        } else {
            None
        },
        None => None,
    }
}

/// The amenity filter of the search: only a yes filters.
pub open spec fn search_pool_choice(s: Option<Seq<char>>) -> Option<bool> {
    match s {
        Some(t) => if is_yes(t) {
            Some(true)
        } else {
            None
        },
        None => None,
    }
}

pub open spec fn opt_view(s: Option<String>) -> Option<Seq<char>> {
    match s {
        Some(t) => Some(t@),
        None => None,
    }
}

/// The guest criterion of the search: the number written, if it is one.
pub open spec fn search_guests(s: Option<Seq<char>>) -> Option<i64> {
    match s {
        Some(t) => i64_text_value(t),
        None => None,
    }
}

/// Whether two texts are equal.
pub fn same_text(a: &str, b: &str) -> (r: bool)
    ensures
        r == (a@ == b@),
{
    let n: usize = a.unicode_len();
    if n != b.unicode_len() {
        return false;
    }
    let mut i: usize = 0;
    while i < n
        invariant
            n == a@.len(),
            n == b@.len(),
            i <= n,
            forall|j: int| 0 <= j < i ==> a@[j] == b@[j],
        decreases n - i,
    {
        if a.get_char(i) != b.get_char(i) {
            return false;
        }
        i = i + 1;
    }
    proof {
        assert(a@ =~= b@);
    }
    true
}

fn yes_word(s: &str) -> (r: bool)
    ensures
        r == is_yes(s@),
{
    same_text(s, "1") || same_text(s, "true") || same_text(s, "yes")
}

fn no_word(s: &str) -> (r: bool)
    ensures
        r == is_no(s@),
{
    same_text(s, "0") || same_text(s, "false") || same_text(s, "no")
}

/// Reads the amenity filter of the hotel list.
pub fn parse_home_pool(s: &Option<String>) -> (r: Option<bool>)
    ensures
        r == home_pool_choice(opt_view(*s)),
{
    match s {
        Some(t) => if yes_word(t.as_str()) {
            Some(true)
        } else if no_word(t.as_str()) {
            Some(false)
        } else {
            None
        },
        None => None,
    }
}

/// Reads the amenity filter of the search.
pub fn parse_search_pool(s: &Option<String>) -> (r: Option<bool>)
    ensures
        r == search_pool_choice(opt_view(*s)),
{
    match s {
        Some(t) => if yes_word(t.as_str()) {
            Some(true)
        } else {
            None
        },
        None => None,
    }
}

/// The hotel list: the hotels that pass the amenity filter of the query, and
/// which filter is active.
pub fn home(hotels: &Vec<Hotel>, q: &HomeQuery) -> (r: HomeTemplate)
    ensures
        r.hotels@ == hotels@.filter(hotel_amenity(home_pool_choice(opt_view(q.has_pool)))),
        r.filter_all == (home_pool_choice(opt_view(q.has_pool)) is None),
        r.filter_with_pool == (home_pool_choice(opt_view(q.has_pool)) == Some(true)),
        r.filter_no_pool == (home_pool_choice(opt_view(q.has_pool)) == Some(false)),
{
    let has_pool = parse_home_pool(&q.has_pool);
    let listed = list_hotels(hotels, has_pool);
    HomeTemplate {
        hotels: listed,
        filter_all: has_pool.is_none(),
        filter_with_pool: has_pool == Some(true),
        filter_no_pool: has_pool == Some(false),
    }
}

/// The page of hotel `id`: the hotel and its rooms, or not found.
pub fn hotel_detail(hotels: &Vec<Hotel>, rooms: &Vec<Room>, id: i64) -> (r: Result<
    HotelDetailTemplate,
    AppError,
>)
    ensures
        match first_match(hotels@, hotel_has_id(id)) {
            None => r == Err::<HotelDetailTemplate, AppError>(AppError::NotFound),
            Some(h) => r matches Ok(t) && t.hotel == h && t.rooms@ == rooms@.filter(
                room_in_hotel(id),
            ),
        },
{
    let hotel = match get_hotel(hotels, id) {
        Some(h) => h,
        None => return Err(AppError::NotFound),
    };
    let listed = list_rooms_by_hotel(rooms, id);
    Ok(HotelDetailTemplate { hotel, rooms: listed })
}

fn copy_or_empty(s: &Option<String>) -> (r: String)
    ensures
        r@ == match *s {
            Some(t) => t@,
            None => Seq::<char>::empty(),
        },
{
    match s {
        Some(t) => t.clone(),
        None => String::new(),
    }
}

/// The search page: the joined rows that pass the query's criteria, and the
/// criteria as typed. A guest count that is no number is no criterion.
pub fn search(rows: &Vec<RoomWithHotel>, q: &SearchQuery) -> (r: SearchTemplate)
    ensures
        r.rooms@ == rows@.filter(
            search_criteria(
                opt_view(q.city),
                search_guests(opt_view(q.guests)),
                search_pool_choice(opt_view(q.has_pool)),
            ),
        ),
        r.city@ == (match q.city {
            Some(t) => t@,
            None => Seq::<char>::empty(),
        }),
        r.guests@ == (match q.guests {
            Some(t) => t@,
            None => Seq::<char>::empty(),
        }),
        r.has_pool == (opt_view(q.has_pool) == Some("1"@)),
{
    let guests: Option<i64> = match &q.guests {
        Some(t) => parse_i64(t.as_str()),
        None => None,
    };
    let has_pool = parse_search_pool(&q.has_pool);
    let city: Option<&str> = match &q.city {
        Some(t) => Some(t.as_str()),
        None => None,
    };
    let found = search_rooms(rows, city, guests, has_pool);
    let pool_flag: bool = match &q.has_pool {
        Some(t) => same_text(t.as_str(), "1"),
        None => false,
    };
    SearchTemplate {
        rooms: found,
        city: copy_or_empty(&q.city),
        guests: copy_or_empty(&q.guests),
        has_pool: pool_flag,
    }
}

/// The page of room `id` with its hotel, or not found.
pub fn room_detail(rows: &Vec<RoomWithHotel>, id: i64) -> (r: Result<RoomDetailTemplate, AppError>)
    ensures
        match first_match(rows@, room_row_has_id(id)) {
            None => r == Err::<RoomDetailTemplate, AppError>(AppError::NotFound),
            Some(x) => r == Ok::<RoomDetailTemplate, AppError>(RoomDetailTemplate { room: x }),
        },
{
    match get_room(rows, id) {
        Some(room) => Ok(RoomDetailTemplate { room }),
        None => Err(AppError::NotFound),
    }
}

/// The confirmation page of booking `id`, with its room: not found where
/// either is missing.
pub fn booking_confirmation(bookings: &Vec<Booking>, rows: &Vec<RoomWithHotel>, id: i64) -> (r:
    Result<BookingTemplate, AppError>)
    ensures
        match first_match(bookings@, booking_has_id(id)) {
            None => r == Err::<BookingTemplate, AppError>(AppError::NotFound),
            Some(b) => match first_match(rows@, room_row_has_id(b.room_id)) {
                None => r == Err::<BookingTemplate, AppError>(AppError::NotFound),
                Some(x) => r == Ok::<BookingTemplate, AppError>(
                    BookingTemplate { booking: b, room: x },
                ),
            },
        },
{
    let booking = match get_booking(bookings, id) {
        Some(b) => b,
        None => return Err(AppError::NotFound),
    };
    let room = match get_room(rows, booking.room_id) {
        Some(x) => x,
        None => return Err(AppError::NotFound),
    };
    Ok(BookingTemplate { booking, room })
}

} // verus!
