//! The queries over the stored tables: the join of rooms with their hotels,
//! the amenity, city and capacity filters, and lookups by id. Each takes the
//! rows in the order the store hands them over and keeps that order.
use crate::models::{joined, Booking, Hotel, Room, RoomWithHotel};
use crate::text::{eq_ignore_ascii_case, eq_ignoring_ascii_case};
use vstd::prelude::*;

verus! {

/// The first element of `s` that `f` accepts.
pub open spec fn first_match<A>(s: Seq<A>, f: spec_fn(A) -> bool) -> Option<A>
    decreases s.len(),
{
    if s.len() == 0 {
        None
    } else if f(s[0]) {
        Some(s[0])
    } else {
        first_match(s.drop_first(), f)
    }
}

pub open spec fn hotel_has_id(id: i64) -> spec_fn(Hotel) -> bool {
    |h: Hotel| h.id == id
}

pub open spec fn room_row_has_id(id: i64) -> spec_fn(RoomWithHotel) -> bool {
    |r: RoomWithHotel| r.id == id
}

pub open spec fn booking_has_id(id: i64) -> spec_fn(Booking) -> bool {
    |b: Booking| b.id == id
}

pub open spec fn room_in_hotel(hotel_id: i64) -> spec_fn(Room) -> bool {
    |r: Room| r.hotel_id == hotel_id
}

/// A flag passes an optional amenity criterion when none is given or when it
/// equals the one given.
pub open spec fn amenity_matches(flag: bool, want: Option<bool>) -> bool {
    match want {
        Some(w) => flag == w,
        None => true,
    }
}

pub open spec fn hotel_amenity(want: Option<bool>) -> spec_fn(Hotel) -> bool {
    |h: Hotel| amenity_matches(h.has_pool, want)
}

/// The city criterion: none given, an empty one, or the hotel's city up to
/// the case of ASCII letters.
pub open spec fn city_matches(hotel_city: Seq<char>, want: Option<Seq<char>>) -> bool {
    match want {
        Some(c) => c.len() == 0 || eq_ignoring_ascii_case(hotel_city, c),
        None => true,
    }
}

/// The capacity criterion: the room sleeps at least the requested guests.
pub open spec fn capacity_matches(max_guests: i64, want: Option<i64>) -> bool {
    match want {
        Some(g) => g <= max_guests,
        None => true,
    }
}

pub open spec fn search_criteria(
    city: Option<Seq<char>>,
    guests: Option<i64>,
    has_pool: Option<bool>,
) -> spec_fn(RoomWithHotel) -> bool {
    |r: RoomWithHotel|
        city_matches(r.hotel_city@, city) && capacity_matches(r.max_guests, guests)
            && amenity_matches(r.hotel_has_pool, has_pool)
}

pub open spec fn text_view(s: Option<&str>) -> Option<Seq<char>> {
    match s {
        Some(t) => Some(t@),
        None => None,
    }
}

/// The inner join of rooms with hotels on the room's hotel id, in the order of
/// the rooms; a room whose hotel is missing is left out.
pub open spec fn joined_rows(rooms: Seq<Room>, hotels: Seq<Hotel>) -> Seq<RoomWithHotel>
    decreases rooms.len(),
{
    if rooms.len() == 0 {
        Seq::empty()
    } else {
        let head = joined_rows(rooms.drop_last(), hotels);
        match first_match(hotels, hotel_has_id(rooms.last().hotel_id)) {
            Some(h) => head.push(joined(rooms.last(), h)),
            None => head,
        }
    }
}

proof fn lemma_filter_prefix<A>(s: Seq<A>, f: spec_fn(A) -> bool, i: int)
    requires
        0 <= i < s.len(),
    ensures
        s.subrange(0, i + 1).filter(f) == (if f(s[i]) {
            s.subrange(0, i).filter(f).push(s[i])
        } else {
            s.subrange(0, i).filter(f)
        }),
{
    reveal(Seq::filter);
    assert(s.subrange(0, i + 1).drop_last() =~= s.subrange(0, i));
}

proof fn lemma_first_match_suffix<A>(s: Seq<A>, f: spec_fn(A) -> bool, i: int)
    requires
        0 <= i < s.len(),
        !f(s[i]),
    ensures
        first_match(s.subrange(i, s.len() as int), f) == first_match(
            s.subrange(i + 1, s.len() as int),
            f,
        ),
{
    assert(s.subrange(i, s.len() as int).drop_first() =~= s.subrange(i + 1, s.len() as int));
}

/// A filter that accepts everything keeps the sequence whole.
pub proof fn lemma_filter_all<A>(s: Seq<A>, f: spec_fn(A) -> bool)
    requires
        forall|x: A| #[trigger] f(x),
    ensures
        s.filter(f) == s,
    decreases s.len(),
{
    reveal(Seq::filter);
    if s.len() > 0 {
        lemma_filter_all(s.drop_last(), f);
        assert(s.drop_last().push(s.last()) =~= s);
    }
}

/// Where no element is accepted there is no first match.
pub proof fn lemma_first_match_none<A>(s: Seq<A>, f: spec_fn(A) -> bool)
    requires
        forall|i: int| 0 <= i < s.len() ==> !f(#[trigger] s[i]),
    ensures
        first_match(s, f) is None,
    decreases s.len(),
{
    if s.len() > 0 {
        assert forall|i: int| 0 <= i < s.drop_first().len() implies !f(
            #[trigger] s.drop_first()[i],
        ) by {
            assert(s.drop_first()[i] == s[i + 1]);
        }
        lemma_first_match_none(s.drop_first(), f);
    }
}

/// `s` in ascending order of `key`.
pub open spec fn sorted_by<A>(s: Seq<A>, key: spec_fn(A) -> int) -> bool {
    forall|i: int, j: int| #![trigger s[i], s[j]] 0 <= i < j < s.len() ==> key(s[i]) <= key(s[j])
}

pub open spec fn room_price() -> spec_fn(Room) -> int {
    |r: Room| r.price_per_night_cents as int
}

pub open spec fn room_row_price() -> spec_fn(RoomWithHotel) -> int {
    |r: RoomWithHotel| r.price_per_night_cents as int
}

proof fn lemma_filter_bounded<A>(s: Seq<A>, f: spec_fn(A) -> bool, key: spec_fn(A) -> int, b: int)
    requires
        forall|j: int| 0 <= j < s.len() ==> key(#[trigger] s[j]) <= b,
    ensures
        forall|i: int| 0 <= i < s.filter(f).len() ==> key(#[trigger] s.filter(f)[i]) <= b,
    decreases s.len(),
{
    reveal(Seq::filter);
    if s.len() > 0 {
        let dl = s.drop_last();
        assert forall|j: int| 0 <= j < dl.len() implies key(#[trigger] dl[j]) <= b by {
            assert(dl[j] == s[j]);
        }
        lemma_filter_bounded(dl, f, key, b);
        let out = s.filter(f);
        assert forall|i: int| 0 <= i < out.len() implies key(#[trigger] out[i]) <= b by {
            if i < dl.filter(f).len() {
                assert(out[i] == dl.filter(f)[i]);
            } else {
                assert(out[i] == s.last());
            }
        }
    }
}

/// Filtering keeps an ascending order.
pub proof fn lemma_filter_sorted<A>(s: Seq<A>, f: spec_fn(A) -> bool, key: spec_fn(A) -> int)
    requires
        sorted_by(s, key),
    ensures
        sorted_by(s.filter(f), key),
    decreases s.len(),
{
    reveal(Seq::filter);
    if s.len() > 0 {
        let dl = s.drop_last();
        assert(sorted_by(dl, key)) by {
            assert forall|i: int, j: int| 0 <= i < j < dl.len() implies key(dl[i]) <= key(
                dl[j],
            ) by {
                assert(dl[i] == s[i] && dl[j] == s[j]);
            }
        }
        lemma_filter_sorted(dl, f, key);
        assert forall|j: int| 0 <= j < dl.len() implies key(#[trigger] dl[j]) <= key(s.last()) by {
            assert(dl[j] == s[j]);
            assert(s.last() == s[s.len() - 1]);
        }
        lemma_filter_bounded(dl, f, key, key(s.last()));
        let sub = dl.filter(f);
        let out = s.filter(f);
        assert forall|i: int, j: int| 0 <= i < j < out.len() implies key(out[i]) <= key(
            out[j],
        ) by {
            if j < sub.len() {
                assert(out[i] == sub[i] && out[j] == sub[j]);
            } else {
                assert(out[i] == sub[i]);
                assert(key(sub[i]) <= key(s.last()));
            }
        }
    }
}

proof fn lemma_joined_bounded(rooms: Seq<Room>, hotels: Seq<Hotel>, b: int)
    requires
        forall|j: int| 0 <= j < rooms.len() ==> (#[trigger] rooms[j]).price_per_night_cents <= b,
    ensures
        forall|i: int|
            0 <= i < joined_rows(rooms, hotels).len() ==> (#[trigger] joined_rows(
                rooms,
                hotels,
            )[i]).price_per_night_cents <= b,
    decreases rooms.len(),
{
    if rooms.len() > 0 {
        let dl = rooms.drop_last();
        assert forall|j: int| 0 <= j < dl.len() implies (#[trigger] dl[j]).price_per_night_cents
            <= b by {
            assert(dl[j] == rooms[j]);
        }
        lemma_joined_bounded(dl, hotels, b);
    }
}

/// The join keeps the rooms' ascending price order.
pub proof fn lemma_joined_sorted(rooms: Seq<Room>, hotels: Seq<Hotel>)
    requires
        sorted_by(rooms, room_price()),
    ensures
        sorted_by(joined_rows(rooms, hotels), room_row_price()),
    decreases rooms.len(),
{
    if rooms.len() > 0 {
        let dl = rooms.drop_last();
        assert(sorted_by(dl, room_price())) by {
            assert forall|i: int, j: int| 0 <= i < j < dl.len() implies (room_price())(dl[i])
                <= (room_price())(dl[j]) by {
                assert(dl[i] == rooms[i] && dl[j] == rooms[j]);
            }
        }
        lemma_joined_sorted(dl, hotels);
        assert forall|j: int| 0 <= j < dl.len() implies (
        #[trigger] dl[j]).price_per_night_cents <= rooms.last().price_per_night_cents by {
            assert(dl[j] == rooms[j]);
            assert((room_price())(rooms[j]) <= (room_price())(rooms[rooms.len() - 1]));
        }
        lemma_joined_bounded(dl, hotels, rooms.last().price_per_night_cents as int);
        let sub = joined_rows(dl, hotels);
        let out = joined_rows(rooms, hotels);
        assert forall|i: int, j: int| 0 <= i < j < out.len() implies (room_row_price())(out[i])
            <= (room_row_price())(out[j]) by {
            if j < sub.len() {
                assert(out[i] == sub[i] && out[j] == sub[j]);
            } else {
                assert(out[i] == sub[i]);
                assert(sub[i].price_per_night_cents <= rooms.last().price_per_night_cents);
            }
        }
    }
}

/// Hotels whose pool flag passes `has_pool` (all where it is `None`).
pub fn list_hotels(hotels: &Vec<Hotel>, has_pool: Option<bool>) -> (r: Vec<Hotel>)
    ensures
        r@ == hotels@.filter(hotel_amenity(has_pool)),
{
    let mut r: Vec<Hotel> = Vec::new();
    let mut i: usize = 0;
    while i < hotels.len()
        invariant
            i <= hotels@.len(),
            r@ == hotels@.subrange(0, i as int).filter(hotel_amenity(has_pool)),
        decreases hotels.len() - i,
    {
        proof {
            lemma_filter_prefix(hotels@, hotel_amenity(has_pool), i as int);
        }
        let h = &hotels[i];
        let keep: bool = match has_pool {
            Some(w) => h.has_pool == w,
            None => true,
        };
        if keep {
            r.push(h.duplicate());
        }
        i = i + 1;
    }
    proof {
        assert(hotels@.subrange(0, hotels@.len() as int) =~= hotels@);
    }
    r
}

/// The hotel with id `id`: the first such row, if any.
pub fn get_hotel(hotels: &Vec<Hotel>, id: i64) -> (r: Option<Hotel>)
    ensures
        r == first_match(hotels@, hotel_has_id(id)),
{
    let mut i: usize = 0;
    proof {
        assert(hotels@.subrange(0, hotels@.len() as int) =~= hotels@);
    }
    while i < hotels.len()
        invariant
            i <= hotels@.len(),
            first_match(hotels@, hotel_has_id(id)) == first_match(
                hotels@.subrange(i as int, hotels@.len() as int),
                hotel_has_id(id),
            ),
        decreases hotels.len() - i,
    {
        if hotels[i].id == id {
            return Some(hotels[i].duplicate());
        }
        proof {
            lemma_first_match_suffix(hotels@, hotel_has_id(id), i as int);
        }
        i = i + 1;
    }
    None
}

/// The rooms of hotel `hotel_id`.
pub fn list_rooms_by_hotel(rooms: &Vec<Room>, hotel_id: i64) -> (r: Vec<Room>)
    ensures
        r@ == rooms@.filter(room_in_hotel(hotel_id)),
        sorted_by(rooms@, room_price()) ==> sorted_by(r@, room_price()),
{
    let mut r: Vec<Room> = Vec::new();
    let mut i: usize = 0;
    while i < rooms.len()
        invariant
            i <= rooms@.len(),
            r@ == rooms@.subrange(0, i as int).filter(room_in_hotel(hotel_id)),
        decreases rooms.len() - i,
    {
        proof {
            lemma_filter_prefix(rooms@, room_in_hotel(hotel_id), i as int);
        }
        if rooms[i].hotel_id == hotel_id {
            r.push(rooms[i].duplicate());
        }
        i = i + 1;
    }
    proof {
        assert(rooms@.subrange(0, rooms@.len() as int) =~= rooms@);
        if sorted_by(rooms@, room_price()) {
            lemma_filter_sorted(rooms@, room_in_hotel(hotel_id), room_price());
        }
    }
    r
}

/// Each room joined with its hotel, in the order of the rooms; rooms whose
/// hotel is missing are left out.
pub fn join_rooms(rooms: &Vec<Room>, hotels: &Vec<Hotel>) -> (r: Vec<RoomWithHotel>)
    ensures
        r@ == joined_rows(rooms@, hotels@),
        sorted_by(rooms@, room_price()) ==> sorted_by(r@, room_row_price()),
{
    let mut r: Vec<RoomWithHotel> = Vec::new();
    let mut i: usize = 0;
    while i < rooms.len()
        invariant
            i <= rooms@.len(),
            r@ == joined_rows(rooms@.subrange(0, i as int), hotels@),
        decreases rooms.len() - i,
    {
        proof {
            assert(rooms@.subrange(0, i + 1).drop_last() =~= rooms@.subrange(0, i as int));
        }
        match get_hotel(hotels, rooms[i].hotel_id) {
            Some(h) => {
                r.push(RoomWithHotel::from_parts(&rooms[i], &h));
            },
            None => {},
        }
        i = i + 1;
    }
    proof {
        assert(rooms@.subrange(0, rooms@.len() as int) =~= rooms@);
        if sorted_by(rooms@, room_price()) {
            lemma_joined_sorted(rooms@, hotels@);
        }
    }
    r
}

/// Whether a joined row passes the three optional search criteria.
pub fn matches_search(
    row: &RoomWithHotel,
    city: Option<&str>,
    guests: Option<i64>,
    has_pool: Option<bool>,
) -> (r: bool)
    ensures
        r == (search_criteria(text_view(city), guests, has_pool))(*row),
{
    let city_ok: bool = match city {
        Some(c) => c.unicode_len() == 0 || eq_ignore_ascii_case(row.hotel_city.as_str(), c),
        None => true,
    };
    let guests_ok: bool = match guests {
        Some(g) => g <= row.max_guests,
        None => true,
    };
    let pool_ok: bool = match has_pool {
        Some(p) => row.hotel_has_pool == p,
        None => true,
    };
    city_ok && guests_ok && pool_ok
}

/// The joined rows that pass every given criterion: city (case-insensitive,
/// an empty city passes all), minimum capacity, and pool flag.
pub fn search_rooms(
    rows: &Vec<RoomWithHotel>,
    city: Option<&str>,
    guests: Option<i64>,
    has_pool: Option<bool>,
) -> (r: Vec<RoomWithHotel>)
    ensures
        r@ == rows@.filter(search_criteria(text_view(city), guests, has_pool)),
        sorted_by(rows@, room_row_price()) ==> sorted_by(r@, room_row_price()),
{
    let ghost f = search_criteria(text_view(city), guests, has_pool);
    let mut r: Vec<RoomWithHotel> = Vec::new();
    let mut i: usize = 0;
    while i < rows.len()
        invariant
            i <= rows@.len(),
            f == search_criteria(text_view(city), guests, has_pool),
            r@ == rows@.subrange(0, i as int).filter(f),
        decreases rows.len() - i,
    {
        proof {
            lemma_filter_prefix(rows@, f, i as int);
        }
        if matches_search(&rows[i], city, guests, has_pool) {
            r.push(rows[i].duplicate());
        }
        i = i + 1;
    }
    proof {
        assert(rows@.subrange(0, rows@.len() as int) =~= rows@);
        if sorted_by(rows@, room_row_price()) {
            lemma_filter_sorted(rows@, f, room_row_price());
        }
    }
    r
}

/// The joined room with id `id`: the first such row, if any.
pub fn get_room(rows: &Vec<RoomWithHotel>, id: i64) -> (r: Option<RoomWithHotel>)
    ensures
        r == first_match(rows@, room_row_has_id(id)),
{
    let mut i: usize = 0;
    proof {
        assert(rows@.subrange(0, rows@.len() as int) =~= rows@);
    }
    while i < rows.len()
        invariant
            i <= rows@.len(),
            first_match(rows@, room_row_has_id(id)) == first_match(
                rows@.subrange(i as int, rows@.len() as int),
                room_row_has_id(id),
            ),
        decreases rows.len() - i,
    {
        if rows[i].id == id {
            return Some(rows[i].duplicate());
        }
        proof {
            lemma_first_match_suffix(rows@, room_row_has_id(id), i as int);
        }
        i = i + 1;
    }
    None
}

/// The booking with id `id`: the first such row, if any.
pub fn get_booking(bookings: &Vec<Booking>, id: i64) -> (r: Option<Booking>)
    ensures
        r == first_match(bookings@, booking_has_id(id)),
{
    let mut i: usize = 0;
    proof {
        assert(bookings@.subrange(0, bookings@.len() as int) =~= bookings@);
    }
    while i < bookings.len()
        invariant
            i <= bookings@.len(),
            first_match(bookings@, booking_has_id(id)) == first_match(
                bookings@.subrange(i as int, bookings@.len() as int),
                booking_has_id(id),
            ),
        decreases bookings.len() - i,
    {
        if bookings[i].id == id {
            return Some(bookings[i].duplicate());
        }
        proof {
            lemma_first_match_suffix(bookings@, booking_has_id(id), i as int);
        }
        i = i + 1;
    }
    None
}

} // verus!
