//! Properties that relate the library's operations to one another.
use crate::booking::{booking_of, NewBooking};
use crate::catalog::{
    booking_has_id, first_match, hotel_amenity, hotel_has_id,
    lemma_filter_all, lemma_first_match_none, room_row_has_id, search_criteria,
};
use crate::models::{Booking, BookingForm, Hotel, Room, RoomWithHotel};
use crate::seed::is_init_plan;
use crate::text::{ascii_folded, eq_ignoring_ascii_case};
use vstd::prelude::*;

verus! {

/// The unfiltered hotel list holds every hotel, and the list filtered on a
/// pool flag is exactly the part of the unfiltered list with that flag, in
/// the same order.
pub proof fn lemma_amenity_filter_is_subset(hotels: Seq<Hotel>, flag: bool)
    ensures
        hotels.filter(hotel_amenity(None)) == hotels,
        hotels.filter(hotel_amenity(Some(flag))) == hotels.filter(hotel_amenity(None)).filter(
            hotel_amenity(Some(flag)),
        ),
{
    lemma_filter_all(hotels, hotel_amenity(None));
}

/// Two city criteria that differ only in the case of ASCII letters select the
/// same rooms, whatever the other criteria.
pub proof fn lemma_city_search_ignores_case(
    rows: Seq<RoomWithHotel>,
    city_a: Seq<char>,
    city_b: Seq<char>,
    guests: Option<i64>,
    has_pool: Option<bool>,
)
    requires
        eq_ignoring_ascii_case(city_a, city_b),
    ensures
        rows.filter(search_criteria(Some(city_a), guests, has_pool)) == rows.filter(
            search_criteria(Some(city_b), guests, has_pool),
        ),
{
    assert(ascii_folded(city_a).len() == city_a.len());
    assert(ascii_folded(city_b).len() == city_b.len());
    assert(search_criteria(Some(city_a), guests, has_pool) =~= search_criteria(
        Some(city_b),
        guests,
        has_pool,
    ));
}

/// Every room that a search with a guest criterion returns sleeps at least
/// that many guests.
pub proof fn lemma_search_respects_capacity(
    rows: Seq<RoomWithHotel>,
    city: Option<Seq<char>>,
    guests: i64,
    has_pool: Option<bool>,
)
    ensures
        forall|i: int|
            0 <= i < rows.filter(search_criteria(city, Some(guests), has_pool)).len()
                ==> #[trigger] rows.filter(search_criteria(city, Some(guests), has_pool))[i].max_guests
                >= guests,
{
    let f = search_criteria(city, Some(guests), has_pool);
    assert forall|i: int| 0 <= i < rows.filter(f).len() implies #[trigger] rows.filter(
        f,
    )[i].max_guests >= guests by {
        rows.lemma_filter_pred(f, i);
    }
}

/// A stored booking row holds what the booking request computed.
pub open spec fn stores(b: Booking, nb: NewBooking) -> bool {
    &&& b.room_id == nb.room_id
    &&& b.guest_name@ == nb.guest_name@
    &&& b.guest_email@ == nb.guest_email@
    &&& b.check_in == nb.check_in
    &&& b.check_out == nb.check_out
    &&& b.guests == nb.guests
    &&& b.total_cents == nb.total_cents
}

/// A booking made from a form and stored under a fresh id is found again by
/// that id, with the room, dates, party size and total that booking computed.
pub proof fn lemma_booking_round_trip(
    table: Seq<Booking>,
    room_id: i64,
    form: BookingForm,
    room: Option<RoomWithHotel>,
    stored: Booking,
)
    requires
        booking_of(room_id, form, room) is Ok,
        stores(stored, booking_of(room_id, form, room)->Ok_0),
        forall|i: int| 0 <= i < table.len() ==> (#[trigger] table[i]).id != stored.id,
    ensures
        first_match(table.push(stored), booking_has_id(stored.id)) == Some(stored),
        stored.room_id == room_id,
        stored.total_cents == booking_of(room_id, form, room)->Ok_0.total_cents,
{
    let s = table.push(stored);
    assert forall|i: int| 0 <= i < table.len() implies !(booking_has_id(stored.id))(
        #[trigger] s[i],
    ) by {
        assert(s[i] == table[i]);
    }
    lemma_first_match_after_misses(s, booking_has_id(stored.id), table.len() as int);
}

proof fn lemma_first_match_after_misses<A>(s: Seq<A>, f: spec_fn(A) -> bool, k: int)
    requires
        0 <= k < s.len(),
        forall|i: int| 0 <= i < k ==> !f(#[trigger] s[i]),
        f(s[k]),
    ensures
        first_match(s, f) == Some(s[k]),
    decreases k,
{
    if k > 0 {
        assert forall|i: int| 0 <= i < k - 1 implies !f(#[trigger] s.drop_first()[i]) by {
            assert(s.drop_first()[i] == s[i + 1]);
        }
        lemma_first_match_after_misses(s.drop_first(), f, k - 1);
    }
}

/// Looking up an id that no hotel, room or booking carries finds nothing, so
/// the pages of such ids answer not found.
pub proof fn lemma_unknown_id_finds_nothing(
    hotels: Seq<Hotel>,
    rooms: Seq<RoomWithHotel>,
    bookings: Seq<Booking>,
    id: i64,
)
    requires
        forall|i: int| 0 <= i < hotels.len() ==> (#[trigger] hotels[i]).id != id,
        forall|i: int| 0 <= i < rooms.len() ==> (#[trigger] rooms[i]).id != id,
        forall|i: int| 0 <= i < bookings.len() ==> (#[trigger] bookings[i]).id != id,
    ensures
        first_match(hotels, hotel_has_id(id)) is None,
        first_match(rooms, room_row_has_id(id)) is None,
        first_match(bookings, booking_has_id(id)) is None,
{
    lemma_first_match_none(hotels, hotel_has_id(id));
    lemma_first_match_none(rooms, room_row_has_id(id));
    lemma_first_match_none(bookings, booking_has_id(id));
}

/// Initialising a store twice writes the seed rows at most once: the second
/// initialisation, on the hotels the first one left, writes nothing.
pub proof fn lemma_seeding_idempotent(
    table: Seq<Hotel>,
    first_hotels: Seq<Hotel>,
    first_rooms: Seq<Room>,
    second_hotels: Seq<Hotel>,
    second_rooms: Seq<Room>,
)
    requires
        is_init_plan(table.len() as int, first_hotels, first_rooms),
        is_init_plan((table + first_hotels).len() as int, second_hotels, second_rooms),
    ensures
        (table + first_hotels) + second_hotels == table + first_hotels,
        second_rooms.len() == 0,
{
    assert((table + first_hotels).len() > 0);
    assert((table + first_hotels) + second_hotels =~= table + first_hotels);
}

} // verus!
