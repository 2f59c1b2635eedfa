//! The reference data that a store starts with: three hotels and eight rooms,
//! written only into a store that holds no hotel yet.
use crate::models::{Hotel, Room};
use vstd::prelude::*;
use vstd::string::StringExecFns;

verus! {

pub open spec fn is_hotel_row(
    h: Hotel,
    id: i64,
    name: &str,
    description: &str,
    address: &str,
    city: &str,
    country: &str,
    star_rating: i64,
    has_pool: bool,
) -> bool {
    &&& h.id == id
    &&& h.name@ == name@
    &&& h.description@ == description@
    &&& h.address@ == address@
    &&& h.city@ == city@
    &&& h.country@ == country@
    &&& h.star_rating == star_rating
    &&& h.has_pool == has_pool
    &&& h.image_url is None
}

pub open spec fn is_room_row(
    r: Room,
    id: i64,
    hotel_id: i64,
    name: &str,
    description: &str,
    room_type: &str,
    price_per_night_cents: i64,
    max_guests: i64,
) -> bool {
    &&& r.id == id
    &&& r.hotel_id == hotel_id
    &&& r.name@ == name@
    &&& r.description@ == description@
    &&& r.room_type@ == room_type@
    &&& r.price_per_night_cents == price_per_night_cents
    &&& r.max_guests == max_guests
    &&& r.image_url is None
}

/// The seed hotels, ids 1 to 3.
pub open spec fn is_seed_hotels(s: Seq<Hotel>) -> bool {
    &&& s.len() == 3
    &&& is_hotel_row(
        s[0],
        1,
        "Grand Plaza Hotel",
        "Luxury downtown hotel with stunning city views and rooftop pool.",
        "100 Main Street",
        "New York",
        "USA",
        5,
        true,
    )
    &&& is_hotel_row(
        s[1],
        2,
        "Seaside Resort",
        "Beachfront resort with private beach, spa and pool.",
        "50 Ocean Drive",
        "Miami",
        "USA",
        5,
        true,
    )
    &&& is_hotel_row(
        s[2],
        3,
        "Mountain Lodge",
        "Cozy lodge in the mountains. Perfect for skiing.",
        "200 Pine Road",
        "Aspen",
        "USA",
        4,
        false,
    )
}

/// The seed rooms, ids 1 to 8, of the seed hotels.
pub open spec fn is_seed_rooms(s: Seq<Room>) -> bool {
    &&& s.len() == 8
    &&& is_room_row(
        s[0],
        1,
        1,
        "Deluxe King",
        "Spacious room with king bed and city view.",
        "deluxe",
        29900,
        2,
    )
    &&& is_room_row(
        s[1],
        2,
        1,
        "Executive Suite",
        "Luxury suite with living area and skyline view.",
        "suite",
        49900,
        4,
    )
    &&& is_room_row(
        s[2],
        3,
        1,
        "Standard Double",
        "Comfortable double room with all amenities.",
        "standard",
        18900,
        2,
    )
    &&& is_room_row(
        s[3],
        4,
        2,
        "Ocean View Room",
        "Wake up to the sound of the waves.",
        "deluxe",
        34900,
        2,
    )
    &&& is_room_row(
        s[4],
        5,
        2,
        "Beach Bungalow",
        "Private bungalow steps from the beach.",
        "bungalow",
        59900,
        4,
    )
    &&& is_room_row(
        s[5],
        6,
        2,
        "Garden Room",
        "Quiet room with garden view.",
        "standard",
        22900,
        2,
    )
    &&& is_room_row(
        s[6],
        7,
        3,
        "Mountain View",
        "Room with panoramic mountain views.",
        "deluxe",
        27900,
        2,
    )
    &&& is_room_row(
        s[7],
        8,
        3,
        "Family Suite",
        "Two bedrooms, ideal for families.",
        "suite",
        42900,
        6,
    )
}

/// What initialising a store that holds `hotel_count` hotels writes: the
/// seed rows into an empty store, nothing otherwise.
pub open spec fn is_init_plan(hotel_count: int, hotels: Seq<Hotel>, rooms: Seq<Room>) -> bool {
    if hotel_count == 0 {
        is_seed_hotels(hotels) && is_seed_rooms(rooms)
    } else {
        hotels.len() == 0 && rooms.len() == 0
    }
}

fn hotel_row(
    id: i64,
    name: &str,
    description: &str,
    address: &str,
    city: &str,
    country: &str,
    star_rating: i64,
    has_pool: bool,
) -> (h: Hotel)
    ensures
        is_hotel_row(h, id, name, description, address, city, country, star_rating, has_pool),
{
    Hotel {
        id,
        name: String::from_str(name),
        description: String::from_str(description),
        address: String::from_str(address),
        city: String::from_str(city),
        country: String::from_str(country),
        star_rating,
        has_pool,
        image_url: None,
    }
}

fn room_row(
    id: i64,
    hotel_id: i64,
    name: &str,
    description: &str,
    room_type: &str,
    price_per_night_cents: i64,
    max_guests: i64,
) -> (r: Room)
    ensures
        is_room_row(r, id, hotel_id, name, description, room_type, price_per_night_cents, max_guests),
{
    Room {
        id,
        hotel_id,
        name: String::from_str(name),
        description: String::from_str(description),
        room_type: String::from_str(room_type),
        price_per_night_cents,
        max_guests,
        image_url: None,
    }
}

/// The seed hotels.
pub fn seed_hotels() -> (r: Vec<Hotel>)
    ensures
        is_seed_hotels(r@),
{
    let mut r: Vec<Hotel> = Vec::new();
    r.push(
        hotel_row(
            1,
            "Grand Plaza Hotel",
            "Luxury downtown hotel with stunning city views and rooftop pool.",
            "100 Main Street",
            "New York",
            "USA",
            5,
            true,
        ),
    );
    r.push(
        hotel_row(
            2,
            "Seaside Resort",
            "Beachfront resort with private beach, spa and pool.",
            "50 Ocean Drive",
            "Miami",
            "USA",
            5,
            true,
        ),
    );
    r.push(
        hotel_row(
            3,
            "Mountain Lodge",
            "Cozy lodge in the mountains. Perfect for skiing.",
            "200 Pine Road",
            "Aspen",
            "USA",
            4,
            false,
        ),
    );
    r
}

/// The seed rooms.
pub fn seed_rooms() -> (r: Vec<Room>)
    ensures
        is_seed_rooms(r@),
{
    let mut r: Vec<Room> = Vec::new();
    r.push(
        room_row(
            1,
            1,
            "Deluxe King",
            "Spacious room with king bed and city view.",
            "deluxe",
            29900,
            2,
        ),
    );
    r.push(
        room_row(
            2,
            1,
            "Executive Suite",
            "Luxury suite with living area and skyline view.",
            "suite",
            49900,
            4,
        ),
    );
    r.push(
        room_row(
            3,
            1,
            "Standard Double",
            "Comfortable double room with all amenities.",
            "standard",
            18900,
            2,
        ),
    );
    r.push(
        room_row(4, 2, "Ocean View Room", "Wake up to the sound of the waves.", "deluxe", 34900, 2),
    );
    r.push(
        room_row(
            5,
            2,
            "Beach Bungalow",
            "Private bungalow steps from the beach.",
            "bungalow",
            59900,
            4,
        ),
    );
    r.push(room_row(6, 2, "Garden Room", "Quiet room with garden view.", "standard", 22900, 2));
    r.push(
        room_row(7, 3, "Mountain View", "Room with panoramic mountain views.", "deluxe", 27900, 2),
    );
    r.push(
        room_row(8, 3, "Family Suite", "Two bedrooms, ideal for families.", "suite", 42900, 6),
    );
    r
}

/// The rows that initialising a store holding `hotel_count` hotels writes:
/// the seed hotels and rooms where the store has no hotel, none otherwise.
pub fn seed_data(hotel_count: i64) -> (r: (Vec<Hotel>, Vec<Room>))
    ensures
        is_init_plan(hotel_count as int, r.0@, r.1@),
{
    if hotel_count == 0 {
        (seed_hotels(), seed_rooms())
    } else {
        (Vec::new(), Vec::new())
    }
}

} // verus!
