//! The stored records: hotels, rooms, bookings, and the room joined with its
//! hotel that pages show.
use crate::date::{Date, Timestamp};
use crate::text::{money_display, money_text, stars, stars_text};
use vstd::prelude::*;

verus! {

/// A hotel. `has_pool` is the amenity that listings and searches filter on.
#[derive(Clone, Debug)]
pub struct Hotel {
    pub id: i64,
    pub name: String,
    pub description: String,
    pub address: String,
    pub city: String,
    pub country: String,
    pub star_rating: i64,
    pub has_pool: bool,
    pub image_url: Option<String>,
}

/// A room of a hotel, priced per night in minor currency units.
#[derive(Clone, Debug)]
pub struct Room {
    pub id: i64,
    pub hotel_id: i64,
    pub name: String,
    pub description: String,
    pub room_type: String,
    pub price_per_night_cents: i64,
    pub max_guests: i64,
    pub image_url: Option<String>,
}

/// A room together with the hotel attributes that pages and searches need.
#[derive(Clone, Debug)]
pub struct RoomWithHotel {
    pub id: i64,
    pub hotel_id: i64,
    pub name: String,
    pub description: String,
    pub room_type: String,
    pub price_per_night_cents: i64,
    pub max_guests: i64,
    pub image_url: Option<String>,
    pub hotel_name: String,
    pub hotel_city: String,
    pub hotel_has_pool: bool,
}

/// A stored booking. `total_cents` is the price of the whole stay when it
/// was booked.
#[derive(Clone, Debug)]
pub struct Booking {
    pub id: i64,
    pub room_id: i64,
    pub guest_name: String,
    pub guest_email: String,
    pub check_in: Date,
    pub check_out: Date,
    pub guests: i64,
    pub total_cents: i64,
    pub created_at: Timestamp,
}

/// The fields of a booking request as the guest typed them.
#[derive(Clone, Debug)]
pub struct BookingForm {
    pub guest_name: String,
    pub guest_email: String,
    pub check_in: String,
    pub check_out: String,
    pub guests: String,
}

pub fn copy_text(s: &Option<String>) -> (r: Option<String>)
    ensures
        r == *s,
{
    match s {
        Some(t) => Some(t.clone()),
        None => None,
    }
}

impl Hotel {
    /// A field-by-field copy.
    pub fn duplicate(&self) -> (r: Hotel)
        ensures
            r == *self,
    {
        Hotel {
            id: self.id,
            name: self.name.clone(),
            description: self.description.clone(),
            address: self.address.clone(),
            city: self.city.clone(),
            country: self.country.clone(),
            star_rating: self.star_rating,
            has_pool: self.has_pool,
            image_url: copy_text(&self.image_url),
        }
    }

    /// The star rating as that many star signs.
    pub fn stars_display(&self) -> (r: String)
        requires
            self.star_rating >= 0,
        ensures
            r@ == stars_text(self.star_rating as nat),
    {
        stars(self.star_rating)
    }
}

impl Room {
    pub fn duplicate(&self) -> (r: Room)
        ensures
            r == *self,
    {
        Room {
            id: self.id,
            hotel_id: self.hotel_id,
            name: self.name.clone(),
            description: self.description.clone(),
            room_type: self.room_type.clone(),
            price_per_night_cents: self.price_per_night_cents,
            max_guests: self.max_guests,
            image_url: copy_text(&self.image_url),
        }
    }

    /// The nightly price as money, `$299.00` for 29900.
    pub fn price_display(&self) -> (r: String)
        requires
            self.price_per_night_cents >= 0,
        ensures
            r@ == money_text(self.price_per_night_cents as nat),
    {
        money_display(self.price_per_night_cents)
    }
}

/// A room joined with its hotel.
pub open spec fn joined(room: Room, hotel: Hotel) -> RoomWithHotel {
    RoomWithHotel {
        id: room.id,
        hotel_id: room.hotel_id,
        name: room.name,
        description: room.description,
        room_type: room.room_type,
        price_per_night_cents: room.price_per_night_cents,
        max_guests: room.max_guests,
        image_url: room.image_url,
        hotel_name: hotel.name,
        hotel_city: hotel.city,
        hotel_has_pool: hotel.has_pool,
    }
}

impl RoomWithHotel {
    /// `room` with the attributes of `hotel`.
    pub fn from_parts(room: &Room, hotel: &Hotel) -> (r: RoomWithHotel)
        ensures
            r == joined(*room, *hotel),
    {
        RoomWithHotel {
            id: room.id,
            hotel_id: room.hotel_id,
            name: room.name.clone(),
            description: room.description.clone(),
            room_type: room.room_type.clone(),
            price_per_night_cents: room.price_per_night_cents,
            max_guests: room.max_guests,
            image_url: copy_text(&room.image_url),
            hotel_name: hotel.name.clone(),
            hotel_city: hotel.city.clone(),
            hotel_has_pool: hotel.has_pool,
        }
    }

    pub fn duplicate(&self) -> (r: RoomWithHotel)
        ensures
            r == *self,
    {
        RoomWithHotel {
            id: self.id,
            hotel_id: self.hotel_id,
            name: self.name.clone(),
            description: self.description.clone(),
            room_type: self.room_type.clone(),
            price_per_night_cents: self.price_per_night_cents,
            max_guests: self.max_guests,
            image_url: copy_text(&self.image_url),
            hotel_name: self.hotel_name.clone(),
            hotel_city: self.hotel_city.clone(),
            hotel_has_pool: self.hotel_has_pool,
        }
    }

    /// The nightly price as money, `$299.00` for 29900.
    pub fn price_display(&self) -> (r: String)
        requires
            self.price_per_night_cents >= 0,
        ensures
            r@ == money_text(self.price_per_night_cents as nat),
    {
        money_display(self.price_per_night_cents)
    }
}

impl Booking {
    pub fn duplicate(&self) -> (r: Booking)
        ensures
            r == *self,
    {
        Booking {
            id: self.id,
            room_id: self.room_id,
            guest_name: self.guest_name.clone(),
            guest_email: self.guest_email.clone(),
            check_in: self.check_in,
            check_out: self.check_out,
            guests: self.guests,
            total_cents: self.total_cents,
            created_at: self.created_at,
        }
    }

    /// The total price as money, `$897.00` for 89700.
    pub fn total_display(&self) -> (r: String)
        requires
            self.total_cents >= 0,
        ensures
            r@ == money_text(self.total_cents as nat),
    {
        money_display(self.total_cents)
    }
}

} // verus!
