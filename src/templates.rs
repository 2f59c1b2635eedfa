//! The view models that the pages are rendered from.
use crate::models::{Booking, Hotel, Room, RoomWithHotel};
use vstd::prelude::*;

verus! {

/// The hotel list, with which amenity filter is active.
pub struct HomeTemplate {
    pub hotels: Vec<Hotel>,
    pub filter_all: bool,
    pub filter_with_pool: bool,
    pub filter_no_pool: bool,
}

/// One hotel and its rooms.
pub struct HotelDetailTemplate {
    pub hotel: Hotel,
    pub rooms: Vec<Room>,
}

/// Search results, with the criteria as the visitor typed them.
pub struct SearchTemplate {
    pub rooms: Vec<RoomWithHotel>,
    pub city: String,
    pub guests: String,
    pub has_pool: bool,
}

/// One room with its hotel.
pub struct RoomDetailTemplate {
    pub room: RoomWithHotel,
}

/// A stored booking with the room it is for.
pub struct BookingTemplate {
    pub booking: Booking,
    pub room: RoomWithHotel,
}

} // verus!
