//! Turning a booking form into a priced booking: date validation, the stay
//! length in nights and the snapshot of the total price.
use crate::date::{days_between, parsed_ymd, Date};
use crate::models::{BookingForm, RoomWithHotel};
use crate::text::{i64_text_value, parse_i64};
use vstd::prelude::*;

verus! {

/// What a request can fail with, by its kind.
#[derive(Clone, Copy, Debug, PartialEq, Eq)]
pub enum AppError {
    /// The request's own input is malformed or inconsistent.
    ClientInput,
    /// The requested hotel, room or booking does not exist.
    NotFound,
    /// The store failed.
    Storage,
}

impl AppError {
    /// The HTTP status that answers the error.
    pub fn status_code(&self) -> (r: u16)
        ensures
            r == match *self {
                AppError::ClientInput => 400u16,
                AppError::NotFound => 404u16,
                AppError::Storage => 500u16,
            },
    {
        match self {
            AppError::ClientInput => 400,
            AppError::NotFound => 404,
            AppError::Storage => 500,
        }
    }
}

/// A validated stay: check-out strictly after check-in.
#[derive(Clone, Copy, Debug, PartialEq, Eq)]
pub struct Stay {
    pub check_in: Date,
    pub check_out: Date,
    pub nights: i64,
    pub guests: i64,
}

/// A booking ready to be stored; the store adds its id and creation time.
#[derive(Clone, Debug)]
pub struct NewBooking {
    pub room_id: i64,
    pub guest_name: String,
    pub guest_email: String,
    pub check_in: Date,
    pub check_out: Date,
    pub guests: i64,
    pub total_cents: i64,
}

/// The date that a text writes as `YYYY-MM-DD`, if any.
pub open spec fn date_of(s: Seq<char>) -> Option<Date> {
    match parsed_ymd(s) {
        Some(t) => Some(Date { year: t.0, month: t.1, day: t.2 }),
        None => None,
    }
}

/// The party size of a booking form: the written number, at least 1; 1
/// where the text is no number.
pub open spec fn guests_of(s: Seq<char>) -> i64 {
    match i64_text_value(s) {
        Some(g) => if g >= 1 {
            g
        } else {
            1
        },
        None => 1,
    }
}

/// The stay from `check_in` to `check_out` for the party that `guests`
/// writes: refused unless check-out comes strictly after check-in.
pub open spec fn stay_from(check_in: Date, check_out: Date, guests: Seq<char>) -> Result<
    Stay,
    AppError,
> {
    if check_out.spec_day_number() > check_in.spec_day_number() {
        Ok(
            Stay {
                check_in,
                check_out,
                nights: (check_out.spec_day_number() - check_in.spec_day_number()) as i64,
                guests: guests_of(guests),
            },
        )
    } else {
        Err(AppError::ClientInput)
    }
}

/// The stay that a form asks for, or why it is refused.
pub open spec fn stay_of(form: BookingForm) -> Result<Stay, AppError> {
    match (date_of(form.check_in@), date_of(form.check_out@)) {
        (Some(ci), Some(co)) => stay_from(ci, co, form.guests@),
        _ => Err(AppError::ClientInput),
    }
}

/// The price of a stay of `nights` nights at `price` per night, where it fits
/// in an `i64`.
pub open spec fn stay_total(price: i64, nights: i64) -> Option<i64> {
    if i64::MIN <= price * nights <= i64::MAX {
        Some((price * nights) as i64)
    } else {
        None
    }
}

/// The booking of `stay` in room `room_id` by the guest of `form`, given
/// what the store holds for that room.
pub open spec fn booking_for(
    room_id: i64,
    form: BookingForm,
    stay: Stay,
    room: Option<RoomWithHotel>,
) -> Result<NewBooking, AppError> {
    match room {
        None => Err(AppError::NotFound),
        Some(rm) => match stay_total(rm.price_per_night_cents, stay.nights) {
            None => Err(AppError::ClientInput),
            Some(total) => Ok(
                NewBooking {
                    room_id,
                    guest_name: form.guest_name,
                    guest_email: form.guest_email,
                    check_in: stay.check_in,
                    check_out: stay.check_out,
                    guests: stay.guests,
                    total_cents: total,
                },
            ),
        },
    }
}

/// The booking that a form for room `room_id` makes, given what the store
/// holds for that room.
pub open spec fn booking_of(room_id: i64, form: BookingForm, room: Option<RoomWithHotel>) -> Result<
    NewBooking,
    AppError,
> {
    match stay_of(form) {
        Err(e) => Err(e),
        Ok(stay) => booking_for(room_id, form, stay, room),
    }
}

pub open spec fn room_view(room: Option<&RoomWithHotel>) -> Option<RoomWithHotel> {
    match room {
        Some(rm) => Some(*rm),
        None => None,
    }
}

/// Reads the party size of a booking form: the number written, raised to 1,
/// and 1 where the text is no number.
pub fn parse_guests(s: &str) -> (r: i64)
    ensures
        r == guests_of(s@),
        r >= 1,
{
    match parse_i64(s) {
        Some(g) => if g >= 1 {
            g
        } else {
            1
        },
        None => 1,
    }
}

/// Checks the dates of a booking form and reads its party size. Both dates
/// must be valid `YYYY-MM-DD` dates with check-out strictly after check-in;
/// anything else is a client input error.
pub fn validate_stay(form: &BookingForm) -> (r: Result<Stay, AppError>)
    ensures
        r == stay_of(*form),
        r matches Ok(stay) ==> stay.nights >= 1 && stay.check_in.wf() && stay.check_out.wf(),
{
    let check_in = match Date::parse(form.check_in.as_str()) {
        Some(d) => d,
        None => return Err(AppError::ClientInput),
    };
    let check_out = match Date::parse(form.check_out.as_str()) {
        Some(d) => d,
        None => return Err(AppError::ClientInput),
    };
    stay_between(check_in, check_out, form.guests.as_str())
}

/// The stay from `check_in` to `check_out` for the party that `guests`
/// writes; check-out must come strictly after check-in.
pub fn stay_between(check_in: Date, check_out: Date, guests: &str) -> (r: Result<Stay, AppError>)
    requires
        check_in.wf(),
        check_out.wf(),
    ensures
        r == stay_from(check_in, check_out, guests@),
        r matches Ok(stay) ==> stay.nights >= 1,
{
    let nights: i64 = days_between(&check_in, &check_out);
    if nights <= 0 {
        return Err(AppError::ClientInput);
    }
    let guests: i64 = parse_guests(guests);
    Ok(Stay { check_in, check_out, nights, guests })
}

/// The booking of `stay` in room `room_id` by the guest of `form`, where
/// `room` is what the store holds under that id: not found without a room,
/// and a client input error where the total overflows.
pub fn booking_for_stay(
    room_id: i64,
    form: &BookingForm,
    stay: &Stay,
    room: Option<&RoomWithHotel>,
) -> (r: Result<NewBooking, AppError>)
    ensures
        r == booking_for(room_id, *form, *stay, room_view(room)),
{
    let rm = match room {
        Some(rm) => rm,
        None => return Err(AppError::NotFound),
    };
    let total = match rm.price_per_night_cents.checked_mul(stay.nights) {
        Some(t) => t,
        None => return Err(AppError::ClientInput),
    };
    Ok(
        NewBooking {
            room_id,
            guest_name: form.guest_name.clone(),
            guest_email: form.guest_email.clone(),
            check_in: stay.check_in,
            check_out: stay.check_out,
            guests: stay.guests,
            total_cents: total,
        },
    )
}

/// The booking that a form for room `room_id` makes, where `room` is what the
/// store holds under that id. Dates are checked first (client input error),
/// then the room must exist (not found); the total is the nightly price times
/// the nights, a client input error where it overflows.
pub fn book_room(room_id: i64, form: &BookingForm, room: Option<&RoomWithHotel>) -> (r: Result<
    NewBooking,
    AppError,
>)
    ensures
        r == booking_of(room_id, *form, room_view(room)),
{
    let stay = match validate_stay(form) {
        Ok(s) => s,
        Err(e) => return Err(e),
    };
    booking_for_stay(room_id, form, &stay, room)
}

} // verus!
