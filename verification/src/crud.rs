//! What the reservation handlers compute around their database queries: the
//! page shown for a reservation looked up by id.

use vstd::prelude::*;
use crate::ids::push_uuid;
use crate::ids::uuid_text;
use crate::models::{json_debug_text, reservation_text, Reservation};
use crate::text::{int_text, push_int, push_str_chars, string_of};

verus! {

/// The start of the page shown when no single reservation has the id asked for.
pub const NOT_FOUND_PREFIX: &'static str = "Couldn't find reservation with the provided id: ";

/// The page for a lookup by id: the reservation when exactly one was found,
/// otherwise a notice naming the id (shown by `id_text`).
pub open spec fn lookup_page(results: Seq<Reservation>, page: Seq<char>, id_text: Seq<char>) -> bool {
    if results.len() == 1 {
        page == reservation_text(results[0], json_debug_text(results[0].advance_method))
    } else {
        page == NOT_FOUND_PREFIX@ + id_text
    }
}

/// The page answering a lookup of the reservation with the numeric id
/// `resv_id`, given the reservations that the query returned.
pub fn check_resv_with_id(results: &Vec<Reservation>, resv_id: i32) -> (page: String)
    requires
        forall|i: int| 0 <= i < results@.len() ==> (#[trigger] results@[i]).wf(),
    ensures
        lookup_page(results@, page@, int_text(resv_id as int)),
{
    if results.len() == 1 {
        results[0].fmt()
    } else {
        let mut out: Vec<char> = Vec::new();
        push_str_chars(&mut out, NOT_FOUND_PREFIX);
        push_int(&mut out, resv_id as i64);
        string_of(out.as_slice())
    }
}

/// The page answering a lookup of the reservation with the UUID `resv_id`,
/// given the reservations that the query returned.
pub fn read_resv_with_id(results: &Vec<Reservation>, resv_id: u128) -> (page: String)
    requires
        forall|i: int| 0 <= i < results@.len() ==> (#[trigger] results@[i]).wf(),
    ensures
        lookup_page(results@, page@, uuid_text(resv_id)),
{
    if results.len() == 1 {
        results[0].fmt()
    } else {
        let mut out: Vec<char> = Vec::new();
        push_str_chars(&mut out, NOT_FOUND_PREFIX);
        push_uuid(&mut out, resv_id);
        string_of(out.as_slice())
    }
}

} // verus!
