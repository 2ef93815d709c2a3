//! The requests that the terminal tools send, built from the lines typed in
//! answer to their questions.

use vstd::prelude::*;
use crate::calendar::{date_text, push_date, Date};
use crate::crud_auth::{LogIn, NewProperty, NewPropertyUser};
use crate::helpers::{date_answer_step, date_from_answers};
use crate::ids::{parse_uuid, uuid_parse_result};
use crate::models::Roles;
use crate::prompt::{str_eq, StepSpec};
use crate::text::{
    str_debug, str_debug_text,
    int_text, parse_i32, parse_i32_spec, push_int, push_str_chars, string_of, trim, trim_end,
    trim_end_spec, trim_spec,
};

verus! {

/// Sent to delete a reservation; its id follows.
pub const DELETE_URL_PREFIX: &'static str = "http://127.0.0.1:3000/delete_resv_with_id/";

/// Sent to change the date of a reservation; its id, `/` and the date follow.
pub const UPDATE_DATE_URL_PREFIX: &'static str = "http://127.0.0.1:3000/update_resv_date_with_id/";

/// Sent to change the name of a reservation; its id, `/` and the name follow.
pub const UPDATE_NAME_URL_PREFIX: &'static str = "http://127.0.0.1:3000/update_resv_name_with_id/";

pub const ROLE_PANIC: &'static str = "failed to parse user role";
pub const PROPERTY_ID_PANIC: &'static str = "failed to parse property id ";
pub const RESERVATION_ID_PANIC: &'static str = "Failed to parse reservation id.";
pub const ID_PANIC: &'static str = "failed to parse id to type i32";

/// The log-in request built from the typed property id, user name and
/// password: each trimmed, the id read as a UUID; `None` where it is none.
pub fn log_in(pid_line: &str, user_name_line: &str, user_password_line: &str) -> (res: Option<LogIn>)
    ensures
        match uuid_parse_result(trim_spec(pid_line@)) {
            None => res is None,
            Some(pid) => res matches Some(l) && l.pid == pid && l.user_name@ == trim_spec(user_name_line@)
                && l.user_password@ == trim_spec(user_password_line@),
        },
{
    let pid_text = trim(pid_line);
    match parse_uuid(pid_text.as_str()) {
        None => None,
        Some(pid) => Some(LogIn { pid, user_name: trim(user_name_line), user_password: trim(user_password_line) }),
    }
}

/// Which kind of account the account tool creates.
#[derive(Debug, Clone, Copy, PartialEq, Eq, Structural)]
pub enum AccountKind {
    Property,
    PropertyUser,
}

/// The kind of account chosen by the typed answer: `p` or `P` for a property,
/// `pu` or `Pu` for a property user, trimmed; `None` for anything else.
pub fn account_kind(line: &str) -> (res: Option<AccountKind>)
    ensures
        res == (if trim_spec(line@) == "p"@ || trim_spec(line@) == "P"@ {
            Some(AccountKind::Property)
        } else if trim_spec(line@) == "pu"@ || trim_spec(line@) == "Pu"@ {
            Some(AccountKind::PropertyUser)
        } else {
            None
        }),
{
    let t = trim(line);
    let s = t.as_str();
    if str_eq(s, "p") || str_eq(s, "P") {
        Some(AccountKind::Property)
    } else if str_eq(s, "pu") || str_eq(s, "Pu") {
        Some(AccountKind::PropertyUser)
    } else {
        None
    }
}

/// The user account request built from the typed name, password, role and
/// property id, each trimmed; the role read as an integer and the property id
/// as a UUID, with the message of the panic where either is none.
pub fn create_new_property_user(
    user_name_line: &str,
    user_password_line: &str,
    user_role_line: &str,
    property_line: &str,
) -> (res: Result<NewPropertyUser, &'static str>)
    ensures
        match parse_i32_spec(trim_spec(user_role_line@)) {
            None => res matches Err(m) && m@ == ROLE_PANIC@,
            Some(role) => match uuid_parse_result(trim_spec(property_line@)) {
                None => res matches Err(m) && m@ == PROPERTY_ID_PANIC@,
                Some(pid) => res matches Ok(u) && u.user_name@ == trim_spec(user_name_line@)
                    && u.user_password@ == trim_spec(user_password_line@) && u.user_role == role
                    && u.property_id == pid,
            },
        },
{
    let role_text = trim(user_role_line);
    let role = match parse_i32(role_text.as_str()) {
        Some(r) => r,
        None => return Err(ROLE_PANIC),
    };
    let property_text = trim(property_line);
    let pid = match parse_uuid(property_text.as_str()) {
        Some(p) => p,
        None => return Err(PROPERTY_ID_PANIC),
    };
    Ok(NewPropertyUser {
        user_name: trim(user_name_line),
        user_password: trim(user_password_line),
        user_role: role,
        property_id: pid,
    })
}

/// The property request built from the typed name, password, e-mail and
/// phone, each trimmed, for the new id `property_id`. The password sent is the
/// e-mail typed; the password typed is not sent.
pub fn create_new_property(
    property_name_line: &str,
    property_password_line: &str,
    property_email_line: &str,
    property_phone_line: &str,
    property_id: u128,
) -> (res: NewProperty)
    ensures
        res.property_id == property_id,
        res.property_name@ == trim_spec(property_name_line@),
        res.property_password@ == trim_spec(property_email_line@),
        res.property_email@ == trim_spec(property_email_line@),
        res.property_phone@ == trim_spec(property_phone_line@),
{
    NewProperty {
        property_id,
        property_name: trim(property_name_line),
        property_password: trim(property_email_line),
        property_email: trim(property_email_line),
        property_phone: trim(property_phone_line),
    }
}

/// The role request built from the typed id and name, trimmed, the id read
/// as an integer; `None` where it is none.
pub fn create_role(role_id_line: &str, role_name_line: &str) -> (res: Option<Roles>)
    ensures
        match parse_i32_spec(trim_spec(role_id_line@)) {
            None => res is None,
            Some(id) => res matches Some(r) && r.role_id == id && r.role_name@ == trim_spec(role_name_line@),
        },
{
    let id_text = trim(role_id_line);
    match parse_i32(id_text.as_str()) {
        None => None,
        Some(id) => Some(Roles { role_id: id, role_name: trim(role_name_line) }),
    }
}

/// The address that deletes the reservation whose id is typed (trimmed, read
/// as an integer), or the message of the panic where it is none.
pub fn delete_db_with_id(resv_id_line: &str) -> (res: Result<String, &'static str>)
    ensures
        match parse_i32_spec(trim_spec(resv_id_line@)) {
            None => res matches Err(m) && m@ == RESERVATION_ID_PANIC@,
            Some(id) => res matches Ok(url) && url@ == DELETE_URL_PREFIX@ + int_text(id as int),
        },
{
    let t = trim(resv_id_line);
    match parse_i32(t.as_str()) {
        None => Err(RESERVATION_ID_PANIC),
        Some(id) => {
            let mut out: Vec<char> = Vec::new();
            push_str_chars(&mut out, DELETE_URL_PREFIX);
            push_int(&mut out, id as i64);
            Ok(string_of(out.as_slice()))
        },
    }
}

/// The address that moves the reservation whose id is typed to the date
/// typed: the id read as an integer and year, month and day read into a
/// date, each trimmed; or the message of the panic where one of them is no integer or they
/// name no date.
pub fn update_resv_date_with_id(id_line: &str, year_line: &str, month_line: &str, day_line: &str) -> (res: Result<String, &'static str>)
    ensures
        match parse_i32_spec(trim_spec(id_line@)) {
            None => res matches Err(m) && m@ == ID_PANIC@,
            Some(id) => match date_answer_step(year_line@, month_line@, day_line@, |d: Date| d) {
                StepSpec::Done(d) => res matches Ok(url) && url@ == UPDATE_DATE_URL_PREFIX@ + int_text(id as int)
                    + seq!['/'] + date_text(d.year as int, d.month as nat, d.day as nat),
                StepSpec::Panic(m) => res matches Err(e) && e@ == m,
                _ => false,
            },
        },
{
    let t = trim(id_line);
    let id = match parse_i32(t.as_str()) {
        None => return Err(ID_PANIC),
        Some(id) => id,
    };
    let date = date_from_answers(year_line, month_line, day_line)?;
    let mut out: Vec<char> = Vec::new();
    push_str_chars(&mut out, UPDATE_DATE_URL_PREFIX);
    push_int(&mut out, id as i64);
    out.push('/');
    push_date(&mut out, &date);
    Ok(string_of(out.as_slice()))
}

/// The address that renames the reservation whose id is typed (trimmed, read
/// as an integer) to the name typed (trimmed, shown quoted), or the message of
/// the panic where the id is none.
pub fn update_resv_name_with_id(id_line: &str, name_line: &str) -> (res: Result<String, &'static str>)
    ensures
        match parse_i32_spec(trim_spec(id_line@)) {
            None => res matches Err(m) && m@ == ID_PANIC@,
            Some(id) => res matches Ok(url) && url@ == UPDATE_NAME_URL_PREFIX@ + int_text(id as int)
                + seq!['/'] + str_debug_text(trim_spec(name_line@)),
        },
{
    let t = trim(id_line);
    let id = match parse_i32(t.as_str()) {
        None => return Err(ID_PANIC),
        Some(id) => id,
    };
    let name = trim(name_line);
    let quoted = str_debug(name.as_str());
    let mut out: Vec<char> = Vec::new();
    push_str_chars(&mut out, UPDATE_NAME_URL_PREFIX);
    push_int(&mut out, id as i64);
    out.push('/');
    push_str_chars(&mut out, quoted.as_str());
    Ok(string_of(out.as_slice()))
}

/// A reservation as the first entry tool sends it.
#[derive(Debug, PartialEq, Eq)]
pub struct PostRequest {
    pub name: String,
    pub contact: String,
    pub seating: String,
    pub advance: bool,
    pub confirmed: bool,
}

/// The reservation built by the first entry tool from the typed name
/// (trailing whitespace dropped), contact and seating (as read), and the
/// answers whether an advance was received and whether it is confirmed (`Y` or
/// `y` for yes, anything else for no).
pub fn write_post(
    name_line: &str,
    contact: &str,
    seating: &str,
    advance_line: &str,
    confirmed_line: &str,
) -> (res: PostRequest)
    ensures
        res.name@ == trim_end_spec(name_line@),
        res.contact@ == contact@,
        res.seating@ == seating@,
        res.advance == crate::prompt::is_short_yes(advance_line@),
        res.confirmed == crate::prompt::is_short_yes(confirmed_line@),
{
    PostRequest {
        name: trim_end(name_line),
        contact: String::from_str(contact),
        seating: String::from_str(seating),
        advance: crate::prompt::short_yes(advance_line),
        confirmed: crate::prompt::short_yes(confirmed_line),
    }
}

} // verus!
