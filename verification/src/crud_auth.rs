//! Property accounts and log-in: what the account handlers compute around
//! their database queries.

use vstd::prelude::*;
use vstd::utf8::{encode_utf8, is_ascii_chars, is_ascii_chars_encode_utf8};
use crate::helpers::{argon2_encoded, argon2_verify_encoded, argon2_verify_result,
    is_salted_hash_of, salt_password, PasswordTooLong};
use crate::ids::{push_uuid, uuid_text};
use crate::text::{push_str_chars, string_of};

verus! {

/// A property (a restaurant) as stored.
#[derive(Debug, PartialEq, Eq)]
pub struct Property {
    pub property_id: u128,
    pub property_name: String,
    pub property_password: String,
    pub property_email: String,
    pub property_phone: String,
}

/// A user account of a property as stored; its password is held as an
/// encoded argon2 hash.
#[derive(Debug, PartialEq, Eq)]
pub struct PropertyUsers {
    pub user_id: i32,
    pub user_name: String,
    pub user_password: String,
    pub user_role: i32,
    pub property_id: u128,
}

/// A property to be created.
#[derive(Debug, PartialEq, Eq)]
pub struct NewProperty {
    pub property_id: u128,
    pub property_name: String,
    pub property_password: String,
    pub property_email: String,
    pub property_phone: String,
}

/// A user account of a property to be created.
#[derive(Debug, PartialEq, Eq)]
pub struct NewPropertyUser {
    pub user_name: String,
    pub user_password: String,
    pub user_role: i32,
    pub property_id: u128,
}

/// A log-in request: the property, the user name and the password typed.
#[derive(Debug, PartialEq, Eq)]
pub struct LogIn {
    pub pid: u128,
    pub user_name: String,
    pub user_password: String,
}

/// A moment, in seconds and nanoseconds since the Unix epoch.
#[derive(Debug, Clone, Copy, PartialEq, Eq, Structural)]
pub struct Timestamp {
    pub secs: i64,
    pub nanos: u32,
}

/// The claims of the token issued at log-in.
#[derive(Debug, PartialEq, Eq)]
pub struct Claims {
    pub iss: String,
    pub sub: String,
    pub aud: String,
    pub exp: Option<String>,
    pub iat: Timestamp,
    pub jti: i32,
}

/// What a successful log-in grants: the claims to sign, and where the user is
/// sent next.
#[derive(Debug, PartialEq, Eq)]
pub struct LogInGrant {
    pub claims: Claims,
    pub redirect: String,
}

/// Why a log-in is refused.
#[derive(Debug, Clone, Copy, PartialEq, Eq, Structural)]
pub enum LogInError {
    /// The stored password is no encoded argon2 hash.
    MalformedHash,
    /// The password typed is not the user's.
    WrongPassword,
}

/// The issuer named in every token.
pub const ISSUER: &'static str = "Server";

/// The start of the address a user is sent to after logging in; the
/// property's id follows.
pub const RESERVATIONS_URL_PREFIX: &'static str = "http://127.0.0.1:3000/reservations/";

/// The name of the administrator account made with every property.
pub const ADMIN_USER_NAME: &'static str = "PropertyAdmin";

/// The password of the administrator account made with every property.
pub const ADMIN_PASSWORD: &'static str = "Change_password_asap";

/// The outcome of a log-in of `user` of `property` with the password typed in
/// `payload`, at moment `now`, given argon2's answer `verified` for the
/// stored hash and that password.
pub open spec fn log_in_outcome(
    property: Property,
    user: PropertyUsers,
    now: Timestamp,
    verified: Option<bool>,
    grant: Result<LogInGrant, LogInError>,
) -> bool {
    match verified {
        None => grant == Err::<LogInGrant, LogInError>(LogInError::MalformedHash),
        Some(false) => grant == Err::<LogInGrant, LogInError>(LogInError::WrongPassword),
        Some(true) => match grant {
            Ok(g) => {
                &&& g.claims.iss@ == ISSUER@
                &&& g.claims.sub@ == property.property_name@
                &&& g.claims.aud@ == user.user_name@
                &&& g.claims.exp is None
                &&& g.claims.iat == now
                &&& g.claims.jti == 1
                &&& g.redirect@ == RESERVATIONS_URL_PREFIX@ + uuid_text(property.property_id)
            },
            Err(_) => false,
        },
    }
}

/// Logs `user` of `property` in with the password of `payload` at moment
/// `now`: the password is checked against the stored argon2 hash, and on a
/// match the token claims and the address of the property's reservations are
/// given. A user whose stored hash was made from the same password is let in;
/// a stored password that is no encoded hash (no `$` in it) is refused.
pub fn log_in(property: &Property, user: &PropertyUsers, payload: &LogIn, now: Timestamp) -> (res: Result<LogInGrant, LogInError>)
    ensures
        log_in_outcome(*property, *user, now, argon2_verify_result(user.user_password@, encode_utf8(payload.user_password@)), res),
        res matches Ok(g) ==> g.claims.aud@ == user.user_name@ && g.claims.sub@ == property.property_name@,
        is_salted_hash_of(user.user_password@, payload.user_password@) && encode_utf8(payload.user_password@).len() <= 0xFFFF_FFFF ==> res is Ok,
        !user.user_password@.contains('$') ==> res == Err::<LogInGrant, LogInError>(LogInError::MalformedHash),
{
    proof {
        if is_salted_hash_of(user.user_password@, payload.user_password@) {
            let salt = choose|salt: Seq<u8>| salt.len() == crate::helpers::SALT_LEN
                && user.user_password@ == argon2_encoded(encode_utf8(payload.user_password@), salt);
            assert(salt.len() == 8);
        }
    }
    let verified = argon2_verify_encoded(user.user_password.as_str(), payload.user_password.as_str().as_bytes());
    match verified {
        None => Err(LogInError::MalformedHash),
        Some(false) => Err(LogInError::WrongPassword),
        Some(true) => {
            let mut nonce: i32 = 0;
            nonce += 1;
            let claims = Claims {
                iss: String::from_str(ISSUER),
                sub: property.property_name.clone(),
                aud: user.user_name.clone(),
                exp: None,
                iat: now,
                jti: nonce,
            };
            let mut out: Vec<char> = Vec::new();
            push_str_chars(&mut out, RESERVATIONS_URL_PREFIX);
            push_uuid(&mut out, property.property_id);
            Ok(LogInGrant { claims, redirect: string_of(out.as_slice()) })
        },
    }
}

/// A log-in is granted exactly when argon2 accepts the typed password
/// against the stored hash, and the token it grants names the server as its
/// issuer, the property as its subject and the user who logged in as its
/// audience, issued at the moment of the log-in and with no expiry; the user
/// is sent to the property's reservations. A refusal says why: a stored
/// password argon2 cannot read, or a password that does not match.
pub proof fn lemma_log_in_grants_the_user(
    property: Property,
    user: PropertyUsers,
    now: Timestamp,
    verified: Option<bool>,
    res: Result<LogInGrant, LogInError>,
)
    requires
        log_in_outcome(property, user, now, verified, res),
    ensures
        res is Ok <==> verified == Some(true),
        verified is None ==> res == Err::<LogInGrant, LogInError>(LogInError::MalformedHash),
        verified == Some(false) ==> res == Err::<LogInGrant, LogInError>(LogInError::WrongPassword),
        res matches Ok(g) ==> {
            &&& g.claims.aud@ == user.user_name@
            &&& g.claims.sub@ == property.property_name@
            &&& g.claims.iss@ == "Server"@
            &&& g.claims.iat == now
            &&& g.claims.exp is None
            &&& g.redirect@ == "http://127.0.0.1:3000/reservations/"@ + uuid_text(property.property_id)
        },
{
}

/// The password of the administrator account is plain ASCII, 20 bytes in
/// UTF-8: short enough to be hashed.
proof fn lemma_admin_password_fits()
    ensures
        encode_utf8(ADMIN_PASSWORD@).len() == 20,
{
    reveal_strlit("Change_password_asap");
    let s = ADMIN_PASSWORD@;
    assert(s =~= seq!['C', 'h', 'a', 'n', 'g', 'e', '_', 'p', 'a', 's', 's', 'w', 'o', 'r', 'd', '_', 'a', 's', 'a', 'p']);
    assert(is_ascii_chars(s));
    is_ascii_chars_encode_utf8(s);
}

/// The administrator account made with a property is let in with its default
/// password: its stored hash is a salted hash of that password, which is short
/// enough to be hashed, and that is what `log_in` asks to let a user in.
pub proof fn lemma_admin_account_logs_in(u: NewPropertyUser, property_id: u128, role: i32)
    requires
        is_admin_account(u, property_id, role),
    ensures
        is_salted_hash_of(u.user_password@, ADMIN_PASSWORD@),
        encode_utf8(ADMIN_PASSWORD@).len() <= 0xFFFF_FFFF,
{
    lemma_admin_password_fits();
}

/// The administrator account made with a new property: fixed name, the
/// default password salted, the given role.
pub open spec fn is_admin_account(u: NewPropertyUser, property_id: u128, role: i32) -> bool {
    &&& u.user_name@ == ADMIN_USER_NAME@
    &&& is_salted_hash_of(u.user_password@, ADMIN_PASSWORD@)
    &&& u.user_role == role
    &&& u.property_id == property_id
}

/// Prepares the creation of a property: the property with its password
/// salted, and its administrator account with the role `admin_role`, whose
/// default password is salted the same way.
pub fn create_property(payload: NewProperty, admin_role: i32) -> (res: Result<(NewProperty, NewPropertyUser), PasswordTooLong>)
    ensures
        match res {
            Ok((p, u)) => {
                &&& p.property_id == payload.property_id
                &&& p.property_name@ == payload.property_name@
                &&& is_salted_hash_of(p.property_password@, payload.property_password@)
                &&& p.property_email@ == payload.property_email@
                &&& p.property_phone@ == payload.property_phone@
                &&& is_admin_account(u, payload.property_id, admin_role)
            },
            Err(_) => encode_utf8(payload.property_password@).len() > 0xFFFF_FFFF,
        },
{
    let salted = salt_password(payload.property_password.as_str())?;
    proof {
        lemma_admin_password_fits();
    }
    let admin = NewPropertyUser {
        user_name: String::from_str(ADMIN_USER_NAME),
        user_password: salt_password(ADMIN_PASSWORD).unwrap(),
        user_role: admin_role,
        property_id: payload.property_id,
    };
    let property = NewProperty {
        property_id: payload.property_id,
        property_name: payload.property_name,
        property_password: salted,
        property_email: payload.property_email,
        property_phone: payload.property_phone,
    };
    Ok((property, admin))
}

/// Prepares the creation of a user account: the account with its password
/// salted.
pub fn create_property_user(payload: NewPropertyUser) -> (res: Result<NewPropertyUser, PasswordTooLong>)
    ensures
        match res {
            Ok(u) => {
                &&& u.user_name@ == payload.user_name@
                &&& is_salted_hash_of(u.user_password@, payload.user_password@)
                &&& u.user_role == payload.user_role
                &&& u.property_id == payload.property_id
            },
            Err(_) => encode_utf8(payload.user_password@).len() > 0xFFFF_FFFF,
        },
{
    let salted = salt_password(payload.user_password.as_str())?;
    Ok(NewPropertyUser {
        user_name: payload.user_name,
        user_password: salted,
        user_role: payload.user_role,
        property_id: payload.property_id,
    })
}

} // verus!
