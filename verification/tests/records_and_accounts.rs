use diesel_demo::calendar::{ClockTime, Date};
use diesel_demo::crud::{check_resv_with_id, read_resv_with_id};
use diesel_demo::crud_auth::{
    create_property, create_property_user, log_in, LogIn, LogInError, NewProperty, NewPropertyUser, Property,
    PropertyUsers, Timestamp,
};
use diesel_demo::helpers::{salt_password, salt_password_with};
use diesel_demo::models::{JsonValue, PaymentMode, Reservation, ReservationId, UnrecognizedVariant};

const PID: &str = "8ba0a933-6f7a-46d4-8378-a9ac2c457670";

fn pid() -> u128 {
    uuid::Uuid::parse_str(PID).unwrap().as_u128()
}

#[test]
fn payment_mode_codes_round_trip() {
    for mode in [PaymentMode::NotPaid, PaymentMode::Cash, PaymentMode::Card, PaymentMode::Gpay] {
        assert_eq!(PaymentMode::from_sql(mode.to_sql()), Ok(mode));
    }
    assert_eq!(PaymentMode::Card.to_sql(), 2);
    assert_eq!(PaymentMode::NotPaid.to_sql(), 0);
}

#[test]
fn payment_mode_codes_are_exactly_zero_to_three() {
    assert_eq!(PaymentMode::from_sql(3), Ok(PaymentMode::Gpay));
    assert_eq!(PaymentMode::from_sql(4), Err(UnrecognizedVariant { code: 4 }));
    assert_eq!(PaymentMode::from_sql(-1), Err(UnrecognizedVariant { code: -1 }));
    assert_eq!(UnrecognizedVariant { code: 9 }.message(), "Unrecognized variant 9");
}

fn sample_reservation() -> Reservation {
    Reservation {
        id: ReservationId::Serial(17),
        name: String::from("Jason"),
        contact: String::from("+91123456789"),
        seating: String::from("MainT7"),
        specific_seating_requested: true,
        advance: false,
        advance_method: JsonValue::String(String::from("Card")),
        advance_amount: Some(5000),
        confirmed: false,
        reservation_date: Date::from_ymd_opt(2024, 5, 25).unwrap(),
        reservation_time: ClockTime::from_hms(14, 0, 0).unwrap(),
    }
}

const SAMPLE_TEXT: &str =
    "(17, Jason, +91123456789, MainT7, true,false, Some(5000), String(\"Card\"), false, 2024-05-25, 14:00:00.0 )";

#[test]
fn reservation_text() {
    assert_eq!(sample_reservation().fmt(), SAMPLE_TEXT);
    let mut r = sample_reservation();
    r.advance_amount = None;
    r.advance_method = JsonValue::Null;
    assert_eq!(
        r.fmt(),
        "(17, Jason, +91123456789, MainT7, true,false, None, Null, false, 2024-05-25, 14:00:00.0 )"
    );
    assert_eq!(r.fmt_with_advance_method_text("X"), "(17, Jason, +91123456789, MainT7, true,false, None, X, false, 2024-05-25, 14:00:00.0 )");
}

fn json_of(v: serde_json::Value) -> JsonValue {
    match v {
        serde_json::Value::Null => JsonValue::Null,
        serde_json::Value::Bool(b) => JsonValue::Bool(b),
        serde_json::Value::Number(n) => JsonValue::Number(n.to_string()),
        serde_json::Value::String(s) => JsonValue::String(s),
        serde_json::Value::Array(items) => JsonValue::Array(items.into_iter().map(json_of).collect()),
        serde_json::Value::Object(map) => JsonValue::Object(map.into_iter().map(|(k, v)| (k, json_of(v))).collect()),
    }
}

#[test]
fn the_advance_method_is_shown_as_serde_json_shows_it() {
    let text = r#"{"mode_of_payment": "Card", "payment_transaction_id": "tx \"1\"\n", "payment_receiver": null,
        "payment_received_date": [2024, 5, 14.5, -3], "paid": true, "empty": [], "none": {}}"#;
    let value: serde_json::Value = serde_json::from_str(text).unwrap();
    let expected = format!("{:?}", value);
    let mut r = sample_reservation();
    r.advance_method = json_of(value);
    assert_eq!(
        r.fmt(),
        format!("(17, Jason, +91123456789, MainT7, true,false, Some(5000), {}, false, 2024-05-25, 14:00:00.0 )", expected)
    );
    assert!(expected.starts_with("Object {\"empty\": Array [], \"mode_of_payment\": String(\"Card\")"));
    r.advance_method = JsonValue::Array(vec![JsonValue::Bool(false), JsonValue::Number(String::from("7"))]);
    assert!(r.fmt().contains(", Array [Bool(false), Number(7)], "));
}

#[test]
fn reservations_under_a_uuid() {
    let mut r = sample_reservation();
    r.id = ReservationId::Uuid(pid());
    assert!(r.fmt().starts_with("(8ba0a933-6f7a-46d4-8378-a9ac2c457670, Jason, "));
}

#[test]
fn lookup_by_id_pages() {
    assert_eq!(check_resv_with_id(&vec![sample_reservation()], 1), SAMPLE_TEXT);
    assert_eq!(check_resv_with_id(&vec![], 7), "Couldn't find reservation with the provided id: 7");
    assert_eq!(
        check_resv_with_id(&vec![sample_reservation(), sample_reservation()], -3),
        "Couldn't find reservation with the provided id: -3"
    );
    assert_eq!(read_resv_with_id(&vec![sample_reservation()], pid()), SAMPLE_TEXT);
    assert_eq!(
        read_resv_with_id(&vec![], pid()),
        format!("Couldn't find reservation with the provided id: {:?}", uuid::Uuid::parse_str(PID).unwrap())
    );
}

#[test]
fn salting_uses_argon2_with_the_given_salt() {
    let salt = *b"somesalt";
    let ours = salt_password_with("password", &salt).unwrap();
    let theirs = argon2::hash_encoded(b"password", &salt, &argon2::Config::default()).unwrap();
    assert_eq!(ours, theirs);
    assert_ne!(ours, "password");
}

#[test]
fn salted_passwords_verify() {
    let h = salt_password("Eva").unwrap();
    assert!(h.starts_with("$argon2id$"));
    assert!(argon2::verify_encoded(&h, b"Eva").unwrap());
    assert!(!argon2::verify_encoded(&h, b"eva").unwrap());
}

fn property() -> Property {
    Property {
        property_id: pid(),
        property_name: String::from("Limboo"),
        property_password: String::from("x"),
        property_email: String::from("a@b.c"),
        property_phone: String::from("123"),
    }
}

fn user(password: String) -> PropertyUsers {
    PropertyUsers {
        user_id: 1,
        user_name: String::from("PropertyAdmin"),
        user_password: password,
        user_role: 1,
        property_id: pid(),
    }
}

fn attempt(password: &str) -> LogIn {
    LogIn { pid: pid(), user_name: String::from("PropertyAdmin"), user_password: String::from(password) }
}

#[test]
fn a_salted_password_logs_in() {
    let now = Timestamp { secs: 1_700_000_000, nanos: 5 };
    let stored = salt_password("Change_password_asap").unwrap();
    let grant = log_in(&property(), &user(stored), &attempt("Change_password_asap"), now).unwrap();
    assert_eq!(grant.claims.iss, "Server");
    assert_eq!(grant.claims.sub, "Limboo");
    assert_eq!(grant.claims.aud, "PropertyAdmin");
    assert_eq!(grant.claims.exp, None);
    assert_eq!(grant.claims.iat, now);
    assert_eq!(grant.claims.jti, 1);
    assert_eq!(grant.redirect, format!("http://127.0.0.1:3000/reservations/{}", PID));
}

#[test]
fn a_wrong_password_is_refused() {
    let now = Timestamp { secs: 0, nanos: 0 };
    let stored = salt_password("right").unwrap();
    assert_eq!(log_in(&property(), &user(stored), &attempt("wrong"), now), Err(LogInError::WrongPassword));
}

#[test]
fn the_administrator_made_with_a_property_logs_in() {
    let payload = NewProperty {
        property_id: pid(),
        property_name: String::from("Limboo"),
        property_password: String::from("secret"),
        property_email: String::from("a@b.c"),
        property_phone: String::from("123"),
    };
    let (p, admin) = create_property(payload, 4).unwrap();
    assert_eq!(admin.user_name, "PropertyAdmin");
    assert_ne!(admin.user_password, "Change_password_asap");
    assert!(argon2::verify_encoded(&admin.user_password, b"Change_password_asap").unwrap());
    assert_eq!(admin.user_role, 4);
    assert_eq!(admin.property_id, pid());
    assert!(argon2::verify_encoded(&p.property_password, b"secret").unwrap());
    assert_eq!(p.property_email, "a@b.c");
    let now = Timestamp { secs: 0, nanos: 0 };
    let grant = log_in(&property(), &user(admin.user_password), &attempt("Change_password_asap"), now).unwrap();
    assert_eq!(grant.claims.aud, "PropertyAdmin");
    assert_eq!(grant.redirect, format!("http://127.0.0.1:3000/reservations/{}", PID));
}

#[test]
fn a_password_stored_unhashed_is_refused_as_malformed() {
    let now = Timestamp { secs: 0, nanos: 0 };
    assert_eq!(
        log_in(&property(), &user(String::from("Change_password_asap")), &attempt("Change_password_asap"), now),
        Err(LogInError::MalformedHash)
    );
}

#[test]
fn a_new_user_gets_a_salted_password() {
    let u = create_property_user(NewPropertyUser {
        user_name: String::from("Nami"),
        user_password: String::from("tangerine"),
        user_role: 2,
        property_id: pid(),
    })
    .unwrap();
    assert_eq!(u.user_name, "Nami");
    assert_eq!(u.user_role, 2);
    assert!(argon2::verify_encoded(&u.user_password, b"tangerine").unwrap());
    let stored = PropertyUsers { user_id: 2, user_name: u.user_name, user_password: u.user_password, user_role: 2, property_id: pid() };
    let attempt = LogIn { pid: pid(), user_name: String::from("Nami"), user_password: String::from("tangerine") };
    assert!(log_in(&property(), &stored, &attempt, Timestamp { secs: 1, nanos: 0 }).is_ok());
}
