use diesel_demo::calendar::{ClockTime, Date};
use diesel_demo::entry::{ReservationEntry, ReservationRequest};
use diesel_demo::helpers::{payment_mode_handler, PaymentReceipt};
use diesel_demo::models::{PaymentMethod, PaymentMode, Roles};
use diesel_demo::prompt::{Failure, IntErrorKind, Question, ReadMode, Step};
use diesel_demo::requests::{
    account_kind, create_new_property, create_new_property_user, create_role, delete_db_with_id, log_in,
    update_resv_date_with_id, update_resv_name_with_id, write_post, AccountKind,
};

fn today() -> Date {
    Date::from_ymd_opt(2024, 5, 14).unwrap()
}

fn prompt_of<T>(step: &Step<T>) -> &str {
    match step {
        Step::Ask(Question { prompt, .. }) => prompt.as_str(),
        _ => panic!("no question asked"),
    }
}

#[test]
fn cash_received_today() {
    let (mut p, first) = payment_mode_handler(1);
    assert_eq!(prompt_of(&first), "\nEnter name of the payment receiver.\n");
    let s = p.answer(String::from("Limboo\n"), today());
    assert_eq!(prompt_of(&s), "\nAdvance received_today? Enter Y or N\n");
    let s = p.answer(String::from("yes\n"), today());
    assert_eq!(
        s,
        Step::Done(PaymentReceipt { transaction_id: None, receiver: String::from("Limboo\n"), received_date: today() })
    );
}

#[test]
fn card_received_another_day() {
    let (mut p, first) = payment_mode_handler(2);
    assert_eq!(prompt_of(&first), "\nEnter tx_id of payment receipt.\n");
    p.answer(String::from("0x1dac45\n"), today());
    p.answer(String::from("Limboo\n"), today());
    assert_eq!(prompt_of(&p.answer(String::from("N\n"), today())), "\nEnter payment received year\n");
    assert_eq!(prompt_of(&p.answer(String::from("2024"), today())), "\nEnter payment received month\n");
    assert_eq!(prompt_of(&p.answer(String::from("5"), today())), "\nEnter payment received date\n");
    let s = p.answer(String::from("14"), today());
    assert_eq!(
        s,
        Step::Done(PaymentReceipt {
            transaction_id: Some(String::from("0x1dac45\n")),
            receiver: String::from("Limboo\n"),
            received_date: today(),
        })
    );
}

#[test]
fn date_answers_typed_with_their_newlines_are_read() {
    let (mut p, _) = payment_mode_handler(2);
    p.answer(String::from("tx1\n"), today());
    p.answer(String::from("Ann\n"), today());
    p.answer(String::from("N\n"), today());
    p.answer(String::from("2024\n"), today());
    p.answer(String::from("5\n"), today());
    assert_eq!(
        p.answer(String::from("14\n"), today()),
        Step::Done(PaymentReceipt {
            transaction_id: Some(String::from("tx1\n")),
            receiver: String::from("Ann\n"),
            received_date: today(),
        })
    );
}

#[test]
fn a_year_that_is_no_number_panics() {
    let (mut p, _) = payment_mode_handler(3);
    p.answer(String::from("tx\n"), today());
    p.answer(String::from("r\n"), today());
    p.answer(String::from("no\n"), today());
    p.answer(String::from("twenty\n"), today());
    p.answer(String::from("5\n"), today());
    assert_eq!(p.answer(String::from("14\n"), today()), Step::Fail(Failure::Panic(String::from("Failed to parse year."))));
}

#[test]
fn an_unclear_received_today_answer_panics() {
    let (mut p, _) = payment_mode_handler(1);
    p.answer(String::from("r\n"), today());
    assert_eq!(
        p.answer(String::from("maybe\n"), today()),
        Step::Fail(Failure::Panic(String::from("Payment received today should be answered with Y or N")))
    );
}

fn run(answers: &[&str]) -> (Vec<String>, Step<ReservationRequest>) {
    let (mut entry, mut step) = ReservationEntry::create_new_reservation();
    let mut prompts = Vec::new();
    for a in answers {
        match &step {
            Step::Ask(q) => prompts.push(q.prompt.clone()),
            _ => panic!("session ended early"),
        }
        step = entry.answer(String::from(*a), today());
    }
    (prompts, step)
}

#[test]
fn a_reservation_paid_by_card_for_another_day() {
    let (prompts, step) = run(&[
        "Boa Hancock\n", "+91123456789\n", "y\n", " MainT7 \n", "Y\n", "2\n", "0x1dac45\n", "Limboo\n", "y\n",
        "5000\n", "y\n", "n\n", "25", "y\n", "n\n", "2025", "14\n", "30\n", PID_LINE,
    ]);
    assert_eq!(prompts[0], "\nEnter reservation name\n");
    assert_eq!(prompts[11], "\nIs the reservation for today: 2024-05-14?. Enter Y or N\n");
    assert_eq!(prompts[13], "\nIs the reservation for this month: 5?. Enter Y or N\n");
    assert_eq!(prompts[14], "\nIs the reservation for this year: 2024?. Enter Y or N\n");
    let expected = ReservationRequest {
        name: String::from("Boa Hancock"),
        contact: String::from("+91123456789"),
        seating: String::from("MainT7"),
        specific_seating_requested: true,
        advance: true,
        advance_method: PaymentMethod {
            mode_of_payment: PaymentMode::Card,
            payment_transaction_id: Some(String::from("0x1dac45\n")),
            payment_receiver: Some(String::from("Limboo\n")),
            payment_received_date: Some(today()),
        },
        advance_amount: 5000,
        confirmed: true,
        reservation_date: Date::from_ymd_opt(2025, 5, 25).unwrap(),
        reservation_time: ClockTime::from_hms(14, 30, 0).unwrap(),
        property_id: uuid::Uuid::parse_str("8ba0a933-6f7a-46d4-8378-a9ac2c457670").unwrap().as_u128(),
    };
    assert_eq!(step, Step::Done(expected));
}

const PID_LINE: &str = "8ba0a933-6f7a-46d4-8378-a9ac2c457670\n";

#[test]
fn a_reservation_without_advance_for_today() {
    let (prompts, step) = run(&["Zoro\n", "", "n\n", "N\n", "n\n", "yes\n", "9\n", "0\n", PID_LINE]);
    assert_eq!(prompts[3], "\nAdvance received? Enter Y or N\n");
    assert_eq!(prompts[4], "\nConfirmed? Enter Y or N\n");
    match step {
        Step::Done(r) => {
            assert_eq!(r.seating, "Table not specifically requested");
            assert!(!r.advance);
            assert_eq!(r.advance_amount, 0);
            assert_eq!(r.advance_method, PaymentMethod {
                mode_of_payment: PaymentMode::NotPaid,
                payment_transaction_id: None,
                payment_receiver: None,
                payment_received_date: None,
            });
            assert_eq!(r.reservation_date, today());
            assert_eq!(r.reservation_time, ClockTime { hour: 9, minute: 0, second: 0, nanosecond: 0 });
            assert_eq!(r.contact, "");
        },
        other => panic!("{:?}", other),
    }
}

#[test]
fn the_contact_and_table_are_read_to_the_end() {
    let (entry, first) = ReservationEntry::create_new_reservation();
    assert_eq!(first, Step::Ask(Question { prompt: String::from("\nEnter reservation name\n"), read: ReadMode::Line }));
    let mut entry = entry;
    assert_eq!(
        entry.answer(String::from("x\n"), today()),
        Step::Ask(Question { prompt: String::from("\nEnter contact details\n"), read: ReadMode::ToEnd })
    );
}

#[test]
fn an_unknown_payment_mode_panics() {
    let (_, step) = run(&["a\n", "b\n", "n\n", "y\n", "4\n"]);
    assert_eq!(step, Step::Fail(Failure::Panic(String::from("Unknown payment mode entered"))));
    let (_, step) = run(&["a\n", "b\n", "n\n", "y\n", "cash\n"]);
    assert_eq!(step, Step::Fail(Failure::Panic(String::from("failed to parse PaymentMethod"))));
}

#[test]
fn an_hour_that_is_no_number_is_an_error() {
    let (_, step) = run(&["a\n", "b\n", "n\n", "n\n", "n\n", "y\n", "noon\n", "0\n"]);
    assert_eq!(step, Step::Fail(Failure::ParseInt(IntErrorKind::InvalidDigit)));
    let (_, step) = run(&["a\n", "b\n", "n\n", "n\n", "n\n", "y\n", "25\n", "0\n"]);
    assert_eq!(step, Step::Fail(Failure::Panic(String::from("creating time for reservation failed."))));
}

#[test]
fn an_unclear_day_answer_panics() {
    let (_, step) = run(&["a\n", "b\n", "n\n", "n\n", "n\n", "perhaps\n"]);
    assert_eq!(
        step,
        Step::Fail(Failure::Panic(String::from("Reservation for today has to be answered (Y, Yes, N, No) only")))
    );
}

#[test]
fn a_day_and_month_typed_with_their_newlines_are_read() {
    let (_, step) = run(&["a\n", "b\n", "n\n", "n\n", "n\n", "n\n", "28\n", "n\n", "6\n", "y\n", "19\n", "45\n", PID_LINE]);
    match step {
        Step::Done(r) => {
            assert_eq!(r.reservation_date, Date::from_ymd_opt(2024, 6, 28).unwrap());
            assert_eq!(r.reservation_time, ClockTime::from_hms(19, 45, 0).unwrap());
        },
        other => panic!("{:?}", other),
    }
}

#[test]
fn a_day_that_is_no_number_panics() {
    let (_, step) = run(&["a\n", "b\n", "n\n", "n\n", "n\n", "n\n", "the 25th\n", "y\n", "y\n"]);
    assert_eq!(step, Step::Fail(Failure::Panic(String::from("Failed to parse day."))));
}

#[test]
fn log_in_requests() {
    let l = log_in(" 8ba0a933-6f7a-46d4-8378-a9ac2c457670\n", "PropertyAdmin\n", " Change_password_asap\n").unwrap();
    assert_eq!(l.user_name, "PropertyAdmin");
    assert_eq!(l.user_password, "Change_password_asap");
    assert_eq!(l.pid, uuid::Uuid::parse_str("8ba0a933-6f7a-46d4-8378-a9ac2c457670").unwrap().as_u128());
    assert!(log_in("nope\n", "a", "b").is_none());
}

#[test]
fn account_kinds() {
    assert_eq!(account_kind("p\n"), Some(AccountKind::Property));
    assert_eq!(account_kind("Pu\n"), Some(AccountKind::PropertyUser));
    assert_eq!(account_kind("PU\n"), None);
}

#[test]
fn property_requests_send_the_email_as_password() {
    let p = create_new_property("Limboo\n", "hunter2\n", "a@b.c\n", "123\n", 9);
    assert_eq!(p.property_name, "Limboo");
    assert_eq!(p.property_password, "a@b.c");
    assert_eq!(p.property_email, "a@b.c");
    assert_eq!(p.property_phone, "123");
    assert_eq!(p.property_id, 9);
}

#[test]
fn property_user_requests() {
    let u = create_new_property_user("Nami\n", "pw\n", " 2 \n", "8ba0a933-6f7a-46d4-8378-a9ac2c457670\n").unwrap();
    assert_eq!(u.user_name, "Nami");
    assert_eq!(u.user_role, 2);
    assert_eq!(create_new_property_user("a", "b", "two", "x").unwrap_err(), "failed to parse user role");
    assert_eq!(create_new_property_user("a", "b", "2", "x").unwrap_err(), "failed to parse property id ");
}

#[test]
fn role_requests() {
    assert_eq!(create_role("3\n", "Waiter\n"), Some(Roles { role_id: 3, role_name: String::from("Waiter") }));
    assert_eq!(create_role("three\n", "Waiter\n"), None);
}

#[test]
fn reservation_addresses() {
    assert_eq!(delete_db_with_id(" 12\n"), Ok(String::from("http://127.0.0.1:3000/delete_resv_with_id/12")));
    assert_eq!(delete_db_with_id("x"), Err("Failed to parse reservation id."));
    assert_eq!(
        update_resv_date_with_id("4\n", "2024", "5", "25"),
        Ok(String::from("http://127.0.0.1:3000/update_resv_date_with_id/4/2024-05-25"))
    );
    assert_eq!(
        update_resv_date_with_id("4\n", "2024\n", "5\n", "25\n"),
        Ok(String::from("http://127.0.0.1:3000/update_resv_date_with_id/4/2024-05-25"))
    );
    assert_eq!(update_resv_date_with_id("4\n", "MMXXIV\n", "5", "25"), Err("Failed to parse year."));
    assert_eq!(update_resv_date_with_id("4\n", "2023", "2", "29"), Err("Failed to structure reservation date."));
    assert_eq!(update_resv_date_with_id("four", "2024", "5", "25"), Err("failed to parse id to type i32"));
    assert_eq!(
        update_resv_name_with_id("4\n", " Boa \"Snake\" Hancock\n"),
        Ok(String::from("http://127.0.0.1:3000/update_resv_name_with_id/4/\"Boa \\\"Snake\\\" Hancock\""))
    );
}

#[test]
fn first_entry_tool_requests() {
    let r = write_post("Luffy  \n", "+1\n", "T1\n", "Y\n", "maybe\n");
    assert_eq!(r.name, "Luffy");
    assert_eq!(r.contact, "+1\n");
    assert_eq!(r.seating, "T1\n");
    assert!(r.advance);
    assert!(!r.confirmed);
}

#[test]
fn received_today_is_the_date_when_it_is_answered() {
    let later = Date::from_ymd_opt(2024, 5, 15).unwrap();
    let (mut p, _) = payment_mode_handler(1);
    p.answer(String::from("Limboo\n"), today());
    assert_eq!(
        p.answer(String::from("Y\n"), later),
        Step::Done(PaymentReceipt { transaction_id: None, receiver: String::from("Limboo\n"), received_date: later })
    );
}

#[test]
fn the_day_questions_speak_of_the_date_read_at_confirmation() {
    let later = Date::from_ymd_opt(2024, 5, 15).unwrap();
    let (mut entry, _) = ReservationEntry::create_new_reservation();
    for a in ["a\n", "b\n", "n\n", "n\n"] {
        entry.answer(String::from(a), today());
    }
    let s = entry.answer(String::from("y\n"), later);
    assert_eq!(prompt_of(&s), "\nIs the reservation for today: 2024-05-15?. Enter Y or N\n");
    entry.answer(String::from("yes\n"), today());
    entry.answer(String::from("9\n"), today());
    entry.answer(String::from("0\n"), today());
    match entry.answer(String::from("8ba0a933-6f7a-46d4-8378-a9ac2c457670\n"), today()) {
        Step::Done(r) => assert_eq!(r.reservation_date, later),
        other => panic!("{:?}", other),
    }
}
