# diesel_demo

Reservation and property-account management for a restaurant front desk,
written in Verus.

- `src/` is the verified library: the stored payment-mode codes, the texts
  shown for reservations, dates, times and ids, password salting and the
  log-in check, the pages and requests the handlers and tools build, and the
  question-and-answer sessions with which reservations and payments are
  entered at a terminal (each a state machine from answer to next question).
- `app/` holds the HTTP handlers and database access (axum, diesel), the
  serde and diesel copies of the library's records, and the terminal loops
  that print the library's questions, read the answers and send the results.
- `tests/` runs the library, and compares its texts, parses and trimming with
  the crates and the standard library they stand beside.
