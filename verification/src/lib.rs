//! Rules that decide whether a write to the records of a school's
//! administration and finance is accepted.
//!
//! Every attempted write of a record is judged before it is committed: it is
//! accepted, or it is rejected with a reason. A rejection is the first rule
//! that fails; nothing is changed by judging.
//!
//! - `dispatch` goes from the name of a collection to the rules for its
//!   records.
//! - `expenses`, `payments`, `staff`, `students`, `fees` and `banking` hold
//!   the rules of each kind of record.
//! - `status` is the state machine that records with a status follow.
//! - `store` reads the document store and says what an answer means for
//!   uniqueness and for references to other records; `clock` reads the time.
//! - `validation_utils`, `money` and `text` hold the shapes of single
//!   values, the arithmetic of amounts, and texts.
//! - `verdict` and `context` hold what a check is handed and what it
//!   concludes.
//!
//! A rule is stated twice: as a function of the record that gives the
//! verdict, and as the code that computes it, proved to give the same. The
//! rules that hear the store or read the clock are stated for every answer
//! and every time.

pub mod banking;
pub mod clock;
pub mod context;
pub mod dispatch;
pub mod expenses;
pub mod fees;
pub mod money;
pub mod payments;
pub mod staff;
pub mod status;
pub mod store;
pub mod students;
pub mod text;
pub mod validation_utils;
pub mod verdict;
