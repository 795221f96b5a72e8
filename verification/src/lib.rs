//! Verified core of a nutrition tracker.
//!
//! - [`ingredients`], [`units`], [`color`], [`date`]: the data model, with
//!   the arithmetic on nutrient amounts and the stored form of units,
//!   colours and dates.
//! - [`database`]: the repository. For each operation on the store it gives
//!   the statements to run, with every value bound to a placeholder; for
//!   each query it decodes the rows that were found; and it tells how the
//!   statements of one operation run as a whole.
//! - [`sql`], [`amounts`], [`error`]: the values that pass between the
//!   library and the store.
//! - [`selection`]: which row of a list stays selected after a deletion.
//!
//! The library opens no file and holds no connection: whoever does hands
//! it rows and gets statements.

pub mod amounts;
pub mod color;
pub mod database;
pub mod date;
pub mod error;
pub mod ingredients;
pub mod selection;
pub mod sql;
pub mod units;
