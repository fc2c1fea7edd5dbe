//! Charge-behaviour control for a battery: a hysteresis policy that keeps the
//! state of charge inside a band, the loop that applies it once a minute,
//! and the text formats of the values exchanged with the power-supply device.
//!
//! - [`policy`] decides the behaviour for one capacity reading.
//! - [`round`] turns the decision into what one round writes and reports.
//! - [`poll`] orders the reads, reports, writes and sleeps of the loop; the
//!   caller does the input and output.
//! - [`behaviour`] and [`capacity`] read and write the device's texts.
//! - [`journal`] chooses the log's style and writes journal lines.
//! - [`text`] holds white space, trimming and comparison of texts.

pub mod behaviour;
pub mod capacity;
pub mod journal;
pub mod policy;
pub mod poll;
pub mod round;
pub mod text;

pub use behaviour::{ChargeBehaviour, UnknownBehaviour};
pub use capacity::{parse_capacity, CapacityError};
pub use journal::{journal_line, log_style, LogStyle, Severity};
pub use policy::{calc_behaviour, HIGH_THRESHOLD, LOW_THRESHOLD};
pub use poll::{start, step, Command, Event, Report, State, Step, POLL_INTERVAL_SECS};
pub use round::{tick, Tick};
