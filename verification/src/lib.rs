//! Reconciliation engine of a pull-request notifier.
//!
//! Given the discussion activity of a set of open pull requests and the
//! identifiers that an earlier run has already seen, the engine decides which
//! notifications are due and which identifiers the next run must remember.
//!
//! The engine does no input or output.  Its caller fetches the activity,
//! delivers the messages and keeps the snapshot between runs; [`run::Run`]
//! says when to do which.
//!
//! From the leaves up:
//!
//! - [`clients`]: the records of the code-review service, the snapshot, and
//!   how requests and messages are written.
//! - [`feedback`]: comments and reviews in one model, and the message text
//!   of each.
//! - [`filter`]: what counts as noise.
//! - [`activity`]: from the service's records to the current activity of a
//!   pull request.
//! - [`diff`]: what of that activity is new.
//! - [`dispatch`]: the messages that are due for it.
//! - [`driver`]: one pull request, and a whole run over fetched activity.
//! - [`run`]: a whole run, step by step.
//! - [`laws`]: what holds of all this on every input.

pub mod activity;
pub mod clients;
pub mod diff;
pub mod dispatch;
pub mod driver;
pub mod feedback;
pub mod filter;
pub mod ids;
pub mod laws;
pub mod pattern;
pub mod run;
pub mod settings;
pub mod text;
pub mod util;
