//! Append-only, paginated message ledger with an escalating posting fee.
//!
//! A *doctrine* is a topic: an append-only stream of messages grouped into
//! fixed-capacity pages. Each successful append charges a fee that grows by
//! one percent per message; the first message of a topic is always charged
//! the fixed initial fee. Debiting the fee is the host's job: the library
//! computes the charge, the host performs the debit, and the library commits
//! the append only when told that the debit succeeded.

pub mod append;
pub mod errors;
pub mod fees;
pub mod ledger;
