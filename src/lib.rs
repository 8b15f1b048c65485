//! Payment-authorization ledger: one access-controlled record that gates a
//! mint behind a paid transfer, with a usage counter and a hard cap.
pub mod address;
pub mod error;
pub mod storage;
pub mod program;
pub mod laws;
