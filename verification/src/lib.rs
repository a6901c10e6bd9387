//! Core logic of a small remote file browser: one short-lived SFTP session
//! per operation, directory listings, and buffered byte transfers.
//!
//! The modules here hold everything that can be stated and proved about the
//! workflow: which step of a session fails with which error, what a listing
//! reports, and what a buffered copy writes. The network and file system
//! calls themselves live outside the library, in a thin driver that performs
//! each directed step and feeds its outcome back in.

pub mod error;
pub mod listing;
pub mod session;
pub mod transfer;
