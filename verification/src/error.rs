//! The failure taxonomy of the remote file operations.
//!
//! Every operation proceeds through a fixed sequence of steps (connect,
//! handshake, authenticate, open the transfer channel, then the per-operation
//! file steps). A failure is charged to the step at which it arose and is
//! surfaced to the caller as one human-readable message: the step's fixed
//! label followed by the underlying cause.

use vstd::prelude::*;
use vstd::string::StringExecFns;

verus! {

/// The step of an operation at which a failure can arise.
#[derive(Clone, Copy, Debug, PartialEq, Eq, Structural)]
pub enum Step {
    /// opening the raw network stream to the host
    Connect,
    /// constructing the protocol session over the stream
    SessionInit,
    /// the protocol handshake
    Handshake,
    /// password authentication
    Auth,
    /// opening the file-transfer sub-channel
    Channel,
    /// opening a remote directory for listing
    OpenDir,
    /// reading the entries of an open remote directory
    ReadDir,
    /// opening a remote file for reading
    RemoteOpen,
    /// creating (or truncating) a local file for writing
    LocalCreate,
    /// reading bytes from an open remote file
    RemoteRead,
    /// writing bytes to an open local file
    LocalWrite,
    /// opening a local file for reading
    LocalOpen,
    /// creating (or truncating) a remote file for writing
    RemoteCreate,
    /// reading bytes from an open local file
    LocalRead,
    /// writing bytes to an open remote file
    RemoteWrite,
}

/// The fixed label that prefixes the message of a failure at each step.
pub open spec fn step_label(s: Step) -> Seq<char> {
    match s {
        Step::Connect => "TCP connect failed: "@,
        Step::SessionInit => "Session error: "@,
        Step::Handshake => "SSH handshake failed: "@,
        Step::Auth => "Auth failed: "@,
        Step::Channel => "SFTP failed: "@,
        Step::OpenDir => "Open dir failed: "@,
        Step::ReadDir => "Read dir failed: "@,
        Step::RemoteOpen => "Open remote file failed: "@,
        Step::LocalCreate => "Create local file failed: "@,
        Step::RemoteRead => "Read remote file failed: "@,
        Step::LocalWrite => "Write local file failed: "@,
        Step::LocalOpen => "Open local file failed: "@,
        Step::RemoteCreate => "Create remote file failed: "@,
        Step::LocalRead => "Read local file failed: "@,
        Step::RemoteWrite => "Write remote file failed: "@,
    }
}

/// One failed operation: the step that failed and the cause reported by the
/// failing call.
pub struct OpError {
    pub step: Step,
    pub cause: String,
}

/// The mathematical value of an [`OpError`]: its step and the characters of
/// its cause.
pub struct ErrModel {
    pub step: Step,
    pub cause: Seq<char>,
}

impl View for OpError {
    type V = ErrModel;

    open spec fn view(&self) -> ErrModel {
        ErrModel { step: self.step, cause: self.cause@ }
    }
}

impl OpError {
    /// Render the error as the single human-readable string handed to the
    /// caller: the failing step's label followed by the underlying cause.
    pub fn message(&self) -> (r: String)
        ensures
            r@ == step_label(self@.step) + self@.cause,
    {
        let label: &str = match self.step {
            Step::Connect => "TCP connect failed: ",
            Step::SessionInit => "Session error: ",
            Step::Handshake => "SSH handshake failed: ",
            Step::Auth => "Auth failed: ",
            Step::Channel => "SFTP failed: ",
            Step::OpenDir => "Open dir failed: ",
            Step::ReadDir => "Read dir failed: ",
            Step::RemoteOpen => "Open remote file failed: ",
            Step::LocalCreate => "Create local file failed: ",
            Step::RemoteRead => "Read remote file failed: ",
            Step::LocalWrite => "Write local file failed: ",
            Step::LocalOpen => "Open local file failed: ",
            Step::RemoteCreate => "Create remote file failed: ",
            Step::LocalRead => "Read local file failed: ",
            Step::RemoteWrite => "Write remote file failed: ",
        };
        String::from_str(label).concat(self.cause.as_str())
    }
}

} // verus!
