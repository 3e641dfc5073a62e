//! Error values: which stage of socket work failed, and the OS errno it
//! failed with.

use vstd::prelude::*;
use vstd::string::StringExecFns;
use crate::numfmt::spec_decimal;
use crate::numfmt::decimal_string;

verus! {

/// The outcome of a failed system call: the errno the OS reported, and
/// whether the call failed only because a signal interrupted it.
#[derive(Clone, Copy, Debug, PartialEq, Eq, Structural)]
pub struct SysError {
    pub errno: u32,
    pub interrupted: bool,
}

/// A failure of this crate's socket work, by the stage that failed; each
/// stage carries the errno of the underlying call.
#[derive(Clone, Copy, Debug, PartialEq, Eq, Structural)]
pub enum VsockError {
    CreateSocket { errno: u32 },
    Bind { errno: u32 },
    Listen { errno: u32 },
    Accept { errno: u32 },
    Connect { errno: u32 },
    Io { errno: u32 },
}

impl VsockError {
    /// The errno carried by the error, whatever its stage.
    pub open spec fn spec_errno(self) -> u32 {
        match self {
            VsockError::CreateSocket { errno } => errno,
            VsockError::Bind { errno } => errno,
            VsockError::Listen { errno } => errno,
            VsockError::Accept { errno } => errno,
            VsockError::Connect { errno } => errno,
            VsockError::Io { errno } => errno,
        }
    }

    pub fn errno(&self) -> (e: u32)
        ensures
            e == self.spec_errno(),
    {
        match *self {
            VsockError::CreateSocket { errno } => errno,
            VsockError::Bind { errno } => errno,
            VsockError::Listen { errno } => errno,
            VsockError::Accept { errno } => errno,
            VsockError::Connect { errno } => errno,
            VsockError::Io { errno } => errno,
        }
    }

    /// The text that names the failed stage in the error's message.
    pub open spec fn spec_stage_text(self) -> Seq<char> {
        match self {
            VsockError::CreateSocket { .. } => "Create socket failed: errno "@,
            VsockError::Bind { .. } => "Bind failed: errno "@,
            VsockError::Listen { .. } => "Listen failed: errno "@,
            VsockError::Accept { .. } => "Accept failed: errno "@,
            VsockError::Connect { .. } => "Failed to connect: errno "@,
            VsockError::Io { .. } => "Transfer failed: errno "@,
        }
    }

    /// The error's whole message: the stage text followed by the errno in
    /// decimal.
    pub open spec fn spec_message(self) -> Seq<char> {
        self.spec_stage_text() + spec_decimal(self.spec_errno() as nat)
    }

    /// A descriptive message naming the failed stage and the OS errno.
    pub fn message(&self) -> (s: String)
        ensures
            s@ == self.spec_message(),
    {
        let mut s: String = match *self {
            VsockError::CreateSocket { .. } => "Create socket failed: errno ".to_owned(),
            VsockError::Bind { .. } => "Bind failed: errno ".to_owned(),
            VsockError::Listen { .. } => "Listen failed: errno ".to_owned(),
            VsockError::Accept { .. } => "Accept failed: errno ".to_owned(),
            VsockError::Connect { .. } => "Failed to connect: errno ".to_owned(),
            VsockError::Io { .. } => "Transfer failed: errno ".to_owned(),
        };
        let digits = decimal_string(self.errno());
        s.append(digits.as_str());
        s
    }
}

} // verus!
