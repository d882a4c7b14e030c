//! Error taxonomy of the protocol engine.

use vstd::prelude::*;

use crate::strfmt::spec_dec_digits;
use crate::strfmt::u32_dec_string;

verus! {

/// Feature index reserved on the wire for HID++ 2.0 error reports.
pub const HIDPP20_ERROR_FEATURE_INDEX: u8 = 0xFF;

#[derive(Clone, Copy, Debug, PartialEq, Eq, Structural)]
pub enum HidError {
    BadReportSize,
}

#[derive(Clone, Copy, Debug, PartialEq, Eq, Structural)]
pub enum HidDeviceError {
    BadDevice,
}

/// Framing-level failures of the report codec.
#[derive(Clone, Copy, Debug, PartialEq, Eq, Structural)]
pub enum HidppError {
    BadReportSize,
    ReportIdInvalid,
}

/// Protocol-level error codes carried by a HID++ 2.0 error report, plus a
/// fallback for codes this client does not know.
#[derive(Clone, Copy, Debug, PartialEq, Eq, Structural)]
pub enum Hidpp20Error {
    Unknown,
    InvalidArgument,
    OutOfRange,
    HWError,
    Unrecognized(u8),
}

impl Hidpp20Error {
    /// The error variant denoted by a raw error-code byte.
    pub open spec fn spec_from_code(code: u8) -> Hidpp20Error {
        if code == 1 {
            Hidpp20Error::Unknown
        } else if code == 2 {
            Hidpp20Error::InvalidArgument
        } else if code == 3 {
            Hidpp20Error::OutOfRange
        } else if code == 4 {
            Hidpp20Error::HWError
        } else {
            Hidpp20Error::Unrecognized(code)
        }
    }

    pub fn from_code(code: u8) -> (r: Hidpp20Error)
        ensures
            r == Hidpp20Error::spec_from_code(code),
    {
        if code == 1 {
            Hidpp20Error::Unknown
        } else if code == 2 {
            Hidpp20Error::InvalidArgument
        } else if code == 3 {
            Hidpp20Error::OutOfRange
        } else if code == 4 {
            Hidpp20Error::HWError
        } else {
            Hidpp20Error::Unrecognized(code)
        }
    }
}

impl Hidpp20Error {
    /// The error's message text.
    pub open spec fn spec_display(self) -> Seq<char> {
        ("Hid++ 2.0 error: ")@ + match self {
            Hidpp20Error::Unknown => ("Unknown")@,
            Hidpp20Error::InvalidArgument => ("InvalidArgument")@,
            Hidpp20Error::OutOfRange => ("OutOfRange")@,
            Hidpp20Error::HWError => ("HWError")@,
            Hidpp20Error::Unrecognized(code) => ("Unrecognized(")@ + spec_dec_digits(code as nat)
                + (")")@,
        }
    }

    pub fn display_string(&self) -> (r: String)
        ensures
            r@ == self.spec_display(),
    {
        let mut s = String::from_str("Hid++ 2.0 error: ");
        match self {
            Hidpp20Error::Unknown => {
                s.append("Unknown");
            },
            Hidpp20Error::InvalidArgument => {
                s.append("InvalidArgument");
            },
            Hidpp20Error::OutOfRange => {
                s.append("OutOfRange");
            },
            Hidpp20Error::HWError => {
                s.append("HWError");
            },
            Hidpp20Error::Unrecognized(code) => {
                s.append("Unrecognized(");
                let digits = u32_dec_string(*code as u32);
                s.append(digits.as_str());
                s.append(")");
            },
        }
        s
    }
}

/// Everything a synchronous command call can fail with: the transport
/// refused the outbound frame, no answer arrived in time, or the device
/// answered with a protocol error.
#[derive(Clone, Copy, Debug, PartialEq, Eq, Structural)]
pub enum CommandError {
    Transport,
    TimedOut,
    Protocol(Hidpp20Error),
}

impl CommandError {
    /// The error's message text.
    pub open spec fn spec_display(self) -> Seq<char> {
        match self {
            CommandError::Transport => ("transport send failed")@,
            CommandError::TimedOut => ("timed out waiting for an answer")@,
            CommandError::Protocol(e) => e.spec_display(),
        }
    }

    pub fn display_string(&self) -> (r: String)
        ensures
            r@ == self.spec_display(),
    {
        match self {
            CommandError::Transport => String::from_str("transport send failed"),
            CommandError::TimedOut => String::from_str("timed out waiting for an answer"),
            CommandError::Protocol(e) => e.display_string(),
        }
    }
}

} // verus!
