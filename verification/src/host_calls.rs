//! Host call interface.
//!
//! The fixed capability set plugins may invoke: logging, a wall-clock
//! timestamp, and reading an event metadata field. Every call advances a
//! monotonic counter used for diagnostics and quota cross-checking.

use crate::error::ZenithError;
use std::io::Write;
use vstd::prelude::*;
use vstd::string::StrSliceExecFns;
use vstd::string::StringSliceAdditionalSpecFns;

verus! {

/// Severity of a plugin log line.
#[derive(Debug, Clone, Copy, PartialEq, Eq, Structural)]
pub enum LogLevel {
    Info,
    Warn,
    Error,
}

impl From<u32> for LogLevel {
    /// The mapping from a raw level code is deliberately permissive, so a
    /// malformed code never fails the call: zero is informational, one is
    /// a warning, everything else an error.
    fn from(val: u32) -> (r: LogLevel) {
        match val {
            0 => LogLevel::Info,
            1 => LogLevel::Warn,
            _ => LogLevel::Error,
        }
    }
}

impl vstd::std_specs::convert::FromSpecImpl<u32> for LogLevel {
    open spec fn obeys_from_spec() -> bool {
        true
    }

    open spec fn from_spec(v: u32) -> LogLevel {
        if v == 0 {
            LogLevel::Info
        } else if v == 1 {
            LogLevel::Warn
        } else {
            LogLevel::Error
        }
    }
}

/// Relies on `std::io::Write::write_fmt`, through the `writeln` macro:
/// writes one tagged plugin log line to standard error.
#[verifier::external_body]
pub(crate) fn emit_log(tag: &str, message: &str) {
    let _ = writeln!(std::io::stderr(), "[{}] [WASM Plugin] {}", tag, message);
}

/// Relies on `std::time::SystemTime::now` and
/// `std::time::SystemTime::duration_since`: the nanoseconds since the UNIX
/// epoch, truncated to 64 bits, or zero if the clock lies before the
/// epoch. The value depends on the clock, so nothing is promised of it.
#[verifier::external_body]
fn unix_time_ns() -> u64 {
    std::time::SystemTime::now().duration_since(std::time::UNIX_EPOCH).unwrap_or_default().as_nanos() as u64
}

/// Host functions exposed to plugins. Each call advances the counter by
/// one; the counter wraps at its limit, as a diagnostic counter may.
pub struct HostCallInterface {
    call_count: u32,
}

impl HostCallInterface {
    /// The number of host calls made through this interface.
    pub closed spec fn count(&self) -> u32 {
        self.call_count
    }

    /// What one advance of the counter yields.
    pub open spec fn bumped(c: u32) -> u32 {
        if c < 0xffffffffu32 {
            (c + 1) as u32
        } else {
            0
        }
    }

    /// A fresh interface with no calls recorded.
    pub fn new() -> (r: Self)
        ensures
            r.count() == 0,
    {
        HostCallInterface { call_count: 0 }
    }

    fn increment_call_count(&mut self)
        ensures
            final(self).count() == Self::bumped(old(self).count()),
    {
        if self.call_count < 0xffffffffu32 {
            self.call_count = self.call_count + 1;
        } else {
            self.call_count = 0;
        }
    }

    /// Log a message on the plugin's behalf.
    pub fn log(&mut self, level: LogLevel, message: &str)
        ensures
            final(self).count() == Self::bumped(old(self).count()),
    {
        self.increment_call_count();
        match level {
            LogLevel::Info => emit_log("INFO", message),
            LogLevel::Warn => emit_log("WARN", message),
            LogLevel::Error => emit_log("ERROR", message),
        }
    }

    /// The current wall-clock time in nanoseconds since the UNIX epoch.
    /// The value depends on the clock; only the counter advance is
    /// promised.
    pub fn get_timestamp_ns(&mut self) -> (r: u64)
        ensures
            final(self).count() == Self::bumped(old(self).count()),
    {
        self.increment_call_count();
        unix_time_ns()
    }

    /// Read an event metadata field: hands back the field name's bytes.
    pub fn read_event_field(&mut self, field_name: &str) -> (r: Result<Vec<u8>, ZenithError>)
        ensures
            final(self).count() == Self::bumped(old(self).count()),
            r matches Ok(v) && v@ == field_name.spec_bytes(),
    {
        self.increment_call_count();
        Ok(field_name.as_bytes_vec())
    }

    /// The total number of host calls made.
    pub fn get_call_count(&self) -> (r: u32)
        ensures
            r == self.count(),
    {
        self.call_count
    }
}

impl Default for HostCallInterface {
    /// A fresh interface with no calls recorded.
    fn default() -> (r: Self)
        ensures
            r.count() == 0,
    {
        HostCallInterface::new()
    }
}

} // verus!
