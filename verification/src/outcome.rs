//! The immutable record of one executed probe: the command, both raw call
//! results, the interpretation, and an optional discovered size.

use vstd::prelude::*;
use crate::interpret::Interpretation;

verus! {

/// Relies on `chrono::Local::now` and `chrono::DateTime::to_rfc3339` for a
/// wall-clock timestamp. The result depends on the clock, so nothing is
/// promised of it.
#[verifier::external_body]
fn now_rfc3339() -> String {
    chrono::Local::now().to_rfc3339()
}

/// Single probe result, immutable once created.
pub struct IoctlResult {
    /// Full packed command number.
    pub cmd: u32,
    /// Direction bits (0 = none, 1 = write, 2 = read, 3 = read|write).
    pub dir: u8,
    /// Type/magic number field.
    pub ty: u8,
    /// Sequence number within the type.
    pub nr: u8,
    /// Size of the argument structure that was declared in the command.
    pub size: u16,
    /// (return value, errno) of the null-argument call.
    pub null_result: (i32, i32),
    /// (return value, errno) of the buffered call, if one was made.
    pub ptr_result: Option<(i32, i32)>,
    /// Interpretation of the result.
    pub interpretation: Interpretation,
    /// The size found by size discovery, if it ran and found one.
    pub discovered_size: Option<u16>,
    /// Wall-clock timestamp of when this probe was performed.
    pub timestamp: Option<String>,
    /// Whether the probed type is on the deny list.
    pub is_potentially_dangerous: bool,
}

impl Clone for IoctlResult {
    /// An exact copy of the record.
    fn clone(&self) -> (r: Self)
        ensures
            r == *self,
    {
        IoctlResult {
            cmd: self.cmd,
            dir: self.dir,
            ty: self.ty,
            nr: self.nr,
            size: self.size,
            null_result: self.null_result,
            ptr_result: self.ptr_result,
            interpretation: self.interpretation,
            discovered_size: self.discovered_size,
            timestamp: match &self.timestamp {
                Some(t) => Some(t.clone()),
                None => None,
            },
            is_potentially_dangerous: self.is_potentially_dangerous,
        }
    }
}

impl IoctlResult {
    /// Create a new record, stamped with the current time.
    pub fn new(
        cmd: u32,
        dir: u8,
        ty: u8,
        nr: u8,
        size: u16,
        null_result: (i32, i32),
        ptr_result: Option<(i32, i32)>,
        interpretation: Interpretation,
        discovered_size: Option<u16>,
        is_potentially_dangerous: bool,
    ) -> (r: Self)
        ensures
            r.cmd == cmd,
            r.dir == dir,
            r.ty == ty,
            r.nr == nr,
            r.size == size,
            r.null_result == null_result,
            r.ptr_result == ptr_result,
            r.interpretation == interpretation,
            r.discovered_size == discovered_size,
            r.is_potentially_dangerous == is_potentially_dangerous,
            r.timestamp is Some,
    {
        IoctlResult {
            cmd,
            dir,
            ty,
            nr,
            size,
            null_result,
            ptr_result,
            interpretation,
            discovered_size,
            timestamp: Some(now_rfc3339()),
            is_potentially_dangerous,
        }
    }

    /// Whether this command appears to exist in any form.
    pub fn is_valid(&self) -> (r: bool)
        ensures
            r == !(self.interpretation is NotExist),
    {
        !matches!(self.interpretation, Interpretation::NotExist)
    }

    /// Whether the probe of this command succeeded outright.
    pub fn is_successful(&self) -> (r: bool)
        ensures
            r == (self.interpretation is Success),
    {
        matches!(self.interpretation, Interpretation::Success)
    }
}

} // verus!
