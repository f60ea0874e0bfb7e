//! Bounded log collection for a single emulation call.
//!
//! The VM's diagnostic rows are gathered into a ring buffer: once the
//! configured capacity is reached the oldest row is dropped first.  The
//! mask of VM aspects to log and the buffer capacity are both derived
//! from the caller's verbosity level.

use vstd::prelude::*;

verus! {

/// Log aspect bit: instruction messages.
pub const LOG_MESSAGE: u8 = 1;
/// Log aspect bit: a dump of the stack after each step.
pub const LOG_DUMP_STACK: u8 = 2;
/// Log aspect bit: the code cell location of each step.
pub const LOG_EXEC_LOCATION: u8 = 4;
/// Log aspect bit: remaining gas after each step.
pub const LOG_GAS_REMAINING: u8 = 8;
/// Log aspect bit: a verbose stack dump.
pub const LOG_DUMP_STACK_VERBOSE: u8 = 32;
/// Log aspect bit: a dump of the action register.
pub const LOG_DUMP_C5: u8 = 64;

/// The log mask derived from a verbosity level: each additional level
/// adds one aspect, and the action-register dump is only offered where
/// the call shape allows it.
pub open spec fn log_mask_spec(verbosity: int, allow_c5: bool) -> u8 {
    if verbosity == 0 {
        0u8
    } else if verbosity <= 1 {
        LOG_MESSAGE
    } else if verbosity == 2 {
        (LOG_MESSAGE + LOG_EXEC_LOCATION) as u8
    } else if verbosity == 3 {
        (LOG_MESSAGE + LOG_EXEC_LOCATION + LOG_GAS_REMAINING) as u8
    } else if verbosity == 4 {
        (LOG_MESSAGE + LOG_EXEC_LOCATION + LOG_GAS_REMAINING + LOG_DUMP_STACK) as u8
    } else if allow_c5 {
        (LOG_MESSAGE + LOG_EXEC_LOCATION + LOG_GAS_REMAINING + LOG_DUMP_STACK
            + LOG_DUMP_STACK_VERBOSE + LOG_DUMP_C5) as u8
    } else {
        (LOG_MESSAGE + LOG_EXEC_LOCATION + LOG_GAS_REMAINING + LOG_DUMP_STACK
            + LOG_DUMP_STACK_VERBOSE) as u8
    }
}

/// Derives the mask of VM aspects to log from a verbosity level.
///
/// Any non-zero verbosity (negative included) logs instruction
/// messages; levels above 1, 2, 3 and 4 add the execution location, the
/// remaining gas, a stack dump and a verbose stack dump in turn.  The
/// action-register dump is added at the highest level only where
/// `allow_c5` holds.
pub fn make_vm_log_mask(verbosity: i32, allow_c5: bool) -> (r: u8)
    ensures
        r == log_mask_spec(verbosity as int, allow_c5),
{
    let mut res: u8 = 0;
    if verbosity != 0 {
        res = res + LOG_MESSAGE;
    }
    if verbosity > 1 {
        res = res + LOG_EXEC_LOCATION;
        if verbosity > 2 {
            res = res + LOG_GAS_REMAINING;
            if verbosity > 3 {
                res = res + LOG_DUMP_STACK;
                if verbosity > 4 {
                    res = res + LOG_DUMP_STACK_VERBOSE;
                    if allow_c5 {
                        res = res + LOG_DUMP_C5;
                    }
                }
            }
        }
    }
    res
}

/// The log buffer capacity for a verbosity level: small by default,
/// one mebibyte of rows for positive verbosity, thirty-two for the
/// highest levels.
pub fn log_capacity(verbosity: i32) -> (r: usize)
    ensures
        verbosity > 4 ==> r == 33554432,
        0 < verbosity <= 4 ==> r == 1048576,
        verbosity <= 0 ==> r == 256,
{
    if verbosity > 4 {
        33554432
    } else if verbosity > 0 {
        1048576
    } else {
        256
    }
}

/// A bounded buffer of log rows: once `capacity` rows are held, adding
/// a row drops the oldest one first.
pub struct VmLogRows {
    capacity: usize,
    rows: Vec<String>,
}

impl VmLogRows {
    /// The buffer's configured bound.
    pub closed spec fn spec_capacity(&self) -> usize {
        self.capacity
    }

    /// The rows currently held, oldest first.
    pub closed spec fn spec_rows(&self) -> Seq<String> {
        self.rows@
    }

    /// The buffer never holds more rows than its capacity allows,
    /// except that a zero-capacity buffer still accepts a single row at
    /// a time.
    pub open spec fn wf(&self) -> bool {
        self.spec_rows().len() <= self.spec_capacity()
            || (self.spec_capacity() == 0 && self.spec_rows().len() <= 1)
    }

    /// Creates an empty buffer bounded by `capacity` rows.
    pub fn new(capacity: usize) -> (r: VmLogRows)
        ensures
            r.spec_capacity() == capacity,
            r.spec_rows() =~= Seq::<String>::empty(),
            r.wf(),
    {
        VmLogRows { capacity, rows: Vec::new() }
    }

    /// Number of rows currently held.
    pub fn len(&self) -> (r: usize)
        ensures
            r == self.spec_rows().len(),
    {
        self.rows.len()
    }

    /// Makes room for one more row and hands back an empty buffer to
    /// fill: when the bound is reached the oldest row is dropped,
    /// otherwise nothing changes.
    pub fn get_buffer(&mut self) -> (r: String)
        ensures
            r@.len() == 0,
            final(self).spec_capacity() == old(self).spec_capacity(),
            old(self).spec_rows().len() >= old(self).spec_capacity() && old(
                self,
            ).spec_rows().len() > 0 ==> final(self).spec_rows() == old(self).spec_rows().drop_first(),
            old(self).spec_rows().len() < old(self).spec_capacity() || old(self).spec_rows().len()
                == 0 ==> final(self).spec_rows() == old(self).spec_rows(),
    {
        if self.rows.len() >= self.capacity && self.rows.len() > 0 {
            let _dropped = self.rows.remove(0);
        }
        String::new()
    }

    /// Appends a row, dropping the oldest one first when the bound is
    /// reached.
    pub fn push_row(&mut self, row: String)
        ensures
            final(self).spec_capacity() == old(self).spec_capacity(),
            old(self).wf() ==> final(self).wf(),
            old(self).spec_rows().len() >= old(self).spec_capacity() && old(
                self,
            ).spec_rows().len() > 0 ==> final(self).spec_rows() == old(
                self,
            ).spec_rows().drop_first().push(row),
            old(self).spec_rows().len() < old(self).spec_capacity() || old(self).spec_rows().len()
                == 0 ==> final(self).spec_rows() == old(self).spec_rows().push(row),
    {
        let _recycled = self.get_buffer();
        self.rows.push(row);
    }

    /// Hands out all held rows, oldest first, leaving the buffer empty.
    pub fn take_rows(&mut self) -> (r: Vec<String>)
        ensures
            r@ == old(self).spec_rows(),
            final(self).spec_rows() =~= Seq::<String>::empty(),
            final(self).spec_capacity() == old(self).spec_capacity(),
            final(self).wf(),
    {
        let mut taken: Vec<String> = Vec::new();
        std::mem::swap(&mut taken, &mut self.rows);
        taken
    }
}

} // verus!
