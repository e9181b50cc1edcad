//! The one place where the poller and the watcher meet: a slot that holds
//! the latest status and counts how often it was filled.
//!
//! The cell is a plain value. A program with two tasks keeps it in whatever
//! it hands values across with, a watch channel for one, and uses the count
//! to tell a waiter that there is something new.

use crate::calendar::{CalendarInfo, DisplayStatus};
use vstd::prelude::*;

verus! {

/// A single slot in which the most recent status wins. It starts empty, every
/// publish overwrites it, and reading it changes nothing.
#[derive(Debug)]
pub struct SharedStatusCell {
    value: Option<CalendarInfo>,
    version: u64,
}

impl SharedStatusCell {
    /// The status in the slot, if one was ever published.
    pub closed spec fn current(&self) -> Option<DisplayStatus> {
        match self.value {
            Some(info) => Some(info@),
            None => None,
        }
    }

    /// How many times the slot was filled, counted modulo 2^64.
    pub closed spec fn spec_version(&self) -> u64 {
        self.version
    }

    /// The count after one more publish.
    pub open spec fn version_after(version: u64) -> u64 {
        if version == u64::MAX {
            0
        } else {
            (version + 1) as u64
        }
    }

    pub fn new() -> (cell: SharedStatusCell)
        ensures
            cell.current() is None,
            cell.spec_version() == 0,
    {
        SharedStatusCell { value: None, version: 0 }
    }

    /// Puts `value` in the slot, over whatever was there.
    pub fn publish(&mut self, value: CalendarInfo)
        ensures
            final(self).current() == Some(value@),
            final(self).spec_version() == Self::version_after(old(self).spec_version()),
    {
        self.value = Some(value);
        self.version = self.version.wrapping_add(1);
    }

    /// A copy of what the slot holds. The cell is left as it was, so as long
    /// as nothing is published every snapshot is the same.
    pub fn snapshot(&self) -> (copy: Option<CalendarInfo>)
        ensures
            copy is Some == self.current() is Some,
            copy matches Some(info) ==> self.current() == Some(info@),
    {
        match &self.value {
            Some(info) => Some(info.clone()),
            None => None,
        }
    }

    pub fn version(&self) -> (version: u64)
        ensures
            version == self.spec_version(),
    {
        self.version
    }

    /// Whether anything was published since the slot's count was `seen`.
    pub fn changed_since(&self, seen: u64) -> (changed: bool)
        ensures
            changed == (self.spec_version() != seen),
    {
        self.version != seen
    }
}

} // verus!
