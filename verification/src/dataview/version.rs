//! The token that guards against answers to superseded requests: every
//! outbound request carries the version that was current when it was issued,
//! and a response is honored only if its version is still the current one.

use vstd::prelude::*;

verus! {

/// A payload tagged with the version of the query it belongs to.
#[derive(Debug, Clone, Copy, PartialEq, Eq)]
pub struct Versioned<T> {
    pub version: u64,
    pub data: T,
}

impl<T> Versioned<T> {
    pub fn new(version: u64, data: T) -> (r: Versioned<T>)
        ensures
            r.version == version,
            r.data == data,
    {
        Versioned { version, data }
    }

    /// A new payload under the same version: the answer to a request is
    /// tagged with the version the request itself carried.
    pub fn with_data<U>(&self, data: U) -> (r: Versioned<U>)
        ensures
            r.version == self.version,
            r.data == data,
    {
        Versioned { version: self.version, data }
    }

    pub fn version(&self) -> (r: u64)
        ensures
            r == self.version,
    {
        self.version
    }

    /// Advances to the next version: everything tagged before the bump is
    /// stale from here on. The counter tops out at its maximum, where a
    /// further bump no longer changes it.
    pub fn bump(&mut self)
        ensures
            final(self).version == if old(self).version < u64::MAX {
                old(self).version + 1
            } else {
                u64::MAX as int
            },
            final(self).data == old(self).data,
    {
        if self.version < u64::MAX {
            self.version = self.version + 1;
        }
    }

    /// Whether a response carrying `version` answers a request of the
    /// current version; a stale one must be dropped.
    pub fn is_current(&self, version: u64) -> (r: bool)
        ensures
            r == (version == self.version),
    {
        version == self.version
    }

    pub fn as_inner(&self) -> (r: &T)
        ensures
            *r == self.data,
    {
        &self.data
    }

    pub fn into_inner(self) -> (r: T)
        ensures
            r == self.data,
    {
        self.data
    }
}

} // verus!
