use vstd::prelude::*;

use crate::types::Identity;

verus! {

/// Per-identity whitelist record.  `first_swap_timestamp` is stamped exactly
/// once, on the identity's first swap after enrolment, and opens the
/// discounted-fee window.
#[derive(Clone, Copy, PartialEq, Eq, Structural, Debug)]
pub struct Whitelist {
    pub creator: Identity,
    pub first_swap_timestamp: i64,
    /// 1 when the identity is enrolled, 0 otherwise.
    pub is_allow: u8,
}

impl Whitelist {
    /// Whether `time_stamp` still falls within `limit_timestamp` seconds of
    /// the recorded first swap (inclusive boundary).
    pub open spec fn spec_in_window(self, limit_timestamp: int, time_stamp: int) -> bool {
        self.first_swap_timestamp + limit_timestamp >= time_stamp
    }

    /// Executable counterpart of [`Whitelist::spec_in_window`]; the sum is
    /// taken at 128-bit width, so no timestamp pair can overflow it.
    pub fn is_whitelister(&self, limit_timestamp: i64, time_stamp: i64) -> (r: bool)
        ensures
            r == self.spec_in_window(limit_timestamp as int, time_stamp as int),
    {
        let last_time_stamp: i128 = self.first_swap_timestamp as i128 + limit_timestamp as i128;
        last_time_stamp >= time_stamp as i128
    }

    /// Enrols `new_whitelister`.  Only a fresh record (allow flag still
    /// unset) is written; enrolling twice changes nothing.
    pub fn add_wl(&mut self, new_whitelister: Identity)
        ensures
            old(self).is_allow == 0 ==> *final(self) == (Whitelist {
                creator: new_whitelister,
                first_swap_timestamp: 0,
                is_allow: 1,
            }),
            old(self).is_allow != 0 ==> *final(self) == *old(self),
    {
        if self.is_allow == 0 {
            self.creator = new_whitelister;
            self.is_allow = 1;
            self.first_swap_timestamp = 0;
        }
    }

    /// Resolves the platform fee tier for a swap happening at `now`.
    ///
    /// An enrolled identity whose first-swap timestamp is still zero gets it
    /// stamped with `now` before the window is evaluated, so the very first
    /// swap is already eligible for the discount (whenever the window length
    /// is not negative).  Returns true when the discounted rate applies.
    pub fn resolve_fee_tier(&mut self, limit_timestamp: i64, now: i64) -> (r: bool)
        ensures
            *final(self) == (Whitelist {
                first_swap_timestamp: if old(self).is_allow == 1 && old(
                    self,
                ).first_swap_timestamp == 0 {
                    now
                } else {
                    old(self).first_swap_timestamp
                },
                ..*old(self)
            }),
            r == (old(self).is_allow == 1 && final(self).spec_in_window(
                limit_timestamp as int,
                now as int,
            )),
    {
        if self.is_allow == 1 && self.first_swap_timestamp == 0 {
            self.first_swap_timestamp = now;
        }
        if self.is_allow == 1 {
            self.is_whitelister(limit_timestamp, now)
        } else {
            false
        }
    }
}

} // verus!
