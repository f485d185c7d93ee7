use vstd::prelude::*;

use crate::emission::{OsLog, SignpostScope};
use crate::error::SignpostError;

verus! {

/// The reserved id that stands for "no id".
pub const SIGNPOST_ID_NULL: u64 = 0;

/// The reserved id that stands for "invalid id".
pub const SIGNPOST_ID_INVALID: u64 = 0xffff_ffff_ffff_ffff;

/// Whether a raw value is one of the two reserved ids.
pub open spec fn is_reserved_raw(value: u64) -> bool {
    value == SIGNPOST_ID_NULL || value == SIGNPOST_ID_INVALID
}

/// A unique identifier for signpost intervals and events.
///
/// Ids tell apart concurrent intervals that share the same log handle and interval
/// name, so that performance tools can match begin and end signposts.
#[derive(Debug, Clone, Copy, PartialEq, Eq, Hash, Structural)]
pub struct SignpostId(u64);

impl View for SignpostId {
    type V = u64;

    closed spec fn view(&self) -> u64 {
        self.0
    }
}

impl SignpostId {
    /// The id whose raw value is `value`.
    pub closed spec fn spec_from_raw(value: u64) -> SignpostId {
        SignpostId(value)
    }

    /// Creates a signpost id from a raw 64-bit value.
    ///
    /// The caller asserts that the value is unique within the matching scope and is
    /// not one of the reserved values ([`SIGNPOST_ID_NULL`], [`SIGNPOST_ID_INVALID`]);
    /// nothing is checked here. See [`SignpostId::try_from_raw`] for a checked form.
    pub fn from_raw(id: u64) -> (r: Self)
        ensures
            r == Self::spec_from_raw(id),
            r@ == id,
    {
        SignpostId(id)
    }

    /// Creates a signpost id from a raw value, refusing the reserved values.
    pub fn try_from_raw(id: u64) -> (r: Result<Self, SignpostError>)
        ensures
            is_reserved_raw(id) ==> r == Err::<Self, SignpostError>(SignpostError::InvalidId),
            !is_reserved_raw(id) ==> r == Ok::<Self, SignpostError>(Self::spec_from_raw(id)),
            r is Ok ==> r->Ok_0@ == id,
    {
        if id == SIGNPOST_ID_NULL || id == SIGNPOST_ID_INVALID {
            Err(SignpostError::InvalidId)
        } else {
            Ok(SignpostId(id))
        }
    }

    /// Returns the raw 64-bit value of this id.
    pub fn raw(self) -> (r: u64)
        ensures
            r == self@,
    {
        self.0
    }

    /// Whether this id avoids both reserved values.
    pub fn is_valid(self) -> (r: bool)
        ensures
            r == !is_reserved_raw(self@),
    {
        self.0 != SIGNPOST_ID_NULL && self.0 != SIGNPOST_ID_INVALID
    }

    /// Creates a signpost id from an object's address.
    ///
    /// `mangled` is the native facility's encoding of the address, with address
    /// randomization removed. Addresses mean nothing in another process, so a log
    /// whose matching scope spans processes refuses the id.
    pub fn from_pointer(log: &OsLog, mangled: u64) -> (r: Result<Self, SignpostError>)
        ensures
            log@.scope == SignpostScope::System ==> r == Err::<Self, SignpostError>(
                SignpostError::InvalidScope,
            ),
            log@.scope != SignpostScope::System ==> r == Ok::<Self, SignpostError>(
                Self::spec_from_raw(mangled),
            ),
            r is Ok ==> r->Ok_0@ == mangled,
    {
        match log.scope() {
            SignpostScope::System => Err(SignpostError::InvalidScope),
            _ => Ok(SignpostId(mangled)),
        }
    }
}

/// Building an id from a raw value and reading it back gives the value again.
pub proof fn lemma_raw_round_trip(value: u64)
    requires
        !is_reserved_raw(value),
    ensures
        SignpostId::spec_from_raw(value)@ == value,
{
}

} // verus!
