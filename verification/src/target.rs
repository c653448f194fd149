//! Validation and normalization of the user's desired prefix against the
//! base-58 alphabet, and the match predicate every worker evaluates.

use vstd::prelude::*;
use crate::codec::{fold_seq, is_b58_byte, maybe_bs58_aware_lowercase};
use crate::errors::VanityError;

verus! {

/// `p` is a prefix of `s`.
pub open spec fn spec_starts_with(s: Seq<u8>, p: Seq<u8>) -> bool {
    p.len() <= s.len() && s.subrange(0, p.len() as int) == p
}

/// Exec check that `b` belongs to the 58-symbol alphabet.
pub fn is_b58_byte_exec(b: u8) -> (r: bool)
    ensures
        r == is_b58_byte(b),
{
    (49 <= b && b <= 57) || (65 <= b && b <= 90 && b != 73 && b != 79) || (97 <= b && b <= 122
        && b != 108)
}

/// Exec check that `prefix` is a prefix of `text`.
pub fn starts_with_bytes(text: &Vec<u8>, prefix: &Vec<u8>) -> (r: bool)
    ensures
        r == spec_starts_with(text@, prefix@),
{
    if prefix.len() > text.len() {
        return false;
    }
    let mut i: usize = 0;
    while i < prefix.len()
        invariant
            prefix@.len() <= text@.len(),
            i <= prefix@.len(),
            forall|j: int| 0 <= j < i ==> text@[j] == prefix@[j],
        decreases prefix@.len() - i,
    {
        if text[i] != prefix[i] {
            return false;
        }
        i += 1;
    }
    proof {
        assert(text@.subrange(0, prefix@.len() as int) =~= prefix@);
    }
    true
}

/// The validated, normalized search target. Invariant: every byte of the
/// raw prefix is in the 58-symbol alphabet, and the normalized prefix is the
/// raw prefix case-folded exactly when the search is case-insensitive.
#[derive(Debug)]
pub struct TargetSpec {
    pub raw_prefix: Vec<u8>,
    pub case_insensitive: bool,
    pub normalized_prefix: Vec<u8>,
}

impl TargetSpec {
    /// Well-formedness: established by `new`, preserved thereafter (the
    /// value is immutable once constructed).
    pub open spec fn wf(self) -> bool {
        &&& forall|i: int|
            0 <= i < self.raw_prefix@.len() ==> is_b58_byte(#[trigger] self.raw_prefix@[i])
        &&& self.normalized_prefix@ == fold_seq(self.raw_prefix@, self.case_insensitive)
    }

    /// The match predicate: the candidate text, folded exactly as the target
    /// was, starts with the normalized prefix.
    pub open spec fn spec_matches(self, text: Seq<u8>) -> bool {
        spec_starts_with(fold_seq(text, self.case_insensitive), self.normalized_prefix@)
    }

    /// Validate the raw prefix against the base-58 alphabet and normalize
    /// it. Fails with `InvalidTarget`, carrying the first offending byte,
    /// exactly when some byte of the prefix is outside the alphabet.
    pub fn new(raw_prefix: Vec<u8>, case_insensitive: bool) -> (r: Result<TargetSpec, VanityError>)
        ensures
            match r {
                Ok(t) => {
                    &&& t.wf()
                    &&& t.raw_prefix@ == raw_prefix@
                    &&& t.case_insensitive == case_insensitive
                    &&& forall|i: int|
                        0 <= i < raw_prefix@.len() ==> is_b58_byte(#[trigger] raw_prefix@[i])
                },
                Err(e) => exists|i: int|
                    {
                        &&& 0 <= i < raw_prefix@.len()
                        &&& !is_b58_byte(raw_prefix@[i])
                        &&& forall|j: int| 0 <= j < i ==> is_b58_byte(#[trigger] raw_prefix@[j])
                        &&& e == VanityError::InvalidTarget(raw_prefix@[i])
                    },
            },
    {
        let mut i: usize = 0;
        while i < raw_prefix.len()
            invariant
                i <= raw_prefix@.len(),
                forall|j: int| 0 <= j < i ==> is_b58_byte(#[trigger] raw_prefix@[j]),
            decreases raw_prefix@.len() - i,
        {
            let b = raw_prefix[i];
            if !is_b58_byte_exec(b) {
                return Err(VanityError::InvalidTarget(b));
            }
            i += 1;
        }
        let normalized_prefix = maybe_bs58_aware_lowercase(&raw_prefix, case_insensitive);
        Ok(TargetSpec { raw_prefix, case_insensitive, normalized_prefix })
    }

    /// Evaluate the match predicate on one candidate's encoded text.
    pub fn matches(&self, text: &Vec<u8>) -> (r: bool)
        ensures
            r == self.spec_matches(text@),
    {
        let folded = maybe_bs58_aware_lowercase(text, self.case_insensitive);
        starts_with_bytes(&folded, &self.normalized_prefix)
    }
}

/// Validate the target prefix and return its normalized text: the raw text
/// folded when `case_insensitive` is set. Fails with `InvalidTarget` exactly
/// when some byte lies outside the base-58 alphabet.
pub fn get_validated_target(target: &Vec<u8>, case_insensitive: bool) -> (r: Result<
    Vec<u8>,
    VanityError,
>)
    ensures
        match r {
            Ok(t) => {
                &&& t@ == fold_seq(target@, case_insensitive)
                &&& forall|i: int|
                    0 <= i < target@.len() ==> is_b58_byte(#[trigger] target@[i])
            },
            Err(e) => exists|i: int|
                {
                    &&& 0 <= i < target@.len()
                    &&& !is_b58_byte(target@[i])
                    &&& e == VanityError::InvalidTarget(target@[i])
                },
        },
{
    let copy: Vec<u8> = vstd::slice::slice_to_vec(target.as_slice());
    match TargetSpec::new(copy, case_insensitive) {
        Ok(t) => Ok(t.normalized_prefix),
        Err(e) => Err(e),
    }
}

} // verus!
