use vstd::prelude::*;

verus! {

/// What can go wrong while talking to the session manager.
#[derive(Clone, Debug, PartialEq, Eq)]
pub enum LockHinterError {
    /// A value read over the bus has another type than the one asked for;
    /// both are given as type signatures.
    VariantTypeMismatchError { actual: String, expected: String },
    /// A property dictionary lacks the entry with this key.
    ValueMissingError(String),
    /// A bus call failed; the message is the one the bus library gave.
    GLibError(String),
}

impl LockHinterError {
    /// The error names a dictionary entry with key `key` as missing.
    pub open spec fn is_missing(self, key: Seq<char>) -> bool {
        match self {
            LockHinterError::ValueMissingError(k) => k@ == key,
            _ => false,
        }
    }

    /// The error says that a value of type `actual` stood where `expected` was asked for.
    pub open spec fn is_mismatch(self, actual: Seq<char>, expected: Seq<char>) -> bool {
        match self {
            LockHinterError::VariantTypeMismatchError { actual: a, expected: e } => a@ == actual
                && e@ == expected,
            _ => false,
        }
    }
}

} // verus!
