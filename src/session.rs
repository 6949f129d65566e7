use vstd::prelude::*;
use crate::error::LockHinterError;

verus! {

/// One property value of a session object, reduced to what is read from it.
#[derive(Clone, Debug, PartialEq, Eq)]
pub enum PropertyValue {
    /// A string (type signature `s`).
    Text(String),
    /// A boolean (type signature `b`).
    Flag(bool),
    /// A value of any other type, given by its type signature.
    Other(String),
}

/// A snapshot of a session: its state word and its `LockedHint`.
#[derive(Clone, Debug, PartialEq, Eq)]
pub struct SessionState {
    pub state: String,
    pub locked_hint: bool,
}

/// The type signature of a property value.
pub open spec fn signature_of(v: PropertyValue) -> Seq<char> {
    match v {
        PropertyValue::Text(_) => "s"@,
        PropertyValue::Flag(_) => "b"@,
        PropertyValue::Other(t) => t@,
    }
}

/// The value that a dictionary given as a list of entries holds under `key`;
/// where the key occurs more than once, the last entry counts.
pub open spec fn lookup(props: Seq<(String, PropertyValue)>, key: Seq<char>) -> Option<
    PropertyValue,
>
    decreases props.len(),
{
    if props.len() == 0 {
        None
    } else if props.last().0@ == key {
        Some(props.last().1)
    } else {
        lookup(props.drop_last(), key)
    }
}

/// The index of the entry that `lookup` reads, if any.
pub fn find_property(props: &Vec<(String, PropertyValue)>, key: &String) -> (r: Option<usize>)
    ensures
        match r {
            None => lookup(props@, key@) is None,
            Some(i) => i < props@.len() && props@[i as int].0@ == key@
                && lookup(props@, key@) == Some(props@[i as int].1),
        },
{
    let mut n: usize = props.len();
    assert(props@.take(n as int) =~= props@);
    while n > 0
        invariant
            n <= props@.len(),
            lookup(props@, key@) == lookup(props@.take(n as int), key@),
        decreases n,
    {
        let ghost pre = props@.take(n as int);
        assert(pre.drop_last() =~= props@.take(n - 1));
        if props[n - 1].0 == *key {
            return Some(n - 1);
        }
        n = n - 1;
    }
    None
}

fn type_signature(v: &PropertyValue) -> (r: String)
    ensures
        r@ == signature_of(*v),
{
    match v {
        PropertyValue::Text(_) => "s".to_owned(),
        PropertyValue::Flag(_) => "b".to_owned(),
        PropertyValue::Other(t) => t.clone(),
    }
}

/// Reads the state word and the `LockedHint` of a session from the dictionary
/// of its properties. The state is read first: a missing or mistyped `State`
/// is reported before anything about `LockedHint`.
pub fn session_state_from_properties(props: &Vec<(String, PropertyValue)>) -> (r: Result<
    SessionState,
    LockHinterError,
>)
    ensures
        match lookup(props@, "State"@) {
            None => r is Err && r->Err_0.is_missing("State"@),
            Some(PropertyValue::Text(s)) => match lookup(props@, "LockedHint"@) {
                None => r is Err && r->Err_0.is_missing("LockedHint"@),
                Some(PropertyValue::Flag(b)) => r is Ok && r->Ok_0.state@ == s@
                    && r->Ok_0.locked_hint == b,
                Some(v) => r is Err && r->Err_0.is_mismatch(signature_of(v), "b"@),
            },
            Some(v) => r is Err && r->Err_0.is_mismatch(signature_of(v), "s"@),
        },
{
    let state_key = "State".to_owned();
    let state = match find_property(props, &state_key) {
        None => {
            return Err(LockHinterError::ValueMissingError(state_key));
        },
        Some(i) => match &props[i].1 {
            PropertyValue::Text(s) => s.clone(),
            v => {
                return Err(
                    LockHinterError::VariantTypeMismatchError {
                        actual: type_signature(v),
                        expected: "s".to_owned(),
                    },
                );
            },
        },
    };
    let hint_key = "LockedHint".to_owned();
    let locked_hint = match find_property(props, &hint_key) {
        None => {
            return Err(LockHinterError::ValueMissingError(hint_key));
        },
        Some(i) => match &props[i].1 {
            PropertyValue::Flag(b) => *b,
            v => {
                return Err(
                    LockHinterError::VariantTypeMismatchError {
                        actual: type_signature(v),
                        expected: "b".to_owned(),
                    },
                );
            },
        },
    };
    Ok(SessionState { state, locked_hint })
}

} // verus!
