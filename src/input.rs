use vstd::prelude::*;

verus! {

/// The value a parameter holds after an input event: a value that parsed
/// replaces the current one, and malformed input leaves the current value
/// in place.
pub open spec fn after_input<T, E>(current: T, parsed: Result<T, E>) -> T {
    match parsed {
        Ok(v) => v,
        Err(_) => current,
    }
}

/// Applies the result of parsing an input field to a parameter.
pub fn apply_input<T, E>(current: T, parsed: Result<T, E>) -> (r: T)
    ensures
        r == after_input(current, parsed),
        parsed is Err ==> r == current,
{
    match parsed {
        Ok(v) => v,
        Err(_) => current,
    }
}

} // verus!
