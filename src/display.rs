use vstd::prelude::*;

verus! {

/// Number of fractional digits shown when the caller asks for none in
/// particular.
pub const DEFAULT_PRECISION: usize = 2;

/// The number of fractional digits used to display a value: the one asked
/// for, else `DEFAULT_PRECISION`.
pub fn display_precision(precision: Option<usize>) -> (r: usize)
    ensures
        r == (match precision {
            Some(p) => p,
            None => DEFAULT_PRECISION,
        }),
{
    match precision {
        Some(p) => p,
        None => DEFAULT_PRECISION,
    }
}

/// The value read back from a display string: the parsed value when the
/// string parsed, else the range's `min`. A missing string counts as one
/// that did not parse.
pub fn parsed_or_min<T>(parsed: Option<T>, min: T) -> (r: T)
    ensures
        r == (match parsed {
            Some(v) => v,
            None => min,
        }),
{
    match parsed {
        Some(v) => v,
        None => min,
    }
}

} // verus!
