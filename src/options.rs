//! Decoding of the host's loosely typed option shapes into tagged values.
use vstd::prelude::*;
use vstd::string::StrSliceExecFns;

verus! {

/// Why a host request was refused.
#[derive(Debug, Clone, PartialEq, Eq)]
pub enum BindingError {
    /// The request's arguments have a shape that has no meaning.
    InvalidArgument,
    /// The storage engine failed; the text is its diagnostic.
    EngineError(String),
}

/// A setting that may be left to the engine, switched off, or set to a value.
#[derive(Debug, Clone, PartialEq, Eq)]
pub enum TriState<T> {
    Unspecified,
    Disabled,
    EnabledWith(T),
}

/// How the engine reclaims segments.
#[derive(Debug, Clone, Copy, PartialEq, Eq)]
pub enum SegmentMode {
    Linear,
    Gc,
}

/// The host writes a tri-state setting as an optional `(enabled, value)` pair;
/// it is well formed when the value is there exactly when the flag is set.
pub open spec fn tri_state_well_formed<T>(raw: Option<(bool, Option<T>)>) -> bool {
    match raw {
        None => true,
        Some((enabled, value)) => enabled == (value is Some),
    }
}

/// The meaning of a well-formed tri-state pair.
pub open spec fn tri_state_of<T>(raw: Option<(bool, Option<T>)>) -> TriState<T> {
    match raw {
        None => TriState::Unspecified,
        Some((_, None)) => TriState::Disabled,
        Some((_, Some(v))) => TriState::EnabledWith(v),
    }
}

/// Decodes a tri-state pair: `None` leaves the default, `(false, None)` turns
/// the setting off, `(true, Some(v))` sets it; the two other pairings
/// contradict themselves and are refused.
pub fn decode_tri_state<T>(raw: Option<(bool, Option<T>)>) -> (r: Result<TriState<T>, BindingError>)
    ensures
        r is Ok <==> tri_state_well_formed(raw),
        r matches Err(e) ==> e == BindingError::InvalidArgument,
        r matches Ok(t) ==> t == tri_state_of(raw),
{
    match raw {
        None => Ok(TriState::Unspecified),
        Some((true, Some(v))) => Ok(TriState::EnabledWith(v)),
        Some((false, None)) => Ok(TriState::Disabled),
        Some((true, None)) => Err(BindingError::InvalidArgument),
        Some((false, Some(_))) => Err(BindingError::InvalidArgument),
    }
}

/// The host's tag for an unspecified segment mode.
pub open spec fn nil_tag() -> Seq<char> {
    seq!['n', 'i', 'l']
}

/// The host's tag for linear segment reclamation.
pub open spec fn linear_tag() -> Seq<char> {
    seq!['l', 'i', 'n', 'e', 'a', 'r']
}

/// The host's tag for garbage-collected segment reclamation.
pub open spec fn gc_tag() -> Seq<char> {
    seq!['g', 'c']
}

/// Whether a segment mode tag is one of the three known ones.
pub open spec fn segment_tag_known(tag: Seq<char>) -> bool {
    tag == nil_tag() || tag == linear_tag() || tag == gc_tag()
}

/// The segment mode that a known tag stands for.
pub open spec fn segment_mode_of(tag: Seq<char>) -> Option<SegmentMode> {
    if tag == linear_tag() {
        Some(SegmentMode::Linear)
    } else if tag == gc_tag() {
        Some(SegmentMode::Gc)
    } else {
        None
    }
}

/// Character-by-character comparison of two strings.
fn same_text(a: &str, b: &str) -> (r: bool)
    ensures
        r == (a@ == b@),
{
    let n = a.unicode_len();
    if n != b.unicode_len() {
        return false;
    }
    let mut i: usize = 0;
    while i < n
        invariant
            n == a@.len(),
            n == b@.len(),
            i <= n,
            forall|j: int| 0 <= j < i ==> a@[j] == b@[j],
        decreases n - i,
    {
        if a.get_char(i) != b.get_char(i) {
            return false;
        }
        i = i + 1;
    }
    assert(a@ =~= b@);
    true
}

/// Decodes a segment mode tag: `nil` leaves the engine's default, `linear`
/// and `gc` pick a mode, and any other tag is refused.
pub fn decode_segment_mode(tag: &str) -> (r: Result<Option<SegmentMode>, BindingError>)
    ensures
        r is Ok <==> segment_tag_known(tag@),
        r matches Err(e) ==> e == BindingError::InvalidArgument,
        r matches Ok(m) ==> m == segment_mode_of(tag@),
{
    proof {
        reveal_strlit("linear");
        reveal_strlit("gc");
        reveal_strlit("nil");
    }
    assert("linear"@ =~= linear_tag());
    assert("gc"@ =~= gc_tag());
    assert("nil"@ =~= nil_tag());
    if same_text(tag, "linear") {
        Ok(Some(SegmentMode::Linear))
    } else if same_text(tag, "gc") {
        Ok(Some(SegmentMode::Gc))
    } else if same_text(tag, "nil") {
        Ok(None)
    } else {
        Err(BindingError::InvalidArgument)
    }
}

} // verus!
