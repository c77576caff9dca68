use vstd::prelude::*;

verus! {

/// Caller-supplied tag accompanying every capture request.  The tag selects
/// both the cache-refresh policy and the output sink of the request; the two
/// are never chosen independently.
#[derive(Clone, Copy, PartialEq, Eq, Structural, Debug)]
pub enum ActionTag {
    /// Force a fresh capture; the request yields a base64 data URI.
    Init,
    /// Reuse the cached frame if present; the PNG bytes go to a file.
    Save,
    /// Reuse the cached frame if present; the request yields a base64 data URI.
    Fasten,
    /// Reuse the cached frame if present; the request yields raw PNG bytes.
    Copy,
}

/// A tag unconditionally invalidates the cached frame exactly when it is
/// `Init`.
pub open spec fn spec_forces_refresh(tag: ActionTag) -> bool {
    tag == ActionTag::Init
}

impl ActionTag {
    /// Whether this tag unconditionally invalidates the cached frame.
    pub fn forces_refresh(&self) -> (b: bool)
        ensures
            b == spec_forces_refresh(*self),
    {
        match self {
            ActionTag::Init => true,
            _ => false,
        }
    }
}

} // verus!
