//! Fallback correction: wrap any corrector and never fail.
//!
//! When the underlying corrector fails for any reason, [`FallbackCorrector`]
//! returns the original raw text as if it were a successful correction.
//! This keeps the pipeline functional when no correction backend is
//! reachable.

use vstd::prelude::*;

use crate::corrector::{correction_view, LlmCorrector, LlmError};

verus! {

/// A transparent wrapper around any [`LlmCorrector`] that never returns an
/// error: on failure it yields `raw` unchanged.
pub struct FallbackCorrector<C: LlmCorrector> {
    inner: C,
}

impl<C: LlmCorrector> FallbackCorrector<C> {
    /// Wrap `inner` with fallback behaviour.
    pub fn new(inner: C) -> (r: Self)
        ensures
            r.inner_spec() == inner,
    {
        FallbackCorrector { inner }
    }

    /// The wrapped corrector, as a spec value.
    pub closed spec fn inner_spec(&self) -> C {
        self.inner
    }

    /// Return a reference to the wrapped corrector.
    pub fn inner(&self) -> (r: &C)
        ensures
            r == self.inner_spec(),
    {
        &self.inner
    }
}

impl<C: LlmCorrector> LlmCorrector for FallbackCorrector<C> {
    /// The wrapped corrector's outcome, with every failure replaced by the
    /// raw text.
    open spec fn correct_spec(&self, raw: Seq<char>, context: Option<Seq<char>>) -> Result<
        Seq<char>,
        LlmError,
    > {
        match self.inner_spec().correct_spec(raw, context) {
            Ok(corrected) => Ok(corrected),
            Err(_) => Ok(raw),
        }
    }

    /// Attempt correction through the wrapped corrector; return `raw`
    /// unchanged if any error occurs.  This implementation never returns an
    /// error.
    fn correct(&self, raw: &str, context: Option<&str>) -> (r: Result<String, LlmError>) {
        match self.inner.correct(raw, context) {
            Ok(corrected) => Ok(corrected),
            Err(_) => Ok(raw.to_owned()),
        }
    }
}

/// A fallback-wrapped corrector never fails: whatever the wrapped corrector
/// does, correction yields a result.
pub proof fn lemma_fallback_never_fails<C: LlmCorrector>(
    f: &FallbackCorrector<C>,
    raw: Seq<char>,
    context: Option<Seq<char>>,
)
    ensures
        f.correct_spec(raw, context) is Ok,
{
}

} // verus!
