//! The per-frame extraction step: republishes the current application-side
//! parameter value into the render-side store.
//!
//! The host scheduler calls [`extract_atmosphere`] once per frame, at a
//! synchronization point where the application side is not mutating the
//! value. The step is a pure synchronous copy: the store afterwards holds
//! either its previous complete value (nothing configured) or a complete
//! copy of the current application-side value — never a mixture.

use crate::params::Atmosphere;
use vstd::prelude::*;

verus! {

/// What one extraction step leaves in the render-side store: the current
/// application-side value if one is configured, otherwise the store's
/// previous content, untouched.
pub open spec fn extract_step(
    source: Option<Atmosphere>,
    store: Option<Atmosphere>,
) -> Option<Atmosphere> {
    match source {
        Option::Some(a) => Option::Some(a),
        Option::None => store,
    }
}

/// Runs one extraction step.
///
/// `source` is the application-visible state (`None` while no sky is
/// configured); `store` is the render-side store. Absence of a configured
/// value is not an error: the step is then a no-op and the store keeps its
/// previous value. The copy is independent of the source: the store never
/// aliases the application-side value.
pub fn extract_atmosphere(source: &Option<Atmosphere>, store: &mut Option<Atmosphere>)
    ensures
        *final(store) == extract_step(*source, *old(store)),
{
    match source {
        Option::Some(a) => {
            *store = Option::Some(*a);
        }
        Option::None => {}
    }
}

/// Law: extraction with no configured value leaves the render-side store
/// untouched — no default is substituted.
pub proof fn lemma_extract_absent(store: Option<Atmosphere>)
    ensures
        extract_step(Option::None, store) == store,
{
}

/// Law: two extraction steps in sequence leave the render-side store holding
/// exactly the second configured value, whatever the store held before and
/// whatever the first value was.
pub proof fn lemma_extract_latest_wins(
    first: Atmosphere,
    second: Atmosphere,
    store: Option<Atmosphere>,
)
    ensures
        extract_step(Option::Some(second), extract_step(Option::Some(first), store))
            == Option::Some(second),
{
}

} // verus!
