//! Concrete advice rules. Registration order is search order: the most
//! specific situation first, the catch-all `clean` rule last.
pub mod branch_state;
pub mod clean;
pub mod conflict;
pub mod in_progress;
pub mod sync;
pub mod uncommitted;

use vstd::prelude::*;
use crate::commands::what_now::{Registry, Rule};

verus! {

/// The advice rules in search order: the most specific situation
/// first, the catch-all `clean` rule last, so every repository state
/// gets an advice.
pub open spec fn default_rules() -> Seq<Rule> {
    seq![
        Rule::MergeConflict,
        Rule::InProgress,
        Rule::InitialState,
        Rule::DetachedHead,
        Rule::UncommittedChanges,
        Rule::Diverged,
        Rule::Behind,
        Rule::Ahead,
        Rule::Clean,
    ]
}

/// Register the canonical rules, in priority order, after whatever
/// the registry already holds.
pub fn register_defaults(registry: &mut Registry)
    ensures
        final(registry)@ == old(registry)@ + default_rules(),
{
    let ghost start = registry@;
    registry.register(Rule::MergeConflict);
    registry.register(Rule::InProgress);
    registry.register(Rule::InitialState);
    registry.register(Rule::DetachedHead);
    registry.register(Rule::UncommittedChanges);
    registry.register(Rule::Diverged);
    registry.register(Rule::Behind);
    registry.register(Rule::Ahead);
    registry.register(Rule::Clean);
    assert(registry@ =~= start + default_rules());
}

} // verus!
