//! Concrete help topics, and the registration of the default set.
pub mod config;
pub mod hints;
pub mod modernize;
pub mod overview;
pub mod what_now;

use vstd::prelude::*;
use vstd::string::StringExecFns;
use crate::commands::help::{Registry, Topic};
use crate::config::{dotted_name, key_description, ConfigKey};
use crate::text::{pad_right, padded, views};

verus! {

/// One line per known key: the name padded to 25 columns, then its
/// description.
pub open spec fn key_lines_spec() -> Seq<Seq<char>> {
    seq![
        padded(dotted_name(ConfigKey::ModernizeTips), 25) + "  "@ + key_description(ConfigKey::ModernizeTips),
        padded(dotted_name(ConfigKey::ModernizeRewrite), 25) + "  "@ + key_description(ConfigKey::ModernizeRewrite),
    ]
}

pub fn key_lines() -> (r: Vec<String>)
    ensures
        views(r@) == key_lines_spec(),
{
    let keys = ConfigKey::all();
    let mut r: Vec<String> = Vec::new();
    let mut i: usize = 0;
    while i < keys.len()
        invariant
            i <= keys.len(),
            keys@ == seq![ConfigKey::ModernizeTips, ConfigKey::ModernizeRewrite],
            views(r@) == key_lines_spec().subrange(0, i as int),
        decreases keys.len() - i,
    {
        let k = keys[i];
        let mut line = pad_right(k.as_dotted(), 25);
        line.append("  ");
        line.append(k.description());
        assert(line@ == key_lines_spec()[i as int]);
        let ghost before = r@;
        r.push(line);
        assert(r@ == before.push(line));
        assert(views(r@) =~= views(before).push(line@));
        i += 1;
        assert(views(r@) =~= key_lines_spec().subrange(0, i as int));
    }
    assert(key_lines_spec().subrange(0, 2) =~= key_lines_spec());
    r
}

/// Register every default help topic.
pub fn register_defaults(registry: &mut Registry)
    ensures
        final(registry)@ == old(registry)@.push(Topic::Overview),
{
    registry.register(Topic::Overview);
}

} // verus!
