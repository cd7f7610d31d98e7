//! `marshal config` — get, set, unset and list configuration keys.
//! Each operation computes its output (and, for `set`/`unset`, the new
//! content of one layer) from the loaded layers.
pub mod get;
pub mod helpers;
pub mod list;
pub mod set;
pub mod unset;

use vstd::prelude::*;
use vstd::string::StringExecFns;
use crate::commands::help::topics::{key_lines, key_lines_spec};
use crate::config::Config;
use crate::text::views;

verus! {

/// The new content of one registered layer, by its index in the
/// resolver, to be saved back to that layer's file.
pub struct LayerWrite {
    pub index: usize,
    pub content: Config,
}

/// The usage text of `marshal config`: its subcommands, every known
/// key with its description, and the layers in precedence order.
pub open spec fn usage_text() -> Seq<char> {
    "marshal config — manage Marshal's configuration.\n\nUsage:\n  git marshal config get [--show-origin] <key>\n  git marshal config set   [--system|--global|--local] <key> <value>\n  git marshal config unset [--system|--global|--local] <key>\n  git marshal config list\n\nKnown keys:\n"@
        + "  "@ + key_lines_spec()[0] + "\n"@
        + "  "@ + key_lines_spec()[1] + "\n"@
        + "\nLevels (precedence: system < global < local):\n  --global (default)  per-user config ($XDG_CONFIG_HOME/marshal/config.toml)\n  --system            machine-wide config (/etc/marshal/config.toml on Unix)\n  --local             per-repo config (<git-dir>/marshal/config.toml)\n"@
}

pub fn usage() -> (r: String)
    ensures
        r@ == usage_text(),
{
    let lines = key_lines();
    assert(lines@.len() == 2) by {
        assert(views(lines@).len() == key_lines_spec().len());
    }
    assert(lines@[0]@ == key_lines_spec()[0]) by {
        assert(views(lines@)[0] == lines@[0]@);
    }
    assert(lines@[1]@ == key_lines_spec()[1]) by {
        assert(views(lines@)[1] == lines@[1]@);
    }
    let mut r = String::from_str("marshal config — manage Marshal's configuration.\n\nUsage:\n  git marshal config get [--show-origin] <key>\n  git marshal config set   [--system|--global|--local] <key> <value>\n  git marshal config unset [--system|--global|--local] <key>\n  git marshal config list\n\nKnown keys:\n");
    r.append("  ");
    r.append(lines[0].as_str());
    r.append("\n");
    r.append("  ");
    r.append(lines[1].as_str());
    r.append("\n");
    r.append("\nLevels (precedence: system < global < local):\n  --global (default)  per-user config ($XDG_CONFIG_HOME/marshal/config.toml)\n  --system            machine-wide config (/etc/marshal/config.toml on Unix)\n  --local             per-repo config (<git-dir>/marshal/config.toml)\n");
    r
}

/// What `marshal config <other>` answers for a subcommand it does not know.
pub fn unknown_subcommand(other: &str) -> (r: String)
    ensures
        r@ == "marshal config: unknown subcommand '"@ + other@ + "'. Expected get, set, unset, or list."@,
{
    let mut m = String::from_str("marshal config: unknown subcommand '");
    m.append(other);
    m.append("'. Expected get, set, unset, or list.");
    m
}

} // verus!
