//! `marshal config unset` — clear a key from one config layer.
use vstd::prelude::*;
use vstd::string::StringExecFns;
use crate::cli::Renderable;
use crate::commands::config::helpers::{arg_as_str, extract_level_flag, level_flag_spec, usage_msg};
use crate::commands::config::LayerWrite;
use crate::config::{
    dotted_name, empty_config, first_of_level, key_of_name, load_of, no_source_msg,
    unknown_key_msg, with_setting, Config, ConfigEdit, ConfigKey, ConfigResolver, LoadedLayer,
};
use crate::config::source::level_name;
use crate::text::views;

verus! {

pub struct ConfigUnset;

pub struct UnsetOutput {
    pub key: String,
    pub level: String,
}

pub open spec fn unset_usage() -> Seq<char> {
    "marshal config unset [--system|--global|--local] <key>"@
}

/// What `config unset` does with `args`: `(key, level, layer index,
/// new layer content)`, or the error it reports.
pub open spec fn unset_spec(args: Seq<Seq<char>>, layers: Seq<LoadedLayer>) -> Result<(Seq<char>, Seq<char>, int, Config), Seq<char>> {
    let (level, skip) = level_flag_spec(args);
    let rest = args.skip(skip);
    if rest.len() < 1 {
        Err(usage_msg(unset_usage()))
    } else if key_of_name(rest[0]) is None {
        Err(unknown_key_msg(rest[0]))
    } else {
        let key = key_of_name(rest[0])->0;
        match first_of_level(layers, level) {
            None => Err(no_source_msg(level)),
            Some(i) => match load_of(layers[i]) {
                Err(e) => Err(e),
                Ok(c) => {
                    let base = match c { Some(x) => x, None => empty_config() };
                    Ok((dotted_name(key), level_name(level), i, with_setting(base, key, None)))
                },
            },
        }
    }
}

impl ConfigUnset {
    /// Parse `config unset [--system|--global|--local] <key>` and
    /// compute the new content of the target layer.
    pub fn run(&self, args: &Vec<String>, resolver: &ConfigResolver) -> (r: Result<(UnsetOutput, LayerWrite), String>)
        ensures
            match unset_spec(views(args@), resolver@) {
                Ok((k, l, i, c)) => r matches Ok((out, w)) && out.key@ == k && out.level@ == l
                    && w.index as int == i && w.content == c,
                Err(e) => r matches Err(m) && m@ == e,
            },
    {
        let (level, rest) = match extract_level_flag(args) {
            Ok(x) => x,
            Err(e) => {
                return Err(e);
            },
        };
        let usage = "marshal config unset [--system|--global|--local] <key>";
        let key_str = match arg_as_str(&rest, 0, usage) {
            Ok(s) => s,
            Err(e) => {
                return Err(e);
            },
        };
        assert(views(rest@)[0] == rest@[0]@);
        let key = match ConfigKey::from_dotted(key_str.as_str()) {
            Ok(k) => k,
            Err(e) => {
                return Err(e);
            },
        };
        let (index, content) = match resolver.mutate(level, ConfigEdit::Clear(key)) {
            Ok(x) => x,
            Err(e) => {
                return Err(e);
            },
        };
        Ok((
            UnsetOutput { key: String::from_str(key.as_dotted()), level: String::from_str(level.as_str()) },
            LayerWrite { index, content },
        ))
    }
}

impl Renderable for UnsetOutput {
    /// Silent on success; the JSON form carries the payload.
    open spec fn rendered(&self) -> Seq<char> {
        Seq::empty()
    }

    fn render_human(&self) -> (r: String) {
        String::new()
    }
}

} // verus!
