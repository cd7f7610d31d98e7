//! `marshal config set` — write a key/value pair to a config layer.
use vstd::prelude::*;
use vstd::string::StringExecFns;
use crate::cli::Renderable;
use crate::commands::config::helpers::{arg_as_str, extract_level_flag, level_flag_spec, usage_msg};
use crate::commands::config::LayerWrite;
use crate::config::{
    dotted_name, empty_config, parse_bool_spec, with_setting, Config, first_of_level, key_of_name, load_of, no_source_msg,
    unknown_key_msg, ConfigEdit, ConfigKey, ConfigResolver, LoadedLayer,
};
use crate::config::source::level_name;
use crate::text::views;

verus! {

pub struct ConfigSet;

pub struct SetOutput {
    pub key: String,
    pub value: String,
    pub level: String,
}

pub open spec fn set_usage() -> Seq<char> {
    "marshal config set [--system|--global|--local] <key> <value>"@
}

/// What `config set` does with `args`: `(key, value, level, layer
/// index, new layer content)`, or the error it reports.
pub open spec fn set_spec(args: Seq<Seq<char>>, layers: Seq<LoadedLayer>) -> Result<(Seq<char>, Seq<char>, Seq<char>, int, Config), Seq<char>> {
    let (level, skip) = level_flag_spec(args);
    let rest = args.skip(skip);
    if rest.len() < 2 {
        Err(usage_msg(set_usage()))
    } else if key_of_name(rest[0]) is None {
        Err(unknown_key_msg(rest[0]))
    } else {
        let key = key_of_name(rest[0])->0;
        match first_of_level(layers, level) {
            None => Err(no_source_msg(level)),
            Some(i) => match load_of(layers[i]) {
                Err(e) => Err(e),
                Ok(c) => {
                    let base = match c { Some(x) => x, None => empty_config() };
                    match parse_bool_spec(rest[1]) {
                        Ok(b) => Ok((dotted_name(key), rest[1], level_name(level), i,
                            with_setting(base, key, Some(b)))),
                        Err(e) => Err(e),
                    }
                },
            },
        }
    }
}

impl ConfigSet {
    /// Parse `config set [--system|--global|--local] <key> <value>` and
    /// compute the new content of the target layer, to be written back.
    pub fn run(&self, args: &Vec<String>, resolver: &ConfigResolver) -> (r: Result<(SetOutput, LayerWrite), String>)
        ensures
            match set_spec(views(args@), resolver@) {
                Ok((k, v, l, i, c)) => r matches Ok((out, w)) && out.key@ == k && out.value@ == v
                    && out.level@ == l && w.index as int == i && w.content == c,
                Err(e) => r matches Err(m) && m@ == e,
            },
    {
        let (level, rest) = match extract_level_flag(args) {
            Ok(x) => x,
            Err(e) => {
                return Err(e);
            },
        };
        let usage = "marshal config set [--system|--global|--local] <key> <value>";
        let key_str = match arg_as_str(&rest, 0, usage) {
            Ok(s) => s,
            Err(e) => {
                return Err(e);
            },
        };
        let value_str = match arg_as_str(&rest, 1, usage) {
            Ok(s) => s,
            Err(e) => {
                return Err(e);
            },
        };
        assert(views(rest@)[0] == rest@[0]@);
        assert(views(rest@)[1] == rest@[1]@);
        let key = match ConfigKey::from_dotted(key_str.as_str()) {
            Ok(k) => k,
            Err(e) => {
                return Err(e);
            },
        };
        let value_copy = value_str.clone();
        let (index, content) = match resolver.mutate(level, ConfigEdit::Assign(key, value_str)) {
            Ok(x) => x,
            Err(e) => {
                return Err(e);
            },
        };
        Ok((
            SetOutput {
                key: String::from_str(key.as_dotted()),
                value: value_copy,
                level: String::from_str(level.as_str()),
            },
            LayerWrite { index, content },
        ))
    }
}

impl Renderable for SetOutput {
    /// Silent on success; the JSON form carries the payload.
    open spec fn rendered(&self) -> Seq<char> {
        Seq::empty()
    }

    fn render_human(&self) -> (r: String) {
        String::new()
    }
}

} // verus!
