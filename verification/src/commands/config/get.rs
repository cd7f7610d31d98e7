//! `marshal config get` — read one config key's effective value.
use vstd::prelude::*;
use vstd::string::StringExecFns;
use crate::cli::Renderable;
use crate::commands::config::helpers::{arg_as_str, usage_msg};
use crate::config::{
    bool_text, dotted_name, effective_spec, effective_value, key_of_name, origin_spec,
    unknown_key_msg, ConfigKey, ConfigResolver, LoadedLayer,
};
use crate::config::source::level_name;
use crate::text::{str_eq, views};

verus! {

pub struct ConfigGet;

pub struct GetOutput {
    pub key: String,
    pub value: String,
    /// `Some(level)` under `--show-origin` (`system` / `global` /
    /// `local`, or `default` when no layer sets the key).
    pub origin: Option<String>,
}

pub open spec fn get_usage() -> Seq<char> {
    "marshal config get [--show-origin] <key>"@
}

/// `(key, value, origin)` that `config get` reports for `args`, given
/// the loaded layers.
pub open spec fn get_spec(args: Seq<Seq<char>>, layers: Seq<LoadedLayer>) -> Result<(Seq<char>, Seq<char>, Option<Seq<char>>), Seq<char>> {
    let show_origin = args.len() > 0 && args[0] == "--show-origin"@;
    let rest = if show_origin { args.skip(1) } else { args };
    if rest.len() == 0 {
        Err(usage_msg(get_usage()))
    } else if key_of_name(rest[0]) is None {
        Err(unknown_key_msg(rest[0]))
    } else {
        let key = key_of_name(rest[0])->0;
        let from_effective = match effective_spec(layers) {
            Ok(c) => Ok(bool_text(effective_value(c, key))),
            Err(e) => Err(e),
        };
        if show_origin {
            match origin_spec(layers, key) {
                Err(e) => Err(e),
                Ok(Some((level, v))) => Ok((dotted_name(key), v, Some(level_name(level)))),
                Ok(None) => match from_effective {
                    Ok(v) => Ok((dotted_name(key), v, Some("default"@))),
                    Err(e) => Err(e),
                },
            }
        } else {
            match from_effective {
                Ok(v) => Ok((dotted_name(key), v, None)),
                Err(e) => Err(e),
            }
        }
    }
}

pub open spec fn opt_text(o: Option<String>) -> Option<Seq<char>> {
    match o {
        Some(s) => Some(s@),
        None => None,
    }
}

impl ConfigGet {
    /// Resolve `config get [--show-origin] <key>` against the layers
    /// of `resolver`.
    pub fn run(&self, args: &Vec<String>, resolver: &ConfigResolver) -> (r: Result<GetOutput, String>)
        ensures
            match get_spec(views(args@), resolver@) {
                Ok((k, v, o)) => r matches Ok(out) && out.key@ == k && out.value@ == v && opt_text(out.origin) == o,
                Err(e) => r matches Err(m) && m@ == e,
            },
    {
        let ghost vs = views(args@);
        let show_origin = args.len() > 0 && str_eq(args[0].as_str(), "--show-origin");
        if args.len() > 0 {
            assert(vs[0] == args[0]@);
        }
        let skip: usize = if show_origin { 1 } else { 0 };
        let usage = "marshal config get [--show-origin] <key>";
        let key_str = match arg_as_str(args, skip, usage) {
            Ok(s) => s,
            Err(e) => {
                return Err(e);
            },
        };
        let ghost rest = if show_origin { vs.skip(1) } else { vs };
        assert(rest.len() == vs.len() - skip);
        if skip < args.len() {
            assert(rest[0] == vs[skip as int]);
        }
        let key = match ConfigKey::from_dotted(key_str.as_str()) {
            Ok(k) => k,
            Err(e) => {
                return Err(e);
            },
        };
        let key_label = String::from_str(key.as_dotted());
        if show_origin {
            match resolver.origin_of(key) {
                Err(e) => Err(e),
                Ok(Some((level, value))) => Ok(GetOutput {
                    key: key_label,
                    value,
                    origin: Some(String::from_str(level.as_str())),
                }),
                Ok(None) => match resolver.effective() {
                    Ok(c) => Ok(GetOutput {
                        key: key_label,
                        value: c.get_effective_string(key),
                        origin: Some(String::from_str("default")),
                    }),
                    Err(e) => Err(e),
                },
            }
        } else {
            match resolver.effective() {
                Ok(c) => Ok(GetOutput { key: key_label, value: c.get_effective_string(key), origin: None }),
                Err(e) => Err(e),
            }
        }
    }
}

impl Renderable for GetOutput {
    /// `<origin>\t<value>` under `--show-origin`, the bare value otherwise.
    open spec fn rendered(&self) -> Seq<char> {
        match self.origin {
            Some(o) => o@ + "\t"@ + self.value@ + "\n"@,
            None => self.value@ + "\n"@,
        }
    }

    fn render_human(&self) -> (r: String) {
        let mut r = String::new();
        match &self.origin {
            Some(o) => {
                r.append(o.as_str());
                r.append("\t");
            },
            None => {},
        }
        r.append(self.value.as_str());
        r.append("\n");
        r
    }
}

} // verus!
