//! [`GlobalConfigSource`] — per-user config at
//! `$XDG_CONFIG_HOME/marshal/config.toml`, falling back to
//! `$HOME/.config/marshal/config.toml`. `MARSHAL_CONFIG` overrides both.
use vstd::prelude::*;
use vstd::string::StringExecFns;
use vstd::string::StrSliceExecFns;
use crate::config::source::{ConfigSource, Level};
use crate::text::{join_path, owned, path_join};

verus! {

/// An environment variable's value, with an empty value read as unset.
pub open spec fn env_value(v: Option<String>) -> Option<Seq<char>> {
    match v {
        Some(s) => if s@.len() > 0 { Some(s@) } else { None },
        None => None,
    }
}

pub open spec fn global_path_spec(
    marshal_config: Option<String>,
    xdg_config_home: Option<String>,
    home: Option<String>,
) -> Result<Seq<char>, Seq<char>> {
    if env_value(marshal_config) is Some {
        Ok(env_value(marshal_config)->0)
    } else if env_value(xdg_config_home) is Some {
        Ok(path_join(path_join(env_value(xdg_config_home)->0, "marshal"@), "config.toml"@))
    } else if env_value(home) is Some {
        Ok(path_join(path_join(path_join(env_value(home)->0, ".config"@), "marshal"@), "config.toml"@))
    } else {
        Err("HOME is not set; cannot locate global config"@)
    }
}

/// The value of an environment variable when it is set and non-empty.
pub fn non_empty(v: &Option<String>) -> (r: Option<&String>)
    ensures
        match env_value(*v) {
            Some(s) => r matches Some(t) && t@ == s,
            None => r is None,
        },
{
    match v {
        Some(s) => if s.as_str().unicode_len() > 0 { Some(s) } else { None },
        None => None,
    }
}

pub struct GlobalConfigSource {
    path: String,
}

impl View for GlobalConfigSource {
    type V = Seq<char>;

    /// The file this source reads from and writes to.
    closed spec fn view(&self) -> Seq<char> {
        self.path@
    }
}

impl GlobalConfigSource {
    /// Locate the per-user config from the environment: `MARSHAL_CONFIG`,
    /// then `XDG_CONFIG_HOME`, then `HOME`.
    pub fn new(marshal_config: Option<String>, xdg_config_home: Option<String>, home: Option<String>) -> (r: Result<Self, String>)
        ensures
            match global_path_spec(marshal_config, xdg_config_home, home) {
                Ok(p) => r matches Ok(s) && s@ == p,
                Err(e) => r matches Err(m) && m@ == e,
            },
    {
        let path = match default_path(&marshal_config, &xdg_config_home, &home) {
            Ok(v) => v,
            Err(e) => {
                return Err(e);
            },
        };
        Ok(GlobalConfigSource { path })
    }

    /// Construct pointing at an explicit path.
    pub fn at(path: String) -> (r: Self)
        ensures
            r@ == path@,
    {
        GlobalConfigSource { path }
    }

}

/// Resolve the default global config path.
pub fn default_path(marshal_config: &Option<String>, xdg_config_home: &Option<String>, home: &Option<String>) -> (r: Result<String, String>)
    ensures
        match global_path_spec(*marshal_config, *xdg_config_home, *home) {
            Ok(p) => r matches Ok(s) && s@ == p,
            Err(e) => r matches Err(m) && m@ == e,
        },
{
    if let Some(p) = non_empty(marshal_config) {
        return Ok(owned(p.as_str()));
    }
    if let Some(xdg) = non_empty(xdg_config_home) {
        let d = join_path(xdg.as_str(), "marshal");
        return Ok(join_path(d.as_str(), "config.toml"));
    }
    match non_empty(home) {
        Some(h) => {
            let a = join_path(h.as_str(), ".config");
            let b = join_path(a.as_str(), "marshal");
            Ok(join_path(b.as_str(), "config.toml"))
        },
        None => Err(String::from_str("HOME is not set; cannot locate global config")),
    }
}

impl ConfigSource for GlobalConfigSource {
    open spec fn source_level(&self) -> Level {
        Level::Global
    }

    open spec fn source_path(&self) -> Seq<char> {
        self@
    }

    fn level(&self) -> (r: Level) {
        Level::Global
    }

    fn path(&self) -> (r: &str) {
        self.path.as_str()
    }
}

} // verus!
