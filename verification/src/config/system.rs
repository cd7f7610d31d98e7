//! [`SystemConfigSource`] — machine-wide config at
//! `/etc/marshal/config.toml`, overridable with `MARSHAL_SYSTEM_CONFIG`.
use vstd::prelude::*;
use vstd::string::StringExecFns;
use crate::config::global::{env_value, non_empty};
use crate::config::source::{ConfigSource, Level};
use crate::text::owned;

verus! {

pub open spec fn system_path_spec(marshal_system_config: Option<String>) -> Seq<char> {
    match env_value(marshal_system_config) {
        Some(p) => p,
        None => "/etc/marshal/config.toml"@,
    }
}

pub struct SystemConfigSource {
    path: String,
}

impl View for SystemConfigSource {
    type V = Seq<char>;

    /// The file this source reads from and writes to.
    closed spec fn view(&self) -> Seq<char> {
        self.path@
    }
}

impl SystemConfigSource {
    /// Locate the machine-wide config: `MARSHAL_SYSTEM_CONFIG` or the
    /// Unix default.
    pub fn new(marshal_system_config: Option<String>) -> (r: Result<Self, String>)
        ensures
            r matches Ok(s) && s@ == system_path_spec(marshal_system_config),
    {
        Ok(SystemConfigSource { path: default_path(&marshal_system_config) })
    }

    pub fn at(path: String) -> (r: Self)
        ensures
            r@ == path@,
    {
        SystemConfigSource { path }
    }

}

/// Resolve the default system config path.
pub fn default_path(marshal_system_config: &Option<String>) -> (r: String)
    ensures
        r@ == system_path_spec(*marshal_system_config),
{
    match non_empty(marshal_system_config) {
        Some(p) => owned(p.as_str()),
        None => String::from_str("/etc/marshal/config.toml"),
    }
}

impl ConfigSource for SystemConfigSource {
    open spec fn source_level(&self) -> Level {
        Level::System
    }

    open spec fn source_path(&self) -> Seq<char> {
        self@
    }

    fn level(&self) -> (r: Level) {
        Level::System
    }

    fn path(&self) -> (r: &str) {
        self.path.as_str()
    }
}

} // verus!
