//! Config layers: which level a source represents, and where its file
//! lives. Precedence is low→high: `System < Global < Local`.
use vstd::prelude::*;

verus! {

/// Which layer a source represents.
#[derive(Debug, Clone, Copy, PartialEq, Eq, Structural)]
pub enum Level {
    /// Machine-wide layer.
    System,
    /// Per-user layer.
    Global,
    /// Per-repository layer (under `<git-dir>/marshal/config.toml`).
    Local,
}

pub open spec fn level_name(level: Level) -> Seq<char> {
    match level {
        Level::System => "system"@,
        Level::Global => "global"@,
        Level::Local => "local"@,
    }
}

impl Level {
    pub fn as_str(&self) -> (r: &'static str)
        ensures
            r@ == level_name(*self),
    {
        match self {
            Level::System => "system",
            Level::Global => "global",
            Level::Local => "local",
        }
    }
}

/// One config file location: the layer it stands for and the file it is
/// read from and written to. A new layer is a new implementation of this
/// trait plus one registration with the resolver.
pub trait ConfigSource {
    /// The layer this source represents.
    spec fn source_level(&self) -> Level;

    /// The file this source reads from and writes to.
    spec fn source_path(&self) -> Seq<char>;

    fn level(&self) -> (r: Level)
        ensures
            r == self.source_level(),
    ;

    fn path(&self) -> (r: &str)
        ensures
            r@ == self.source_path(),
    ;
}

} // verus!
