//! Marshal configuration.
//!
//! Git's three-level model (`system < global < local`). Each layer is a
//! [`Config`] whose `Option` fields mean "set here" or "silent here"; the
//! [`ConfigResolver`] merges the loaded layers by precedence and the
//! compiled-in defaults apply when every layer is silent.
pub mod global;
pub mod local;
pub mod source;
pub mod system;

pub use source::Level;

use vstd::prelude::*;
use vstd::string::StringExecFns;
use crate::text::{push_char, str_eq, to_chars};
use crate::config::source::level_name;

verus! {

// ── Data types ──────────────────────────────────────────────────────

/// The `[modernize]` table of one layer.
#[derive(Debug, Clone, Copy, PartialEq, Eq, Structural)]
pub struct ModernizeConfig {
    pub tips: Option<bool>,
    pub rewrite: Option<bool>,
}

impl Default for ModernizeConfig {
    fn default() -> (r: Self)
        ensures
            r.tips is None,
            r.rewrite is None,
    {
        ModernizeConfig { tips: None, rewrite: None }
    }
}

impl ModernizeConfig {
    /// `true` when the layer sets nothing in this table.
    pub fn is_empty(&self) -> (r: bool)
        ensures
            r == (self.tips is None && self.rewrite is None),
    {
        self.tips.is_none() && self.rewrite.is_none()
    }
}

/// In-memory representation of one config layer. `None` means "unset
/// at this layer".
#[derive(Debug, Clone, Copy, PartialEq, Eq, Structural)]
pub struct Config {
    pub modernize: ModernizeConfig,
}

/// The layer that sets nothing.
pub open spec fn empty_config() -> Config {
    Config { modernize: ModernizeConfig { tips: None, rewrite: None } }
}

impl Default for Config {
    fn default() -> (r: Self)
        ensures
            r == empty_config(),
    {
        Config { modernize: ModernizeConfig { tips: None, rewrite: None } }
    }
}

/// The recognised configuration keys.
#[derive(Debug, Clone, Copy, PartialEq, Eq, Structural)]
pub enum ConfigKey {
    ModernizeTips,
    ModernizeRewrite,
}

// ── Specifications ──────────────────────────────────────────────────

/// The value this layer itself sets for `key`.
pub open spec fn layer_setting(c: Config, key: ConfigKey) -> Option<bool> {
    match key {
        ConfigKey::ModernizeTips => c.modernize.tips,
        ConfigKey::ModernizeRewrite => c.modernize.rewrite,
    }
}

/// Compiled-in default of each key: tips on, rewrite off.
pub open spec fn default_of(key: ConfigKey) -> bool {
    match key {
        ConfigKey::ModernizeTips => true,
        ConfigKey::ModernizeRewrite => false,
    }
}

/// The value of `key` after falling back to the default.
pub open spec fn effective_value(c: Config, key: ConfigKey) -> bool {
    match layer_setting(c, key) {
        Some(b) => b,
        None => default_of(key),
    }
}

pub open spec fn bool_text(b: bool) -> Seq<char> {
    if b { "true"@ } else { "false"@ }
}

/// `c` with `key` set to `v` (`Some`) or cleared (`None`).
pub open spec fn with_setting(c: Config, key: ConfigKey, v: Option<bool>) -> Config {
    match key {
        ConfigKey::ModernizeTips => Config { modernize: ModernizeConfig { tips: v, ..c.modernize } },
        ConfigKey::ModernizeRewrite => Config { modernize: ModernizeConfig { rewrite: v, ..c.modernize } },
    }
}

/// Overlay the fields that `overlay` sets onto `base`.
pub open spec fn merge_spec(base: Config, overlay: Config) -> Config {
    Config {
        modernize: ModernizeConfig {
            tips: if overlay.modernize.tips is Some { overlay.modernize.tips } else { base.modernize.tips },
            rewrite: if overlay.modernize.rewrite is Some { overlay.modernize.rewrite } else { base.modernize.rewrite },
        },
    }
}

/// ASCII lower-casing of one character (`char::to_ascii_lowercase`).
pub open spec fn lower_char(c: char) -> char {
    if 'A' <= c && c <= 'Z' {
        ((c as u32) + 32) as char
    } else {
        c
    }
}

pub open spec fn ascii_lower(s: Seq<char>) -> Seq<char> {
    s.map_values(|c: char| lower_char(c))
}

pub open spec fn not_boolean_msg(lowered: Seq<char>) -> Seq<char> {
    "'"@ + lowered + "' is not a boolean (expected true/false/1/0/yes/no/on/off)"@
}

/// The accepted boolean spellings, compared case-insensitively.
pub open spec fn parse_bool_spec(s: Seq<char>) -> Result<bool, Seq<char>> {
    let l = ascii_lower(s);
    if l == "true"@ || l == "1"@ || l == "yes"@ || l == "on"@ {
        Ok(true)
    } else if l == "false"@ || l == "0"@ || l == "no"@ || l == "off"@ {
        Ok(false)
    } else {
        Err(not_boolean_msg(l))
    }
}

pub open spec fn dotted_name(key: ConfigKey) -> Seq<char> {
    match key {
        ConfigKey::ModernizeTips => "modernize.tips"@,
        ConfigKey::ModernizeRewrite => "modernize.rewrite"@,
    }
}

/// The one-line description of a key, as the usage text lists it.
pub open spec fn key_description(key: ConfigKey) -> Seq<char> {
    match key {
        ConfigKey::ModernizeTips => "Emit modernization tips on stderr."@,
        ConfigKey::ModernizeRewrite => "Rewrite legacy commands to their modern forms before running git."@,
    }
}

pub open spec fn unknown_key_msg(s: Seq<char>) -> Seq<char> {
    "unknown config key '"@ + s + "'. Known keys:\n  modernize.tips\n  modernize.rewrite"@
}

/// The key a dotted name denotes, if any.
pub open spec fn key_of_name(s: Seq<char>) -> Option<ConfigKey> {
    if s == "modernize.tips"@ {
        Some(ConfigKey::ModernizeTips)
    } else if s == "modernize.rewrite"@ {
        Some(ConfigKey::ModernizeRewrite)
    } else {
        None
    }
}

// ── Config operations ───────────────────────────────────────────────

impl Config {
    /// Effective value of `modernize.tips`. Default: `true`.
    pub fn modernize_tips(&self) -> (r: bool)
        ensures
            r == effective_value(*self, ConfigKey::ModernizeTips),
    {
        match self.modernize.tips {
            Some(b) => b,
            None => true,
        }
    }

    /// Effective value of `modernize.rewrite`. Default: `false` —
    /// rewriting the user's invocation is opt-in only.
    pub fn modernize_rewrite(&self) -> (r: bool)
        ensures
            r == effective_value(*self, ConfigKey::ModernizeRewrite),
    {
        match self.modernize.rewrite {
            Some(b) => b,
            None => false,
        }
    }

    /// Render the effective value of `key` (`"true"` / `"false"`).
    pub fn get_effective_string(&self, key: ConfigKey) -> (r: String)
        ensures
            r@ == bool_text(effective_value(*self, key)),
    {
        let b = match key {
            ConfigKey::ModernizeTips => self.modernize_tips(),
            ConfigKey::ModernizeRewrite => self.modernize_rewrite(),
        };
        bool_string(b)
    }

    /// Parse `value` as a boolean and set `key` in this layer. On a
    /// parse error the layer is unchanged.
    pub fn set_from_str(&mut self, key: ConfigKey, value: &str) -> (r: Result<(), String>)
        ensures
            match parse_bool_spec(value@) {
                Ok(b) => r is Ok && *final(self) == with_setting(*old(self), key, Some(b)),
                Err(e) => (r matches Err(m) && m@ == e) && *final(self) == *old(self),
            },
    {
        let b = match parse_bool(value) {
            Ok(v) => v,
            Err(e) => {
                return Err(e);
            },
        };
        match key {
            ConfigKey::ModernizeTips => self.modernize.tips = Some(b),
            ConfigKey::ModernizeRewrite => self.modernize.rewrite = Some(b),
        }
        Ok(())
    }

    /// Clear `key` from this layer so lower layers (or the default)
    /// apply again.
    pub fn unset(&mut self, key: ConfigKey)
        ensures
            *final(self) == with_setting(*old(self), key, None),
    {
        match key {
            ConfigKey::ModernizeTips => self.modernize.tips = None,
            ConfigKey::ModernizeRewrite => self.modernize.rewrite = None,
        }
    }

    /// The value this layer itself sets for `key`, rendered; `None`
    /// when the layer is silent about it.
    pub fn layer_value(&self, key: ConfigKey) -> (r: Option<String>)
        ensures
            match layer_setting(*self, key) {
                Some(b) => r matches Some(s) && s@ == bool_text(b),
                None => r is None,
            },
    {
        let v = match key {
            ConfigKey::ModernizeTips => self.modernize.tips,
            ConfigKey::ModernizeRewrite => self.modernize.rewrite,
        };
        match v {
            Some(b) => Some(bool_string(b)),
            None => None,
        }
    }
}

fn bool_string(b: bool) -> (r: String)
    ensures
        r@ == bool_text(b),
{
    if b {
        String::from_str("true")
    } else {
        String::from_str("false")
    }
}

impl ConfigKey {
    /// Parse a dotted key name; the match is exact (case-sensitive).
    pub fn from_dotted(s: &str) -> (r: Result<ConfigKey, String>)
        ensures
            match key_of_name(s@) {
                Some(k) => r == Ok::<ConfigKey, String>(k),
                None => r matches Err(m) && m@ == unknown_key_msg(s@),
            },
    {
        assert("modernize.tips"@ != "modernize.rewrite"@) by {
            reveal_strlit("modernize.tips");
            reveal_strlit("modernize.rewrite");
            assert("modernize.tips"@.len() != "modernize.rewrite"@.len());
        }
        if str_eq(s, "modernize.tips") {
            Ok(ConfigKey::ModernizeTips)
        } else if str_eq(s, "modernize.rewrite") {
            Ok(ConfigKey::ModernizeRewrite)
        } else {
            let mut m = String::from_str("unknown config key '");
            m.append(s);
            m.append("'. Known keys:\n  modernize.tips\n  modernize.rewrite");
            Err(m)
        }
    }

    pub fn as_dotted(&self) -> (r: &'static str)
        ensures
            r@ == dotted_name(*self),
    {
        match self {
            ConfigKey::ModernizeTips => "modernize.tips",
            ConfigKey::ModernizeRewrite => "modernize.rewrite",
        }
    }

    pub fn description(&self) -> (r: &'static str)
        ensures
            r@ == key_description(*self),
    {
        match self {
            ConfigKey::ModernizeTips => "Emit modernization tips on stderr.",
            ConfigKey::ModernizeRewrite => "Rewrite legacy commands to their modern forms before running git.",
        }
    }

    /// Every known key, in documentation order.
    pub fn all() -> (r: Vec<ConfigKey>)
        ensures
            r@ == seq![ConfigKey::ModernizeTips, ConfigKey::ModernizeRewrite],
    {
        vec![ConfigKey::ModernizeTips, ConfigKey::ModernizeRewrite]
    }
}

// ── Helpers ─────────────────────────────────────────────────────────

fn lower(c: char) -> (r: char)
    ensures
        r == lower_char(c),
{
    if 'A' <= c && c <= 'Z' {
        let b = (c as u8) + 32;
        assert(((c as u32) + 32) as char == b as char);
        b as char
    } else {
        c
    }
}

fn to_ascii_lowercase(s: &str) -> (r: String)
    ensures
        r@ == ascii_lower(s@),
{
    let chars = to_chars(s);
    let mut r = String::new();
    let mut i: usize = 0;
    while i < chars.len()
        invariant
            i <= chars.len(),
            chars@ == s@,
            r@ == ascii_lower(s@).subrange(0, i as int),
        decreases chars.len() - i,
    {
        push_char(&mut r, lower(chars[i]));
        i += 1;
        assert(r@ =~= ascii_lower(s@).subrange(0, i as int));
    }
    assert(r@ =~= ascii_lower(s@));
    r
}

/// Parse a boolean spelling (`true/false/1/0/yes/no/on/off`, ASCII
/// case-insensitive).
pub fn parse_bool(s: &str) -> (r: Result<bool, String>)
    ensures
        match parse_bool_spec(s@) {
            Ok(b) => r == Ok::<bool, String>(b),
            Err(e) => r matches Err(m) && m@ == e,
        },
{
    let l = to_ascii_lowercase(s);
    let ls = l.as_str();
    if str_eq(ls, "true") || str_eq(ls, "1") || str_eq(ls, "yes") || str_eq(ls, "on") {
        Ok(true)
    } else if str_eq(ls, "false") || str_eq(ls, "0") || str_eq(ls, "no") || str_eq(ls, "off") {
        Ok(false)
    } else {
        let mut m = String::from_str("'");
        m.append(ls);
        m.append("' is not a boolean (expected true/false/1/0/yes/no/on/off)");
        Err(m)
    }
}

/// Overlay the fields `overlay` sets onto `base`; fields `overlay`
/// leaves unset keep `base`'s value.
pub fn merge(base: &mut Config, overlay: Config)
    ensures
        *final(base) == merge_spec(*old(base), overlay),
{
    if overlay.modernize.tips.is_some() {
        base.modernize.tips = overlay.modernize.tips;
    }
    if overlay.modernize.rewrite.is_some() {
        base.modernize.rewrite = overlay.modernize.rewrite;
    }
}

// ── Resolver ────────────────────────────────────────────────────────

/// One registered layer: its level, its file, and the outcome of
/// reading that file (`Ok(None)` when the file does not exist, `Err`
/// when it exists but could not be read or parsed).
pub struct LoadedLayer {
    pub level: Level,
    pub path: String,
    pub content: Result<Option<Config>, String>,
}

/// The layer `source` stands for, with what reading its file gave.
pub fn layer_of<S: crate::config::source::ConfigSource>(source: &S, content: Result<Option<Config>, String>) -> (r: LoadedLayer)
    ensures
        r.level == source.source_level(),
        r.path@ == source.source_path(),
        r.content == content,
{
    LoadedLayer { level: source.level(), path: crate::text::owned(source.path()), content }
}

/// The read outcome of a layer, with the error taken by its text.
pub open spec fn load_of(l: LoadedLayer) -> Result<Option<Config>, Seq<char>> {
    match l.content {
        Ok(c) => Ok(c),
        Err(e) => Err(e@),
    }
}

/// A change applied to one layer by [`ConfigResolver::mutate`].
pub enum ConfigEdit {
    Assign(ConfigKey, String),
    Clear(ConfigKey),
}

/// Applying an edit to a layer.
pub open spec fn edit_spec(c: Config, edit: ConfigEdit) -> Result<Config, Seq<char>> {
    match edit {
        ConfigEdit::Assign(key, value) => match parse_bool_spec(value@) {
            Ok(b) => Ok(with_setting(c, key, Some(b))),
            Err(e) => Err(e),
        },
        ConfigEdit::Clear(key) => Ok(with_setting(c, key, None)),
    }
}

/// Merge of every layer, lowest precedence first; the first layer that
/// failed to load makes the whole result fail.
pub open spec fn effective_spec(layers: Seq<LoadedLayer>) -> Result<Config, Seq<char>>
    decreases layers.len(),
{
    if layers.len() == 0 {
        Ok(empty_config())
    } else {
        match effective_spec(layers.drop_last()) {
            Err(e) => Err(e),
            Ok(base) => match load_of(layers.last()) {
                Err(e) => Err(e),
                Ok(None) => Ok(base),
                Ok(Some(o)) => Ok(merge_spec(base, o)),
            },
        }
    }
}

/// The highest-precedence layer that sets `key`, with its rendered
/// value; layers are read from the highest down and a read failure on
/// the way stops the search.
pub open spec fn origin_spec(layers: Seq<LoadedLayer>, key: ConfigKey) -> Result<Option<(Level, Seq<char>)>, Seq<char>>
    decreases layers.len(),
{
    if layers.len() == 0 {
        Ok(None)
    } else {
        match load_of(layers.last()) {
            Err(e) => Err(e),
            Ok(c) => {
                if c is Some && layer_setting(c->0, key) is Some {
                    Ok(Some((layers.last().level, bool_text(layer_setting(c->0, key)->0))))
                } else {
                    origin_spec(layers.drop_last(), key)
                }
            },
        }
    }
}

/// Index of the first layer of `level` at or after position `i`.
pub open spec fn first_from(layers: Seq<LoadedLayer>, level: Level, i: int) -> Option<int>
    decreases layers.len() - i,
{
    if i < 0 || i >= layers.len() {
        None
    } else if layers[i].level == level {
        Some(i)
    } else {
        first_from(layers, level, i + 1)
    }
}

/// Index of the first registered layer of `level`.
pub open spec fn first_of_level(layers: Seq<LoadedLayer>, level: Level) -> Option<int> {
    first_from(layers, level, 0)
}

/// The index found by [`first_from`] is a layer of that level.
pub proof fn lemma_first_from_found(layers: Seq<LoadedLayer>, level: Level, i: int)
    requires
        0 <= i,
    ensures
        first_from(layers, level, i) matches Some(k) ==> (i <= k < layers.len() && layers[k].level == level),
    decreases layers.len() - i,
{
    if i < layers.len() && layers[i].level != level {
        lemma_first_from_found(layers, level, i + 1);
    }
}

pub open spec fn no_source_msg(level: Level) -> Seq<char> {
    match level {
        Level::Local => "local config is only available inside a git repository. Run this command from within a repo, or use --global/--system."@,
        _ => "no config source registered for level '"@ + level_name(level) + "'. This is a bug."@,
    }
}

/// Aggregates layers by precedence: registered low→high, later ones
/// override earlier ones.
pub struct ConfigResolver {
    sources: Vec<LoadedLayer>,
}

impl View for ConfigResolver {
    type V = Seq<LoadedLayer>;

    closed spec fn view(&self) -> Seq<LoadedLayer> {
        self.sources@
    }
}

impl ConfigResolver {
    pub fn new() -> (r: Self)
        ensures
            r@ == Seq::<LoadedLayer>::empty(),
    {
        ConfigResolver { sources: Vec::new() }
    }

    /// Add a layer above every layer registered so far.
    pub fn register(&mut self, source: LoadedLayer)
        ensures
            final(self)@ == old(self)@.push(source),
    {
        self.sources.push(source);
    }

    /// The default resolver: `system < global < local`. The global layer
    /// must be locatable: its error is the resolver's. A system or local
    /// layer that could not be located is skipped.
    pub fn current_user(
        system: Result<LoadedLayer, String>,
        global: Result<LoadedLayer, String>,
        local: Result<LoadedLayer, String>,
    ) -> (r: Result<Self, String>)
        requires
            system matches Ok(s) ==> s.level == Level::System,
            global matches Ok(g) ==> g.level == Level::Global,
            local matches Ok(l) ==> l.level == Level::Local,
        ensures
            match global {
                Err(e) => r matches Err(m) && m@ == e@,
                Ok(g) => r matches Ok(res) && res@ == (match system { Ok(s) => seq![s], Err(_) => Seq::empty() })
                    + seq![g]
                    + (match local { Ok(l) => seq![l], Err(_) => Seq::empty() }),
            },
    {
        let g = match global {
            Ok(g) => g,
            Err(e) => {
                return Err(e);
            },
        };
        let mut r = Self::new();
        match system {
            Ok(s) => r.register(s),
            Err(_) => {},
        }
        r.register(g);
        match local {
            Ok(l) => r.register(l),
            Err(_) => {},
        }
        assert(r@ =~= (match system { Ok(s) => seq![s], Err(_) => Seq::<LoadedLayer>::empty() })
                + seq![g]
                + (match local { Ok(l) => seq![l], Err(_) => Seq::<LoadedLayer>::empty() }));
        Ok(r)
    }

    /// Compose the effective config by merging every layer in
    /// precedence order.
    pub fn effective(&self) -> (r: Result<Config, String>)
        ensures
            match effective_spec(self@) {
                Ok(c) => r == Ok::<Config, String>(c),
                Err(e) => r matches Err(m) && m@ == e,
            },
    {
        let mut eff = Config::default();
        let mut i: usize = 0;
        while i < self.sources.len()
            invariant
                i <= self.sources.len(),
                effective_spec(self@.subrange(0, i as int)) == Ok::<Config, Seq<char>>(eff),
            decreases self.sources.len() - i,
        {
            assert(self@.subrange(0, i + 1).drop_last() =~= self@.subrange(0, i as int));
            match &self.sources[i].content {
                Ok(Some(layer)) => merge(&mut eff, *layer),
                Ok(None) => {},
                Err(e) => {
                    proof {
                        lemma_effective_error_propagates(self@, i as int);
                    }
                    return Err(e.clone());
                },
            }
            i += 1;
        }
        assert(self@.subrange(0, i as int) =~= self@);
        Ok(eff)
    }

    /// Read one specific layer verbatim.
    pub fn layer(&self, level: Level) -> (r: Result<Option<Config>, String>)
        ensures
            match first_of_level(self@, level) {
                None => r matches Err(m) && m@ == no_source_msg(level),
                Some(i) => match load_of(self@[i]) {
                    Ok(c) => r == Ok::<Option<Config>, String>(c),
                    Err(e) => r matches Err(m) && m@ == e,
                },
            },
    {
        let idx = match self.source_for(level) {
            Ok(v) => v,
            Err(e) => {
                return Err(e);
            },
        };
        assert(self.sources@[idx as int] == self@[idx as int]);
        assert(load_of(self@[idx as int]) == load_of(self.sources[idx as int]));
        match &self.sources[idx].content {
            Ok(c) => {
                assert(load_of(self@[idx as int]) == Ok::<Option<Config>, Seq<char>>(*c));
                assert(first_of_level(self@, level) == Some(idx as int));
                Ok(*c)
            },
            Err(e) => {
                let m = e.clone();
                assert(load_of(self@[idx as int]) == Err::<Option<Config>, Seq<char>>(m@));
                Err(m)
            },
        }
    }

    /// The highest-precedence layer that sets `key`, with its value.
    /// `Ok(None)`: no layer sets it, the default applies.
    pub fn origin_of(&self, key: ConfigKey) -> (r: Result<Option<(Level, String)>, String>)
        ensures
            match origin_spec(self@, key) {
                Ok(None) => r matches Ok(None),
                Ok(Some((lv, v))) => r matches Ok(Some((l2, s))) && l2 == lv && s@ == v,
                Err(e) => r matches Err(m) && m@ == e,
            },
    {
        let mut i: usize = self.sources.len();
        assert(self@.subrange(0, i as int) =~= self@);
        while i > 0
            invariant
                i <= self.sources.len(),
                origin_spec(self@, key) == origin_spec(self@.subrange(0, i as int), key),
            decreases i,
        {
            let ghost prefix = self@.subrange(0, i as int);
            assert(prefix.drop_last() =~= self@.subrange(0, i - 1));
            assert(prefix.last() == self@[i - 1]);
            let source = &self.sources[i - 1];
            match &source.content {
                Err(e) => {
                    return Err(e.clone());
                },
                Ok(Some(layer)) => {
                    match layer.layer_value(key) {
                        Some(value) => {
                            return Ok(Some((source.level, value)));
                        },
                        None => {},
                    }
                },
                Ok(None) => {},
            }
            i -= 1;
        }
        assert(self@.subrange(0, 0) =~= Seq::<LoadedLayer>::empty());
        Ok(None)
    }

    /// Load one layer (empty when its file does not exist yet), apply
    /// `edit`, and return the new content of that layer, to be saved
    /// back to the layer's file.
    pub fn mutate(&self, level: Level, edit: ConfigEdit) -> (r: Result<(usize, Config), String>)
        ensures
            match first_of_level(self@, level) {
                None => r matches Err(m) && m@ == no_source_msg(level),
                Some(i) => match load_of(self@[i]) {
                    Err(e) => r matches Err(m) && m@ == e,
                    Ok(c) => match edit_spec(match c { Some(x) => x, None => empty_config() }, edit) {
                        Ok(n) => r matches Ok((k, c2)) && k as int == i && c2 == n,
                        Err(e) => r matches Err(m) && m@ == e,
                    },
                },
            },
    {
        let idx = match self.source_for(level) {
            Ok(v) => v,
            Err(e) => {
                return Err(e);
            },
        };
        let mut layer = match &self.sources[idx].content {
            Ok(Some(c)) => *c,
            Ok(None) => Config::default(),
            Err(e) => {
                return Err(e.clone());
            },
        };
        match edit {
            ConfigEdit::Assign(key, value) => {
                match layer.set_from_str(key, value.as_str()) {
                    Ok(()) => {},
                    Err(e) => {
                        return Err(e);
                    },
                }
            },
            ConfigEdit::Clear(key) => {
                layer.unset(key);
            },
        }
        Ok((idx, layer))
    }

    /// Index of the first registered layer of `level`, or the error
    /// explaining why there is none.
    pub fn source_for(&self, level: Level) -> (r: Result<usize, String>)
        ensures
            match first_of_level(self@, level) {
                Some(i) => (r matches Ok(k) && k as int == i) && 0 <= i < self@.len()
                    && self@[i].level == level,
                None => r matches Err(m) && m@ == no_source_msg(level),
            },
    {
        proof {
            lemma_first_from_found(self@, level, 0);
        }
        let mut i: usize = 0;
        while i < self.sources.len()
            invariant
                i <= self.sources.len(),
                first_of_level(self@, level) == first_from(self@, level, i as int),
            decreases self.sources.len() - i,
        {
            if self.sources[i].level == level {
                return Ok(i);
            }
            i += 1;
        }
        match level {
            Level::Local => Err(String::from_str(
                "local config is only available inside a git repository. Run this command from within a repo, or use --global/--system.",
            )),
            _ => {
                let mut m = String::from_str("no config source registered for level '");
                m.append(level.as_str());
                m.append("'. This is a bug.");
                Err(m)
            },
        }
    }
}

// ── Laws ────────────────────────────────────────────────────────────

/// Every key's dotted name parses back to that key.
pub proof fn law_dotted_name_round_trip(key: ConfigKey)
    ensures
        key_of_name(dotted_name(key)) == Some(key),
{
    reveal_strlit("modernize.tips");
    reveal_strlit("modernize.rewrite");
    assert("modernize.tips"@.len() != "modernize.rewrite"@.len());
}

/// The rendered value of a key is accepted back by `set_from_str` and
/// sets the same value.
pub proof fn law_bool_text_round_trip(b: bool)
    ensures
        parse_bool_spec(bool_text(b)) == Ok::<bool, Seq<char>>(b),
{
    reveal_strlit("true");
    reveal_strlit("false");
    reveal_strlit("1");
    reveal_strlit("yes");
    reveal_strlit("on");
    reveal_strlit("0");
    reveal_strlit("no");
    reveal_strlit("off");
    let t = bool_text(b);
    assert(ascii_lower(t) =~= t);
    if b {
        assert(t == "true"@);
    } else {
        assert(t != "true"@ && t != "1"@ && t != "yes"@ && t != "on"@) by {
            assert("true"@.len() == 4 && "false"@.len() == 5);
            assert("1"@.len() == 1 && "yes"@.len() == 3 && "on"@.len() == 2);
        }
    }
}

/// Setting a key makes that value the effective one; every other key
/// keeps its effective value.
pub proof fn law_set_then_get(c: Config, key: ConfigKey, b: bool, other: ConfigKey)
    ensures
        effective_value(with_setting(c, key, Some(b)), key) == b,
        other != key ==> effective_value(with_setting(c, key, Some(b)), other) == effective_value(c, other),
{
}

/// Unsetting a key brings back its compiled-in default.
pub proof fn law_unset_restores_default(c: Config, key: ConfigKey)
    ensures
        effective_value(with_setting(c, key, None), key) == default_of(key),
        layer_setting(with_setting(c, key, None), key) is None,
{
}

/// Merging a layer that sets nothing changes nothing; a value the
/// overlay sets always wins over the base.
pub proof fn law_merge_overlay(base: Config, overlay: Config, key: ConfigKey)
    ensures
        merge_spec(base, empty_config()) == base,
        layer_setting(overlay, key) is Some ==> layer_setting(merge_spec(base, overlay), key) == layer_setting(overlay, key),
        layer_setting(overlay, key) is None ==> layer_setting(merge_spec(base, overlay), key) == layer_setting(base, key),
{
}

/// Precedence: whenever every layer loads, the effective value of a key
/// is the one set by the highest layer that sets it (`origin_of`
/// reports that layer), and the default when no layer sets it.
pub proof fn law_effective_agrees_with_origin(layers: Seq<LoadedLayer>, key: ConfigKey)
    requires
        effective_spec(layers) is Ok,
    ensures
        origin_spec(layers, key) is Ok,
        match origin_spec(layers, key) {
            Ok(Some((_, v))) => bool_text(effective_value(effective_spec(layers)->Ok_0, key)) == v
                && layer_setting(effective_spec(layers)->Ok_0, key) is Some,
            Ok(None) => layer_setting(effective_spec(layers)->Ok_0, key) is None
                && effective_value(effective_spec(layers)->Ok_0, key) == default_of(key),
            Err(_) => false,
        },
    decreases layers.len(),
{
    if layers.len() > 0 {
        law_effective_agrees_with_origin(layers.drop_last(), key);
    }
}

/// A layer that fails to load makes the merge of any longer prefix
/// fail with that layer's error, unless an earlier layer failed first.
proof fn lemma_effective_error_propagates(layers: Seq<LoadedLayer>, i: int)
    requires
        0 <= i < layers.len(),
        effective_spec(layers.subrange(0, i)) is Ok,
        load_of(layers[i]) is Err,
    ensures
        effective_spec(layers) == Err::<Config, Seq<char>>(load_of(layers[i])->Err_0),
    decreases layers.len() - i,
{
    if i == layers.len() - 1 {
        assert(layers.drop_last() =~= layers.subrange(0, i));
    } else {
        assert(layers.drop_last().subrange(0, i) =~= layers.subrange(0, i));
        lemma_effective_error_propagates(layers.drop_last(), i);
        assert(layers.drop_last().subrange(0, i) =~= layers.subrange(0, i));
    }
}

} // verus!
