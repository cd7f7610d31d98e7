//! `marshal config list` — every known key with its effective value.
use vstd::prelude::*;
use vstd::string::StringExecFns;
use crate::cli::Renderable;
use crate::config::{bool_text, dotted_name, effective_spec, effective_value, ConfigKey, ConfigResolver};

verus! {

pub struct ConfigList;

pub struct ListOutput {
    pub entries: Vec<ListEntry>,
}

pub struct ListEntry {
    pub key: String,
    pub value: String,
}

/// `key=value` lines for `entries`.
pub open spec fn list_lines(entries: Seq<ListEntry>) -> Seq<char>
    decreases entries.len(),
{
    if entries.len() == 0 {
        Seq::empty()
    } else {
        list_lines(entries.drop_last()) + entries.last().key@ + "="@ + entries.last().value@ + "\n"@
    }
}

impl ConfigList {
    /// One entry per known key, in documentation order.
    pub fn run(&self, resolver: &ConfigResolver) -> (r: Result<ListOutput, String>)
        ensures
            match effective_spec(resolver@) {
                Ok(c) => r matches Ok(out) && out.entries@.len() == 2
                    && out.entries@[0].key@ == dotted_name(ConfigKey::ModernizeTips)
                    && out.entries@[0].value@ == bool_text(effective_value(c, ConfigKey::ModernizeTips))
                    && out.entries@[1].key@ == dotted_name(ConfigKey::ModernizeRewrite)
                    && out.entries@[1].value@ == bool_text(effective_value(c, ConfigKey::ModernizeRewrite)),
                Err(e) => r matches Err(m) && m@ == e,
            },
    {
        let effective = match resolver.effective() {
            Ok(c) => c,
            Err(e) => {
                return Err(e);
            },
        };
        let keys = ConfigKey::all();
        let mut entries: Vec<ListEntry> = Vec::new();
        let mut i: usize = 0;
        while i < keys.len()
            invariant
                i <= keys.len(),
                keys@ == seq![ConfigKey::ModernizeTips, ConfigKey::ModernizeRewrite],
                entries@.len() == i,
                forall|j: int| 0 <= j < i ==> (#[trigger] entries@[j]).key@ == dotted_name(keys@[j])
                    && entries@[j].value@ == bool_text(effective_value(effective, keys@[j])),
            decreases keys.len() - i,
        {
            let key = keys[i];
            entries.push(ListEntry {
                key: String::from_str(key.as_dotted()),
                value: effective.get_effective_string(key),
            });
            i += 1;
        }
        Ok(ListOutput { entries })
    }
}

impl Renderable for ListOutput {
    /// `key=value` lines, one per known key.
    open spec fn rendered(&self) -> Seq<char> {
        list_lines(self.entries@)
    }

    fn render_human(&self) -> (r: String) {
        let mut r = String::new();
        let mut i: usize = 0;
        while i < self.entries.len()
            invariant
                i <= self.entries.len(),
                r@ == list_lines(self.entries@.subrange(0, i as int)),
            decreases self.entries.len() - i,
        {
            assert(self.entries@.subrange(0, i + 1).drop_last() =~= self.entries@.subrange(0, i as int));
            r.append(self.entries[i].key.as_str());
            r.append("=");
            r.append(self.entries[i].value.as_str());
            r.append("\n");
            i += 1;
        }
        assert(self.entries@.subrange(0, i as int) =~= self.entries@);
        r
    }
}

} // verus!
