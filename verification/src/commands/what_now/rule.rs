//! The advice-rule interface for `marshal what-now`: a rule examines a
//! repository snapshot and either has a recommendation for it or not.
use vstd::prelude::*;
use vstd::string::StringExecFns;
use crate::cli::Renderable;
use crate::git::porcelain::RepoState;
use crate::text::views;

verus! {

/// Strategy: examine the current repo state and decide whether to emit
/// an advice. Rules treat the state as read-only.
pub trait AdviceRule {
    fn examine(&self, state: &RepoState) -> Option<Advice>;
}

/// A user-facing advice: what marshal observed, and the next steps.
pub struct Advice {
    pub rule_id: &'static str,
    /// One-line summary of what marshal observed.
    pub title: String,
    /// Concrete next steps, rendered as bullets below the title.
    pub suggestions: Vec<String>,
}

/// `a` is the advice with this id, title and suggestions.
pub open spec fn advice_is(a: Advice, id: Seq<char>, title: Seq<char>, suggestions: Seq<Seq<char>>) -> bool {
    a.rule_id@ == id && a.title@ == title && views(a.suggestions@) == suggestions
}

/// Bullet lines for `lines`.
pub open spec fn bullet_lines(lines: Seq<Seq<char>>) -> Seq<char>
    decreases lines.len(),
{
    if lines.len() == 0 {
        Seq::empty()
    } else {
        bullet_lines(lines.drop_last()) + "  • "@ + lines.last() + "\n"@
    }
}

impl Renderable for Advice {
    /// The title, then one bullet per suggestion.
    open spec fn rendered(&self) -> Seq<char> {
        self.title@ + "\n"@ + bullet_lines(views(self.suggestions@))
    }

    fn render_human(&self) -> (r: String) {
        let mut r = String::from_str(self.title.as_str());
        r.append("\n");
        let ghost vs = views(self.suggestions@);
        let ghost head = self.title@ + "\n"@;
        let mut i: usize = 0;
        while i < self.suggestions.len()
            invariant
                i <= self.suggestions.len(),
                vs == views(self.suggestions@),
                head == self.title@ + "\n"@,
                r@ == head + bullet_lines(vs.subrange(0, i as int)),
            decreases self.suggestions.len() - i,
        {
            assert(vs.subrange(0, i + 1).drop_last() =~= vs.subrange(0, i as int));
            assert(vs[i as int] == self.suggestions@[i as int]@);
            r.append("  • ");
            r.append(self.suggestions[i].as_str());
            r.append("\n");
            i += 1;
        }
        assert(vs.subrange(0, i as int) =~= vs);
        r
    }
}

} // verus!
