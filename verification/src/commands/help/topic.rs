//! The help-topic interface and the structured help output every topic
//! produces.
use vstd::prelude::*;
use vstd::string::StringExecFns;
use crate::cli::Renderable;
use crate::text::{views, owned};

verus! {

/// What context-aware topics know about the current directory.
#[derive(Debug, Clone, Copy, PartialEq, Eq, Structural)]
pub struct HelpContext {
    pub in_git_repo: bool,
}

/// One section of help: a heading and its body lines.
pub struct HelpSection {
    pub heading: String,
    pub body: Vec<String>,
}

/// The output of every help topic.
pub struct HelpOutput {
    /// The topic's stable identifier (e.g. `overview`).
    pub topic: String,
    /// One-line title above the sections.
    pub title: String,
    /// Body of the help, in reading order.
    pub sections: Vec<HelpSection>,
}

/// Strategy: a help topic the user can ask for by name.
pub trait HelpTopic {
    /// The identifier the user types after `marshal help`.
    fn name(&self) -> &'static str;

    /// Produce the help body for this topic.
    fn produce(&self) -> HelpOutput;
}

/// A section as plain text: heading and body lines.
pub open spec fn section_view(s: HelpSection) -> (Seq<char>, Seq<Seq<char>>) {
    (s.heading@, views(s.body@))
}

pub open spec fn sections_view(s: Seq<HelpSection>) -> Seq<(Seq<char>, Seq<Seq<char>>)> {
    s.map_values(|x: HelpSection| section_view(x))
}

/// The output has this topic, title and sections.
pub open spec fn help_is(o: HelpOutput, topic: Seq<char>, title: Seq<char>, sections: Seq<(Seq<char>, Seq<Seq<char>>)>) -> bool {
    o.topic@ == topic && o.title@ == title && sections_view(o.sections@) == sections
}

/// Indented body lines.
pub open spec fn indented(lines: Seq<Seq<char>>) -> Seq<char>
    decreases lines.len(),
{
    if lines.len() == 0 {
        Seq::empty()
    } else {
        indented(lines.drop_last()) + "  "@ + lines.last() + "\n"@
    }
}

/// Each section preceded by a blank line, heading, then its body.
pub open spec fn sections_text(s: Seq<(Seq<char>, Seq<Seq<char>>)>) -> Seq<char>
    decreases s.len(),
{
    if s.len() == 0 {
        Seq::empty()
    } else {
        sections_text(s.drop_last()) + "\n"@ + s.last().0 + "\n"@ + indented(s.last().1)
    }
}

/// A vector of owned copies of the given lines.
pub fn owned_lines(lines: &[&str]) -> (r: Vec<String>)
    ensures
        r@.len() == lines@.len(),
        forall|i: int| 0 <= i < lines@.len() ==> (#[trigger] r@[i])@ == lines@[i]@,
{
    let mut r: Vec<String> = Vec::new();
    let mut i: usize = 0;
    while i < lines.len()
        invariant
            i <= lines@.len(),
            r@.len() == i,
            forall|j: int| 0 <= j < i ==> (#[trigger] r@[j])@ == lines@[j]@,
        decreases lines@.len() - i,
    {
        r.push(owned(lines[i]));
        i += 1;
    }
    r
}

/// A section with this heading and body.
pub fn section(heading: &str, body: Vec<String>) -> (r: HelpSection)
    ensures
        r.heading@ == heading@,
        r.body@ == body@,
{
    HelpSection { heading: String::from_str(heading), body }
}

fn append_indented(r: &mut String, lines: &Vec<String>)
    ensures
        final(r)@ == old(r)@ + indented(views(lines@)),
{
    let ghost start = r@;
    let ghost vs = views(lines@);
    let mut i: usize = 0;
    while i < lines.len()
        invariant
            i <= lines.len(),
            vs == views(lines@),
            r@ == start + indented(vs.subrange(0, i as int)),
        decreases lines.len() - i,
    {
        assert(vs.subrange(0, i + 1).drop_last() =~= vs.subrange(0, i as int));
        assert(vs[i as int] == lines@[i as int]@);
        r.append("  ");
        r.append(lines[i].as_str());
        r.append("\n");
        i += 1;
    }
    assert(vs.subrange(0, i as int) =~= vs);
}

impl Renderable for HelpOutput {
    /// The title, then each section after a blank line.
    open spec fn rendered(&self) -> Seq<char> {
        self.title@ + "\n"@ + sections_text(sections_view(self.sections@))
    }

    fn render_human(&self) -> (r: String) {
        let mut r = String::from_str(self.title.as_str());
        r.append("\n");
        let ghost head = self.title@ + "\n"@;
        let ghost ss = sections_view(self.sections@);
        let mut i: usize = 0;
        while i < self.sections.len()
            invariant
                i <= self.sections.len(),
                ss == sections_view(self.sections@),
                head == self.title@ + "\n"@,
                r@ == head + sections_text(ss.subrange(0, i as int)),
            decreases self.sections.len() - i,
        {
            assert(ss.subrange(0, i + 1).drop_last() =~= ss.subrange(0, i as int));
            assert(ss[i as int] == section_view(self.sections@[i as int]));
            let sec = &self.sections[i];
            r.append("\n");
            r.append(sec.heading.as_str());
            r.append("\n");
            append_indented(&mut r, &sec.body);
            i += 1;
        }
        assert(ss.subrange(0, i as int) =~= ss);
        r
    }
}

} // verus!
