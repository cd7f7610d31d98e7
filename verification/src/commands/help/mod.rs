//! `marshal help` — marshal's documentation by topic. Topics are
//! looked up by exact name in a registry; with no argument the
//! `overview` topic answers.
pub mod topic;
pub mod topics;

use vstd::prelude::*;
use vstd::string::StringExecFns;
use crate::commands::help::topic::{help_is, HelpOutput, HelpTopic};
use crate::commands::help::topics::config::{config_sections, config_title, Config};
use crate::commands::help::topics::hints::{hints_sections, hints_title, Hints};
use crate::commands::help::topics::modernize::{modernize_sections, modernize_title, Modernize};
use crate::commands::help::topics::overview::{overview_sections, overview_title, Overview};
use crate::commands::help::topics::what_now::{what_now_sections, what_now_title, WhatNow};
use crate::commands::help::topics::register_defaults;
use crate::text::{join_seq, str_eq};

verus! {

/// The help topics marshal knows how to produce.
#[derive(Debug, Clone, Copy, PartialEq, Eq, Structural)]
pub enum Topic {
    Overview,
    Config,
    Hints,
    Modernize,
    WhatNow,
}

/// The name a user types after `marshal help` to reach `t`.
pub open spec fn topic_name(t: Topic) -> Seq<char> {
    match t {
        Topic::Overview => "overview"@,
        Topic::Config => "config"@,
        Topic::Hints => "hints"@,
        Topic::Modernize => "modernize"@,
        Topic::WhatNow => "what-now"@,
    }
}

pub open spec fn topic_title(t: Topic) -> Seq<char> {
    match t {
        Topic::Overview => overview_title(),
        Topic::Config => config_title(),
        Topic::Hints => hints_title(),
        Topic::Modernize => modernize_title(),
        Topic::WhatNow => what_now_title(),
    }
}

pub open spec fn topic_sections(t: Topic) -> Seq<(Seq<char>, Seq<Seq<char>>)> {
    match t {
        Topic::Overview => overview_sections(),
        Topic::Config => config_sections(),
        Topic::Hints => hints_sections(),
        Topic::Modernize => modernize_sections(),
        Topic::WhatNow => what_now_sections(),
    }
}

/// `o` is the help screen of topic `t`.
pub open spec fn produces(o: HelpOutput, t: Topic) -> bool {
    help_is(o, topic_name(t), topic_title(t), topic_sections(t))
}

impl HelpTopic for Topic {
    fn name(&self) -> (r: &'static str)
        ensures
            r@ == topic_name(*self),
    {
        match self {
            Topic::Overview => Overview.name(),
            Topic::Config => Config.name(),
            Topic::Hints => Hints.name(),
            Topic::Modernize => Modernize.name(),
            Topic::WhatNow => WhatNow.name(),
        }
    }

    fn produce(&self) -> (r: HelpOutput)
        ensures
            produces(r, *self),
    {
        match self {
            Topic::Overview => Overview.produce(),
            Topic::Config => Config.produce(),
            Topic::Hints => Hints.produce(),
            Topic::Modernize => Modernize.produce(),
            Topic::WhatNow => WhatNow.produce(),
        }
    }
}

/// The first topic in `topics` named `name`.
pub open spec fn first_named(topics: Seq<Topic>, name: Seq<char>) -> Option<Topic>
    decreases topics.len(),
{
    if topics.len() == 0 {
        None
    } else if topic_name(topics[0]) == name {
        Some(topics[0])
    } else {
        first_named(topics.drop_first(), name)
    }
}

/// The names of `topics`, in order.
pub open spec fn names_of(topics: Seq<Topic>) -> Seq<Seq<char>> {
    topics.map_values(|t: Topic| topic_name(t))
}

/// The topics registered by default.
pub open spec fn default_topics() -> Seq<Topic> {
    seq![Topic::Overview]
}

/// Topics in registration order; lookups are by exact name.
pub struct Registry {
    topics: Vec<Topic>,
}

impl View for Registry {
    type V = Seq<Topic>;

    closed spec fn view(&self) -> Seq<Topic> {
        self.topics@
    }
}

impl Registry {
    pub fn new() -> (r: Self)
        ensures
            r@ == Seq::<Topic>::empty(),
    {
        Registry { topics: Vec::new() }
    }

    pub fn register(&mut self, topic: Topic)
        ensures
            final(self)@ == old(self)@.push(topic),
    {
        self.topics.push(topic);
    }

    /// The first registered topic whose name is exactly `name`
    /// (case-sensitive).
    pub fn lookup(&self, name: &str) -> (r: Option<Topic>)
        ensures
            r == first_named(self@, name@),
    {
        let mut i: usize = 0;
        assert(self@.skip(0) =~= self@);
        while i < self.topics.len()
            invariant
                i <= self.topics.len(),
                first_named(self@, name@) == first_named(self@.skip(i as int), name@),
            decreases self.topics.len() - i,
        {
            let ghost rest = self@.skip(i as int);
            assert(rest.drop_first() =~= self@.skip(i + 1));
            assert(rest[0] == self.topics@[i as int]);
            let t = self.topics[i];
            if str_eq(t.name(), name) {
                return Some(t);
            }
            i += 1;
        }
        None
    }

    /// Every registered topic's name, in registration order.
    pub fn names(&self) -> (r: Vec<&'static str>)
        ensures
            r@.len() == self@.len(),
            forall|i: int| 0 <= i < r@.len() ==> (#[trigger] r@[i])@ == names_of(self@)[i],
    {
        let mut r: Vec<&'static str> = Vec::new();
        let mut i: usize = 0;
        while i < self.topics.len()
            invariant
                i <= self.topics.len(),
                r@.len() == i,
                forall|j: int| 0 <= j < i ==> (#[trigger] r@[j])@ == names_of(self@)[j],
            decreases self.topics.len() - i,
        {
            r.push(self.topics[i].name());
            i += 1;
        }
        r
    }
}

impl Default for Registry {
    /// The registry seeded with the default topics.
    fn default() -> (r: Self)
        ensures
            r@ == default_topics(),
    {
        let mut registry = Registry::new();
        register_defaults(&mut registry);
        assert(registry@ =~= default_topics());
        registry
    }
}

/// The error for a name no registered topic answers to.
pub open spec fn unknown_topic_msg(name: Seq<char>, topics: Seq<Topic>) -> Seq<char> {
    "unknown help topic '"@ + name + "'. Available topics: "@ + join_seq(names_of(topics), ", "@)
}

/// The topic name `marshal help` resolves: its first argument, or
/// `overview` when there is none.
pub open spec fn requested_topic(args: Seq<Seq<char>>) -> Seq<char> {
    if args.len() > 0 { args[0] } else { "overview"@ }
}

/// `marshal help [<topic>]`.
pub struct Help;

impl Help {
    /// Resolve the requested topic in the default registry and
    /// produce its help, or report the names that are available.
    pub fn run(&self, args: &Vec<String>) -> (r: Result<HelpOutput, String>)
        ensures
            ({
                let name = requested_topic(args@.map_values(|s: String| s@));
                match first_named(default_topics(), name) {
                    Some(t) => r matches Ok(o) && produces(o, t),
                    None => r matches Err(e) && e@ == unknown_topic_msg(name, default_topics()),
                }
            }),
    {
        let ghost vs = args@.map_values(|s: String| s@);
        let topic_name: &str = if args.len() > 0 { args[0].as_str() } else { "overview" };
        assert(topic_name@ == requested_topic(vs));
        let registry = Registry::default();
        match registry.lookup(topic_name) {
            Some(topic) => Ok(topic.produce()),
            None => {
                let names = registry.names();
                let mut msg = String::from_str("unknown help topic '");
                msg.append(topic_name);
                msg.append("'. Available topics: ");
                let ghost start = msg@;
                let mut i: usize = 0;
                while i < names.len()
                    invariant
                        i <= names.len(),
                        names@.len() == registry@.len(),
                        forall|j: int| 0 <= j < names@.len() ==> (#[trigger] names@[j])@ == names_of(registry@)[j],
                        msg@ == start + join_seq(names_of(registry@).subrange(0, i as int), ", "@),
                    decreases names.len() - i,
                {
                    let ghost ns = names_of(registry@);
                    assert(ns.subrange(0, i + 1).drop_last() =~= ns.subrange(0, i as int));
                    if i > 0 {
                        msg.append(", ");
                    }
                    msg.append(names[i]);
                    i += 1;
                }
                assert(names_of(registry@).subrange(0, i as int) =~= names_of(registry@));
                Err(msg)
            },
        }
    }
}

} // verus!
