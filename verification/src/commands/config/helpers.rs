//! Argv helpers shared by the `config get/set/unset/list` commands.
use vstd::prelude::*;
use vstd::string::StringExecFns;
use crate::config::Level;
use crate::text::{owned, str_eq, views};

verus! {

/// The level a leading `--system` / `--global` / `--local` selects,
/// and how many arguments it takes up.
pub open spec fn level_flag_spec(args: Seq<Seq<char>>) -> (Level, int) {
    if args.len() > 0 && args[0] == "--system"@ {
        (Level::System, 1)
    } else if args.len() > 0 && args[0] == "--global"@ {
        (Level::Global, 1)
    } else if args.len() > 0 && args[0] == "--local"@ {
        (Level::Local, 1)
    } else {
        (Level::Global, 0)
    }
}

/// Strip a leading level flag when present and return the target level
/// with the remaining args. Without a flag the level is `Global`.
pub fn extract_level_flag(args: &Vec<String>) -> (r: Result<(Level, Vec<String>), String>)
    ensures
        r matches Ok((level, rest)) && level == level_flag_spec(views(args@)).0
            && views(rest@) == views(args@).skip(level_flag_spec(views(args@)).1),
{
    let ghost vs = views(args@);
    let (level, skip): (Level, usize) = if args.len() == 0 {
        (Level::Global, 0)
    } else {
        let first = args[0].as_str();
        assert(vs[0] == first@);
        if str_eq(first, "--system") {
            (Level::System, 1)
        } else if str_eq(first, "--global") {
            (Level::Global, 1)
        } else if str_eq(first, "--local") {
            (Level::Local, 1)
        } else {
            (Level::Global, 0)
        }
    };
    let mut rest: Vec<String> = Vec::new();
    let mut i: usize = skip;
    while i < args.len()
        invariant
            skip <= i <= args.len(),
            skip <= 1,
            skip <= args.len(),
            vs == views(args@),
            views(rest@) == vs.subrange(skip as int, i as int),
        decreases args.len() - i,
    {
        assert(vs[i as int] == args@[i as int]@);
        let ghost old_rest = views(rest@);
        rest.push(args[i].clone());
        assert(views(rest@) =~= old_rest.push(vs[i as int]));
        assert(vs.subrange(skip as int, i + 1) =~= vs.subrange(skip as int, i as int).push(vs[i as int]));
        i += 1;
    }
    assert(vs.subrange(skip as int, args.len() as int) =~= vs.skip(skip as int));
    Ok((level, rest))
}

pub open spec fn usage_msg(usage: Seq<char>) -> Seq<char> {
    "usage: "@ + usage
}

/// `args[idx]`, or the usage hint when there is no such argument.
pub fn arg_as_str(args: &Vec<String>, idx: usize, usage: &str) -> (r: Result<String, String>)
    ensures
        idx < args@.len() ==> (r matches Ok(s) && s@ == args@[idx as int]@),
        idx >= args@.len() ==> (r matches Err(m) && m@ == usage_msg(usage@)),
{
    if idx < args.len() {
        Ok(owned(args[idx].as_str()))
    } else {
        let mut m = String::from_str("usage: ");
        m.append(usage);
        Err(m)
    }
}

} // verus!
