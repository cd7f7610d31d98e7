//! The marshal command surface: output formats, the human renderer
//! contract, and the global flags (`--json`, `--all`, `--on <name>`)
//! that the dispatchers strip from argv before routing.
use vstd::prelude::*;
use crate::text::{opt_view, char_len, owned, starts_with_spec, str_eq, strip_prefix, views};
use vstd::string::StringExecFns;

verus! {

/// Output format the user asked for. Set once by the dispatcher;
/// commands never branch on it.
#[derive(Debug, Clone, Copy, PartialEq, Eq, Structural)]
pub enum OutputFormat {
    Human,
    Json,
}

impl Default for OutputFormat {
    /// Human is the default everywhere.
    fn default() -> (r: Self)
        ensures
            r == OutputFormat::Human,
    {
        OutputFormat::Human
    }
}

/// Produce the human-readable form of an output value. Every command
/// output implements it; the JSON form is produced by the front end.
pub trait Renderable {
    /// The exact text of the human form.
    spec fn rendered(&self) -> Seq<char>;

    /// Build the human form.
    fn render_human(&self) -> (r: String)
        ensures
            r@ == self.rendered(),
    ;
}

/// `args` with every element equal to `flag` removed (order kept).
pub open spec fn without(args: Seq<Seq<char>>, flag: Seq<char>) -> Seq<Seq<char>>
    decreases args.len(),
{
    if args.len() == 0 {
        Seq::empty()
    } else if args.last() == flag {
        without(args.drop_last(), flag)
    } else {
        without(args.drop_last(), flag).push(args.last())
    }
}

/// Remove every occurrence of `flag`; report whether there was one.
fn extract_flag(args: &Vec<String>, flag: &str) -> (r: (bool, Vec<String>))
    ensures
        r.0 == views(args@).contains(flag@),
        views(r.1@) == without(views(args@), flag@),
{
    let mut filtered: Vec<String> = Vec::new();
    let mut found = false;
    let mut i: usize = 0;
    let ghost vs = views(args@);
    while i < args.len()
        invariant
            i <= args.len(),
            vs == views(args@),
            found == vs.subrange(0, i as int).contains(flag@),
            views(filtered@) == without(vs.subrange(0, i as int), flag@),
        decreases args.len() - i,
    {
        let ghost before = vs.subrange(0, i as int);
        let ghost after = vs.subrange(0, i + 1);
        assert(after.drop_last() =~= before);
        assert(after.last() == args[i as int]@);
        if str_eq(args[i].as_str(), flag) {
            found = true;
            assert(after.contains(flag@)) by {
                assert(after[i as int] == flag@);
            }
        } else {
            filtered.push(args[i].clone());
            assert(views(filtered@) =~= views(filtered@.drop_last()).push(args[i as int]@));
            assert(after.contains(flag@) == before.contains(flag@)) by {
                if after.contains(flag@) {
                    let k = choose|k: int| 0 <= k < after.len() && after[k] == flag@;
                    assert(k < i);
                    assert(before[k] == flag@);
                }
                if before.contains(flag@) {
                    let k = choose|k: int| 0 <= k < before.len() && before[k] == flag@;
                    assert(after[k] == flag@);
                }
            }
        }
        if found {
            assert(after.contains(flag@)) by {
                if before.contains(flag@) {
                    let k = choose|k: int| 0 <= k < before.len() && before[k] == flag@;
                    assert(after[k] == flag@);
                }
            }
        }
        i += 1;
    }
    assert(vs.subrange(0, args.len() as int) =~= vs);
    (found, filtered)
}

/// Strip `--json` from `args` (anywhere — global flag semantics) and
/// return the selected output format with the remaining argv.
pub fn extract_json_flag(args: &Vec<String>) -> (r: (OutputFormat, Vec<String>))
    ensures
        r.0 == (if views(args@).contains("--json"@) {
            OutputFormat::Json
        } else {
            OutputFormat::Human
        }),
        views(r.1@) == without(views(args@), "--json"@),
{
    let (json, filtered) = extract_flag(args, "--json");
    let format = if json { OutputFormat::Json } else { OutputFormat::Human };
    (format, filtered)
}

/// Strip `--all` from `args` (anywhere); report whether it was present.
pub fn extract_all_flag(args: &Vec<String>) -> (r: (bool, Vec<String>))
    ensures
        r.0 == views(args@).contains("--all"@),
        views(r.1@) == without(views(args@), "--all"@),
{
    extract_flag(args, "--all")
}

/// Strip `--explain` from `args` (anywhere); report whether it was
/// present. Under it a workspace command describes its plan and does
/// nothing else.
pub fn extract_explain_flag(args: &Vec<String>) -> (r: (bool, Vec<String>))
    ensures
        r.0 == views(args@).contains("--explain"@),
        views(r.1@) == without(views(args@), "--explain"@),
{
    extract_flag(args, "--explain")
}

pub open spec fn on_missing_value_msg() -> Seq<char> {
    "'--on' expects a value (e.g. `--on service-a`)"@
}

pub open spec fn on_repeated_msg() -> Seq<char> {
    "'--on' specified more than once"@
}

pub open spec fn on_empty_msg() -> Seq<char> {
    "'--on' expects a non-empty repo name"@
}

/// Recording one `--on` value into the slot.
pub open spec fn assign_on_spec(slot: Option<Seq<char>>, value: Seq<char>) -> Result<Seq<char>, Seq<char>> {
    if slot is Some {
        Err(on_repeated_msg())
    } else if value.len() == 0 {
        Err(on_empty_msg())
    } else {
        Ok(value)
    }
}

/// Left-to-right reading of `args[i..]` for `--on <name>` /
/// `--on=<name>`, with the value found so far and the args kept so far.
pub open spec fn on_scan(
    args: Seq<Seq<char>>,
    i: int,
    on: Option<Seq<char>>,
    kept: Seq<Seq<char>>,
) -> Result<(Option<Seq<char>>, Seq<Seq<char>>), Seq<char>>
    decreases args.len() - i,
{
    if i < 0 || i >= args.len() {
        Ok((on, kept))
    } else if args[i] == "--on"@ {
        if i + 1 >= args.len() {
            Err(on_missing_value_msg())
        } else {
            match assign_on_spec(on, args[i + 1]) {
                Ok(v) => on_scan(args, i + 2, Some(v), kept),
                Err(e) => Err(e),
            }
        }
    } else if starts_with_spec(args[i], "--on="@) {
        match assign_on_spec(on, args[i].skip(5)) {
            Ok(v) => on_scan(args, i + 1, Some(v), kept),
            Err(e) => Err(e),
        }
    } else {
        on_scan(args, i + 1, on, kept.push(args[i]))
    }
}

/// Record the `--on` value; refuses a second value and an empty one.
pub fn assign_on(slot: &mut Option<String>, value: &str) -> (r: Result<(), String>)
    ensures
        match assign_on_spec(opt_view(*old(slot)), value@) {
            Ok(v) => r is Ok && (*final(slot) matches Some(t) && t@ == v),
            Err(e) => (r matches Err(m) && m@ == e) && *final(slot) == *old(slot),
        },
{
    if slot.is_some() {
        return Err(String::from_str("'--on' specified more than once"));
    }
    if char_len(value) == 0 {
        return Err(String::from_str("'--on' expects a non-empty repo name"));
    }
    *slot = Some(owned(value));
    Ok(())
}

/// Strip `--on <name>` (or `--on=<name>`) from `args`, returning the
/// optional repo name plus the remaining argv.
pub fn extract_on_flag(args: &Vec<String>) -> (r: Result<(Option<String>, Vec<String>), String>)
    ensures
        match on_scan(views(args@), 0, None, Seq::empty()) {
            Ok((on, kept)) => r matches Ok((o, f)) && opt_view(o) == on && views(f@) == kept,
            Err(e) => r matches Err(m) && m@ == e,
        },
{
    let ghost vs = views(args@);
    let mut filtered: Vec<String> = Vec::new();
    let mut on: Option<String> = None;
    let mut i: usize = 0;
    assert(views(filtered@) =~= Seq::<Seq<char>>::empty());
    while i < args.len()
        invariant
            i <= args.len() + 1,
            vs == views(args@),
            on_scan(vs, 0, None, Seq::empty()) == on_scan(vs, i as int, opt_view(on), views(filtered@)),
        decreases args.len() + 1 - i,
    {
        let arg = args[i].as_str();
        let ghost on0 = opt_view(on);
        let ghost kept0 = views(filtered@);
        assert(vs[i as int] == arg@);
        if str_eq(arg, "--on") {
            if i + 1 >= args.len() {
                return Err(String::from_str("'--on' expects a value (e.g. `--on service-a`)"));
            }
            let value = args[i + 1].as_str();
            assert(vs[i + 1] == value@);
            match assign_on(&mut on, value) {
                Ok(()) => {}
                Err(e) => {
                    return Err(e);
                }
            }
            assert(on_scan(vs, i as int, on0, kept0) == on_scan(vs, i + 2, opt_view(on), views(filtered@)));
            i += 2;
        } else {
            match strip_prefix(arg, "--on=") {
                Some(value) => {
                    proof {
                        reveal_strlit("--on=");
                    }
                    match assign_on(&mut on, value.as_str()) {
                        Ok(()) => {}
                        Err(e) => {
                            return Err(e);
                        }
                    }
                    assert(on_scan(vs, i as int, on0, kept0) == on_scan(vs, i + 1, opt_view(on), views(filtered@)));
                    i += 1;
                }
                None => {
                    filtered.push(args[i].clone());
                    assert(views(filtered@) =~= kept0.push(arg@));
                    assert(on_scan(vs, i as int, on0, kept0) == on_scan(vs, i + 1, opt_view(on), views(filtered@)));
                    i += 1;
                }
            }
        }
    }
    (Ok((on, filtered)))
}

proof fn lemma_without_concat(x: Seq<Seq<char>>, y: Seq<Seq<char>>, flag: Seq<char>)
    ensures
        without(x + y, flag) == without(x, flag) + without(y, flag),
    decreases y.len(),
{
    if y.len() == 0 {
        assert(x + y =~= x);
        assert(without(x, flag) + without(y, flag) =~= without(x, flag));
    } else {
        lemma_without_concat(x, y.drop_last(), flag);
        assert((x + y).drop_last() =~= x + y.drop_last());
        assert((x + y).last() == y.last());
        if y.last() != flag {
            assert(without(x, flag) + without(y.drop_last(), flag).push(y.last())
                =~= (without(x, flag) + without(y.drop_last(), flag)).push(y.last()));
        }
    }
}

/// A global flag means the same wherever it stands: moving `flag`
/// anywhere in the argument list (or repeating it) leaves what remains
/// after stripping it, and the fact that it was given, unchanged.
pub proof fn law_global_flag_position_is_irrelevant(a: Seq<Seq<char>>, b: Seq<Seq<char>>, flag: Seq<char>)
    ensures
        without(a + seq![flag] + b, flag) == without(seq![flag] + a + b, flag),
        without(a + seq![flag] + b, flag) == without(a + b, flag),
        (a + seq![flag] + b).contains(flag),
{
    lemma_without_concat(a, seq![flag], flag);
    lemma_without_concat(a + seq![flag], b, flag);
    lemma_without_concat(a, b, flag);
    lemma_without_concat(seq![flag], a, flag);
    lemma_without_concat(seq![flag] + a, b, flag);
    let one = seq![flag];
    assert(one.drop_last() =~= Seq::<Seq<char>>::empty());
    assert(one.last() == flag);
    assert(without(Seq::<Seq<char>>::empty(), flag) =~= Seq::<Seq<char>>::empty());
    assert(without(one, flag) == without(one.drop_last(), flag));
    assert(without(one, flag) =~= Seq::<Seq<char>>::empty());
    assert(without(a, flag) + without(one, flag) =~= without(a, flag));
    assert(without(one, flag) + without(a, flag) =~= without(a, flag));
    assert((a + seq![flag] + b)[a.len() as int] == flag);
}

/// What `marshal <sub>` answers for a subcommand it does not know.
pub fn unknown_subcommand(sub: &str) -> (r: String)
    ensures
        r@ == "marshal: unknown subcommand '"@ + sub@ + "'. Run 'git marshal' for the list."@,
{
    let mut m = String::from_str("marshal: unknown subcommand '");
    m.append(sub);
    m.append("'. Run 'git marshal' for the list.");
    m
}

} // verus!
