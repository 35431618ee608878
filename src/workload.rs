use vstd::prelude::*;
use crate::error::ShimError;
use crate::text::{
    NUL, has_char, split_first, trim_of, strip_separator_spec, split_once, contains_char, trim,
    strip_separator,
};

verus! {

/// What an executor hands its engine: the program to load, the full
/// argument vector, and the environment as key and value pairs.
pub struct Workload {
    pub program: String,
    pub args: Vec<String>,
    pub env: Vec<(String, String)>,
}

/// The views of a sequence of strings.
pub open spec fn strings_view(v: Seq<String>) -> Seq<Seq<char>> {
    v.map_values(|s: String| s@)
}

/// The views of a sequence of string pairs.
pub open spec fn pairs_view(v: Seq<(String, String)>) -> Seq<(Seq<char>, Seq<char>)> {
    v.map_values(|p: (String, String)| (p.0@, p.1@))
}

/// The key and value an environment entry `KEY=VALUE` stands for: none where
/// it has no `=`, or where the key or the value holds a NUL character.
pub open spec fn env_entry(e: Seq<char>) -> Option<(Seq<char>, Seq<char>)> {
    if !has_char(e, '=') {
        None
    } else {
        let (k, v) = split_first(e, '=');
        if has_char(k, NUL) || has_char(v, NUL) {
            None
        } else {
            Some((trim_of(k), trim_of(v)))
        }
    }
}

/// The pairs that the entries stand for, in their order, with the dropped
/// entries left out.
pub open spec fn env_pairs(entries: Seq<Seq<char>>) -> Seq<(Seq<char>, Seq<char>)>
    decreases entries.len(),
{
    if entries.len() == 0 {
        seq![]
    } else {
        let rest = env_pairs(entries.drop_last());
        match env_entry(entries.last()) {
            Some(p) => rest.push(p),
            None => rest,
        }
    }
}

/// An entry whose key or value holds a NUL character, or which has no `=`,
/// adds nothing to the environment that entries before it give.
pub proof fn lemma_bad_entry_dropped(entries: Seq<Seq<char>>, e: Seq<char>)
    requires
        !has_char(e, '=') || has_char(split_first(e, '=').0, NUL) || has_char(split_first(e, '=').1, NUL),
    ensures
        env_entry(e) is None,
        env_pairs(entries.push(e)) == env_pairs(entries),
{
    assert(entries.push(e).drop_last() =~= entries);
}

/// A well-formed entry adds its trimmed key and value after the pairs that
/// the entries before it give.
pub proof fn lemma_good_entry_kept(entries: Seq<Seq<char>>, e: Seq<char>)
    requires
        has_char(e, '='),
        !has_char(split_first(e, '=').0, NUL),
        !has_char(split_first(e, '=').1, NUL),
    ensures
        env_pairs(entries.push(e)) == env_pairs(entries).push(
            (trim_of(split_first(e, '=').0), trim_of(split_first(e, '=').1)),
        ),
{
    assert(entries.push(e).drop_last() =~= entries);
}

/// The key and value of one environment entry, if it is well formed.
pub fn parse_env_entry(e: &String) -> (r: Option<(String, String)>)
    ensures
        match r {
            Some(p) => env_entry(e@) == Some((p.0@, p.1@)),
            None => env_entry(e@) is None,
        },
{
    match split_once(e.as_str(), '=') {
        None => None,
        Some((k, v)) => {
            if contains_char(k.as_str(), NUL) || contains_char(v.as_str(), NUL) {
                None
            } else {
                Some((trim(k.as_str()), trim(v.as_str())))
            }
        },
    }
}

/// The environment of a process specification as key and value pairs.
pub fn parse_env(entries: &Vec<String>) -> (r: Vec<(String, String)>)
    ensures
        pairs_view(r@) == env_pairs(strings_view(entries@)),
{
    let mut out: Vec<(String, String)> = Vec::new();
    let mut i: usize = 0;
    while i < entries.len()
        invariant
            i <= entries@.len(),
            pairs_view(out@) == env_pairs(strings_view(entries@.subrange(0, i as int))),
        decreases entries@.len() - i,
    {
        let parsed = parse_env_entry(&entries[i]);
        proof {
            let next = strings_view(entries@.subrange(0, i + 1));
            assert(next.drop_last() =~= strings_view(entries@.subrange(0, i as int)));
            assert(next.last() == entries@[i as int]@);
        }
        match parsed {
            Some(p) => {
                out.push(p);
                assert(pairs_view(out@) =~= env_pairs(strings_view(entries@.subrange(0, i + 1))));
            },
            None => {},
        }
        i = i + 1;
    }
    assert(entries@.subrange(0, entries@.len() as int) =~= entries@);
    out
}

/// The argument vector of a process specification: empty where the
/// specification has no process or its process no arguments.
pub fn get_args(process_args: Option<Vec<String>>) -> (r: Vec<String>)
    ensures
        r@ == match process_args {
            Some(a) => a@,
            None => Seq::<String>::empty(),
        },
{
    match process_args {
        Some(a) => a,
        None => Vec::new(),
    }
}

/// Turns the arguments and environment of a process specification into a
/// workload: the program is the first argument without one leading path
/// separator. A specification with no arguments names no program.
pub fn prepare_workload(args: Vec<String>, env: &Vec<String>) -> (r: Result<Workload, ShimError>)
    ensures
        r is Err <==> args@.len() == 0,
        r matches Err(e) ==> e is Execution,
        r matches Ok(w) ==> {
            &&& w.program@ == strip_separator_spec(args@[0]@)
            &&& w.args@ == args@
            &&& pairs_view(w.env@) == env_pairs(strings_view(env@))
        },
{
    if args.len() == 0 {
        return Err(ShimError::Execution("the process specification names no program".to_string()));
    }
    let program = strip_separator(args[0].as_str());
    let env = parse_env(env);
    Ok(Workload { program, args, env })
}

} // verus!
