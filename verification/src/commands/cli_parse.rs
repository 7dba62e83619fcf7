//! `--key value` argument parsing shared by the CLI subcommands.
use vstd::prelude::*;

use crate::text::{append_str, has_prefix, str_eq, string_from_chars};

verus! {

/// Flag values by name, in order of first appearance: `(name, values in order)`.
pub type FlagsView = Seq<(Seq<char>, Seq<Seq<char>>)>;

/// Parsed argv: repeated `--key value` flags and the remaining positional tokens.
#[derive(Debug)]
pub struct ParsedArgs {
    /// Flag values by name, in order of first appearance; names are distinct.
    pub flags: Vec<(String, Vec<String>)>,
    pub positionals: Vec<String>,
}

impl Default for ParsedArgs {
    fn default() -> (r: Self)
        ensures
            r.flags@.len() == 0,
            r.positionals@.len() == 0,
    {
        ParsedArgs { flags: Vec::new(), positionals: Vec::new() }
    }
}

/// Views of a list of strings.
pub open spec fn strings_view(v: Seq<String>) -> Seq<Seq<char>> {
    v.map_values(|s: String| s@)
}

/// Views of a list of string slices.
pub open spec fn strs_view(v: Seq<&str>) -> Seq<Seq<char>> {
    v.map_values(|s: &str| s@)
}

/// Views of the flag table.
pub open spec fn flags_view(v: Seq<(String, Vec<String>)>) -> FlagsView {
    v.map_values(|e: (String, Vec<String>)| (e.0@, strings_view(e.1@)))
}

/// Position of flag `name` in the table, if present.
pub open spec fn flag_index(flags: FlagsView, name: Seq<char>) -> Option<int> {
    if exists|i: int| 0 <= i < flags.len() && (#[trigger] flags[i]).0 == name {
        Some(choose|i: int| 0 <= i < flags.len() && (#[trigger] flags[i]).0 == name)
    } else {
        None
    }
}

/// Flag names are distinct.
pub open spec fn distinct_names(flags: FlagsView) -> bool {
    forall|i: int, j: int| 0 <= i < j < flags.len() ==> (#[trigger] flags[i]).0 != (#[trigger] flags[j]).0
}

/// Every flag in the table carries at least one value.
pub open spec fn values_nonempty(flags: FlagsView) -> bool {
    forall|i: int| 0 <= i < flags.len() ==> (#[trigger] flags[i]).1.len() > 0
}

/// The table with `value` added to flag `name` (a new entry when absent).
pub open spec fn add_flag(flags: FlagsView, name: Seq<char>, value: Seq<char>) -> FlagsView {
    match flag_index(flags, name) {
        Some(i) => flags.update(i, (name, flags[i].1.push(value))),
        None => flags.push((name, seq![value])),
    }
}

/// Values of flag `name`, empty when absent.
pub open spec fn flag_values(flags: FlagsView, name: Seq<char>) -> Seq<Seq<char>> {
    match flag_index(flags, name) {
        Some(i) => flags[i].1,
        None => Seq::empty(),
    }
}

/// Parsing of `args` from position `i` on, with flags and positionals seen so far; `Err`
/// carries the error message.
pub open spec fn parse_from(
    args: Seq<Seq<char>>,
    i: int,
    flags: FlagsView,
    pos: Seq<Seq<char>>,
) -> Result<(FlagsView, Seq<Seq<char>>), Seq<char>>
    decreases args.len() - i,
{
    if i < 0 || i >= args.len() {
        Ok((flags, pos))
    } else if has_prefix(args[i], "--"@) {
        let key = args[i].subrange(2, args[i].len() as int);
        if key.len() == 0 {
            Err("empty flag name"@)
        } else if i + 1 >= args.len() {
            Err("missing value for --"@ + key)
        } else if args[i + 1].len() > 0 && args[i + 1][0] == '-' {
            Err("missing value for --"@ + key + " (got another flag)"@)
        } else {
            parse_from(args, i + 2, add_flag(flags, key, args[i + 1]), pos)
        }
    } else {
        parse_from(args, i + 1, flags, pos.push(args[i]))
    }
}

/// Parsing of a whole argv.
pub open spec fn parse_spec(args: Seq<Seq<char>>) -> Result<(FlagsView, Seq<Seq<char>>), Seq<char>> {
    parse_from(args, 0, Seq::empty(), Seq::empty())
}

proof fn lemma_add_flag_distinct(flags: FlagsView, name: Seq<char>, value: Seq<char>)
    requires
        distinct_names(flags),
        values_nonempty(flags),
    ensures
        distinct_names(add_flag(flags, name, value)),
        values_nonempty(add_flag(flags, name, value)),
{
    let r = add_flag(flags, name, value);
    assert forall|a: int| 0 <= a < r.len() implies (#[trigger] r[a]).1.len() > 0 by {
        match flag_index(flags, name) {
            Some(i) => {
                if a == i {
                    assert(r[a].1 == flags[i].1.push(value));
                } else {
                    assert(r[a] == flags[a]);
                }
            },
            None => {
                if a < flags.len() {
                    assert(r[a] == flags[a]);
                }
            },
        }
    }
    match flag_index(flags, name) {
        Some(i) => {
            assert forall|a: int, b: int| 0 <= a < b < r.len() implies (#[trigger] r[a]).0 != (
            #[trigger] r[b]).0 by {
                assert(r[a].0 == flags[a].0);
                assert(r[b].0 == flags[b].0);
            }
        },
        None => {
            assert forall|a: int, b: int| 0 <= a < b < r.len() implies (#[trigger] r[a]).0 != (
            #[trigger] r[b]).0 by {
                if b == flags.len() {
                    assert(flags[a].0 != name);
                }
            }
        },
    }
}

fn clone_strings(v: &Vec<String>) -> (r: Vec<String>)
    ensures
        strings_view(r@) == strings_view(v@),
{
    let mut r: Vec<String> = Vec::new();
    let mut i: usize = 0;
    while i < v.len()
        invariant
            i <= v@.len(),
            strings_view(r@) == strings_view(v@.subrange(0, i as int)),
        decreases v@.len() - i,
    {
        r.push(v[i].clone());
        assert(strings_view(v@.subrange(0, i + 1)) =~= strings_view(v@.subrange(0, i as int)).push(
            v@[i as int]@,
        ));
        assert(strings_view(r@) =~= strings_view(v@.subrange(0, i + 1)));
        i = i + 1;
    }
    assert(v@.subrange(0, v@.len() as int) =~= v@);
    r
}

/// Index of flag `name` in `flags`.
fn find_flag(flags: &Vec<(String, Vec<String>)>, name: &str) -> (r: Option<usize>)
    requires
        distinct_names(flags_view(flags@)),
    ensures
        match r {
            Some(i) => flag_index(flags_view(flags@), name@) == Some(i as int),
            None => flag_index(flags_view(flags@), name@) is None,
        },
{
    let ghost fv = flags_view(flags@);
    let mut i: usize = 0;
    while i < flags.len()
        invariant
            fv == flags_view(flags@),
            fv.len() == flags@.len(),
            distinct_names(fv),
            i <= flags@.len(),
            forall|j: int| 0 <= j < i ==> (#[trigger] fv[j]).0 != name@,
        decreases flags@.len() - i,
    {
        if str_eq(flags[i].0.as_str(), name) {
            assert(fv[i as int].0 == name@);
            let ghost c = choose|k: int| 0 <= k < fv.len() && (#[trigger] fv[k]).0 == name@;
            assert(c == i) by {
                if c != i {
                    if c < i {
                        assert(fv[c].0 != name@);
                    } else {
                        assert(fv[i as int].0 != fv[c].0);
                    }
                }
            }
            return Some(i);
        }
        i = i + 1;
    }
    None
}

/// Parse argv-like slice: `--key value` pairs and remaining positional tokens.
pub fn parse_args(args: &[String]) -> (r: Result<ParsedArgs, String>)
    ensures
        match parse_spec(strings_view(args@)) {
            Ok((f, p)) => r matches Ok(pa) && flags_view(pa.flags@) == f && strings_view(
                pa.positionals@,
            ) == p && distinct_names(f) && values_nonempty(f),
            Err(msg) => r matches Err(m) && m@ == msg,
        },
{
    let ghost av = strings_view(args@);
    let mut flags: Vec<(String, Vec<String>)> = Vec::new();
    let mut positionals: Vec<String> = Vec::new();
    let mut i: usize = 0;
    assert(flags_view(flags@) =~= Seq::empty());
    assert(strings_view(positionals@) =~= Seq::empty());
    while i < args.len()
        invariant
            av == strings_view(args@),
            av.len() == args@.len(),
            i <= args@.len(),
            distinct_names(flags_view(flags@)),
            values_nonempty(flags_view(flags@)),
            parse_from(av, i as int, flags_view(flags@), strings_view(positionals@)) == parse_spec(av),
        decreases args@.len() - i,
    {
        let token = &args[i];
        assert(av[i as int] == token@);
        if starts_with_dashes(token.as_str()) {
            let n = token.unicode_len();
            proof {
                reveal_strlit("--");
            }
            assert(n >= 2);
            let mut key_chars: Vec<char> = Vec::new();
            let mut k: usize = 2;
            while k < n
                invariant
                    n == token@.len(),
                    2 <= n,
                    2 <= k <= n,
                    key_chars@ == token@.subrange(2, k as int),
                decreases n - k,
            {
                key_chars.push(token.as_str().get_char(k));
                assert(token@.subrange(2, k + 1) =~= token@.subrange(2, k as int).push(token@[k as int]));
                k = k + 1;
            }
            let key = string_from_chars(key_chars.as_slice());
            if key_chars.len() == 0 {
                return Err(string_from_chars(chars_lit("empty flag name").as_slice()));
            }
            if i + 1 >= args.len() {
                let mut msg: Vec<char> = Vec::new();
                append_str(&mut msg, "missing value for --");
                append_str(&mut msg, key.as_str());
                return Err(string_from_chars(msg.as_slice()));
            }
            let value = &args[i + 1];
            assert(av[i + 1] == value@);
            if value.unicode_len() > 0 && value.as_str().get_char(0) == '-' {
                let mut msg: Vec<char> = Vec::new();
                append_str(&mut msg, "missing value for --");
                append_str(&mut msg, key.as_str());
                append_str(&mut msg, " (got another flag)");
                return Err(string_from_chars(msg.as_slice()));
            }
            let ghost before = flags_view(flags@);
            proof {
                lemma_add_flag_distinct(before, key@, value@);
            }
            match find_flag(&flags, key.as_str()) {
                Some(fi) => {
                    let mut values = clone_strings(&flags[fi].1);
                    values.push(value.clone());
                    let name = flags[fi].0.clone();
                    flags.set(fi, (name, values));
                    proof {
                        assert(strings_view(values@) =~= before[fi as int].1.push(value@));
                        assert(flags_view(flags@) =~= add_flag(before, key@, value@));
                    }
                },
                None => {
                    let mut values: Vec<String> = Vec::new();
                    values.push(value.clone());
                    flags.push((key, values));
                    proof {
                        assert(strings_view(values@) =~= seq![value@]);
                        assert(flags_view(flags@) =~= add_flag(before, key@, value@));
                    }
                },
            }
            i = i + 2;
        } else {
            let ghost before = strings_view(positionals@);
            positionals.push(token.clone());
            assert(strings_view(positionals@) =~= before.push(token@));
            i = i + 1;
        }
    }
    Ok(ParsedArgs { flags, positionals })
}

/// The characters of a literal.
fn chars_lit(s: &str) -> (r: Vec<char>)
    ensures
        r@ == s@,
{
    let mut v: Vec<char> = Vec::new();
    append_str(&mut v, s);
    assert(v@ =~= s@);
    v
}

fn starts_with_dashes(t: &str) -> (r: bool)
    ensures
        r == has_prefix(t@, "--"@),
{
    crate::text::starts_with_str(t, "--")
}

impl ParsedArgs {
    /// The parse is well formed: distinct flag names, each with at least one value.
    pub open spec fn wf(&self) -> bool {
        distinct_names(flags_view(self.flags@)) && values_nonempty(flags_view(self.flags@))
    }

    /// The only value of `--name`: `None` when absent, an error when given more than once.
    pub fn single_flag<'a>(&'a self, name: &str) -> (r: Result<Option<&'a str>, String>)
        requires
            self.wf(),
        ensures
            flag_values(flags_view(self.flags@), name@).len() == 0 ==> r matches Ok(None),
            flag_values(flags_view(self.flags@), name@).len() == 1 ==> (r matches Ok(Some(v))
                && v@ == flag_values(flags_view(self.flags@), name@)[0]),
            flag_values(flags_view(self.flags@), name@).len() > 1 ==> (r matches Err(m) && m@
                == "--"@ + name@ + " must appear at most once"@),
    {
        let ghost fv = flags_view(self.flags@);
        match find_flag(&self.flags, name) {
            None => Ok(None),
            Some(i) => {
                let values = &self.flags[i].1;
                assert(fv[i as int].1 == strings_view(values@));
                assert(fv[i as int].1.len() > 0);
                if values.len() == 1 {
                    Ok(Some(values[0].as_str()))
                } else {
                    let mut msg: Vec<char> = Vec::new();
                    append_str(&mut msg, "--");
                    append_str(&mut msg, name);
                    append_str(&mut msg, " must appear at most once");
                    assert(msg@ =~= "--"@ + name@ + " must appear at most once"@);
                    Err(string_from_chars(msg.as_slice()))
                }
            },
        }
    }

    /// All values of `--name`, in order (empty when absent).
    pub fn multi_flag<'a>(&'a self, name: &str) -> (r: Vec<&'a str>)
        requires
            self.wf(),
        ensures
            strs_view(r@) == flag_values(flags_view(self.flags@), name@),
    {
        let ghost fv = flags_view(self.flags@);
        let mut out: Vec<&'a str> = Vec::new();
        match find_flag(&self.flags, name) {
            None => {
                assert(strs_view(out@) =~= Seq::<Seq<char>>::empty());
            },
            Some(fi) => {
                let values = &self.flags[fi].1;
                assert(fv[fi as int].1 == strings_view(values@));
                let mut i: usize = 0;
                while i < values.len()
                    invariant
                        i <= values@.len(),
                        strs_view(out@) == strings_view(values@.subrange(0, i as int)),
                    decreases values@.len() - i,
                {
                    let ghost before = out@;
                    let v = values[i].as_str();
                    out.push(v);
                    assert(strs_view(out@) =~= strs_view(before).push(v@));
                    assert(strings_view(values@.subrange(0, i + 1)) =~= strings_view(
                        values@.subrange(0, i as int),
                    ).push(values@[i as int]@));
                    i = i + 1;
                }
                assert(values@.subrange(0, values@.len() as int) =~= values@);
            },
        }
        out
    }
}

} // verus!
