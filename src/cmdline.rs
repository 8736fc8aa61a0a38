use vstd::prelude::*;

use crate::error::Error;

verus! {

/// Whether an argument is written between double quotes: it is empty, or it
/// holds a space or a tab.
pub open spec fn needs_quotes(s: Seq<char>) -> bool {
    s.len() == 0 || exists|i: int| 0 <= i < s.len() && (s[i] == ' ' || s[i] == '\t')
}

/// Whether the run of backslashes that starts `t` ends at a double quote, or
/// at the end of `t` where a closing quote follows (`closed`).
pub open spec fn run_meets_quote(t: Seq<char>, closed: bool) -> bool
    decreases t.len(),
{
    if t.len() == 0 {
        closed
    } else if t[0] == '\\' {
        run_meets_quote(t.drop_first(), closed)
    } else {
        t[0] == '"'
    }
}

/// How the first character of `s` is written: a double quote as `\"`, a
/// backslash twice where its run meets a quote, anything else as itself.
pub open spec fn escaped_head(s: Seq<char>, closed: bool) -> Seq<char>
    recommends
        s.len() > 0,
{
    if s[0] == '"' {
        seq!['\\', '"']
    } else if s[0] == '\\' && run_meets_quote(s.drop_first(), closed) {
        seq!['\\', '\\']
    } else {
        seq![s[0]]
    }
}

/// `s` with each character written as `escaped_head` says.
pub open spec fn escaped(s: Seq<char>, closed: bool) -> Seq<char>
    decreases s.len(),
{
    if s.len() == 0 {
        Seq::empty()
    } else {
        escaped_head(s, closed) + escaped(s.drop_first(), closed)
    }
}

/// An argument as it stands in a command line: escaped, and between double
/// quotes where it needs them, so that the child's parser reads it back.
pub open spec fn quoted(s: Seq<char>) -> Seq<char> {
    if needs_quotes(s) {
        seq!['"'] + escaped(s, true) + seq!['"']
    } else {
        escaped(s, false)
    }
}

/// The arguments `args`, each quoted and preceded by a space.
pub open spec fn joined_args(args: Seq<Seq<char>>) -> Seq<char>
    decreases args.len(),
{
    if args.len() == 0 {
        Seq::empty()
    } else {
        joined_args(args.drop_last()) + seq![' '] + quoted(args.last())
    }
}

/// Whether `s` holds a NUL, which no wide C string can carry.
pub open spec fn has_nul(s: Seq<char>) -> bool {
    exists|i: int| 0 <= i < s.len() && s[i] == '\0'
}

/// Relies on `str::chars` and `Iterator::collect`: the characters of `s`, in
/// order.
#[verifier::external_body]
fn chars_of(s: &str) -> (r: Vec<char>)
    ensures
        r@ == s@,
{
    s.chars().collect()
}

/// Relies on `String::from_iter`: the string of the characters `v`, in
/// order.
#[verifier::external_body]
fn string_of(v: &Vec<char>) -> (r: String)
    ensures
        r@ == v@,
{
    String::from_iter(v.iter())
}

fn has_blank(cs: &Vec<char>) -> (r: bool)
    ensures
        r == needs_quotes(cs@),
{
    if cs.len() == 0 {
        return true;
    }
    let mut i: usize = 0;
    while i < cs.len()
        invariant
            0 <= i <= cs.len(),
            forall|k: int| 0 <= k < i ==> cs@[k] != ' ' && cs@[k] != '\t',
        decreases cs.len() - i,
    {
        if cs[i] == ' ' || cs[i] == '\t' {
            return true;
        }
        i = i + 1;
    }
    false
}

fn meets_quote(cs: &Vec<char>, start: usize, closed: bool) -> (r: bool)
    requires
        start <= cs.len(),
    ensures
        r == run_meets_quote(cs@.subrange(start as int, cs.len() as int), closed),
{
    let n = cs.len();
    let mut j: usize = start;
    while j < n && cs[j] == '\\'
        invariant
            start <= j <= n,
            n == cs.len(),
            run_meets_quote(cs@.subrange(start as int, n as int), closed) == run_meets_quote(
                cs@.subrange(j as int, n as int),
                closed,
            ),
        decreases n - j,
    {
        assert(cs@.subrange(j as int, n as int).drop_first() =~= cs@.subrange(
            j as int + 1,
            n as int,
        ));
        j = j + 1;
    }
    if j == n {
        assert(cs@.subrange(j as int, n as int).len() == 0);
        closed
    } else {
        cs[j] == '"'
    }
}

fn escape_into(out: &mut Vec<char>, cs: &Vec<char>, closed: bool)
    ensures
        final(out)@ == old(out)@ + escaped(cs@, closed),
{
    let n = cs.len();
    let mut i: usize = 0;
    assert(cs@.subrange(0, n as int) =~= cs@);
    while i < n
        invariant
            0 <= i <= n,
            n == cs.len(),
            old(out)@ + escaped(cs@, closed) == out@ + escaped(
                cs@.subrange(i as int, n as int),
                closed,
            ),
        decreases n - i,
    {
        let ghost rest = cs@.subrange(i as int, n as int);
        assert(rest.drop_first() =~= cs@.subrange(i as int + 1, n as int));
        let c = cs[i];
        if c == '"' {
            out.push('\\');
            out.push('"');
        } else if c == '\\' && meets_quote(cs, i + 1, closed) {
            out.push('\\');
            out.push('\\');
        } else {
            out.push(c);
        }
        assert(out@ + escaped(cs@.subrange(i as int + 1, n as int), closed) =~= old(out)@
            + escaped(cs@, closed));
        i = i + 1;
    }
    assert(cs@.subrange(n as int, n as int).len() == 0);
    assert(out@ =~= old(out)@ + escaped(cs@, closed));
}

fn quote_into(out: &mut Vec<char>, cs: &Vec<char>)
    ensures
        final(out)@ == old(out)@ + quoted(cs@),
{
    if has_blank(cs) {
        out.push('"');
        escape_into(out, cs, true);
        out.push('"');
        assert(out@ =~= old(out)@ + quoted(cs@));
    } else {
        escape_into(out, cs, false);
    }
}

/// `arg` as it stands in a command line.
pub fn quote_arg(arg: &str) -> (r: String)
    ensures
        r@ == quoted(arg@),
{
    let cs = chars_of(arg);
    let mut out: Vec<char> = Vec::new();
    quote_into(&mut out, &cs);
    assert(out@ =~= quoted(arg@));
    string_of(&out)
}

/// The single command line that the pseudo-console platform hands to the
/// process-creation call: the quoted program, then each quoted argument after
/// a space. Fails where no program is named, or where its name holds a NUL.
pub fn command_line(program: Option<&str>, args: &Vec<String>) -> (r: Result<String, Error>)
    ensures
        program is None ==> r == Err::<String, Error>(Error::NoExeSpecified),
        program matches Some(p) ==> match r {
            Ok(line) => !has_nul(p@) && line@ == quoted(p@) + joined_args(
                args@.map_values(|a: String| a@),
            ),
            Err(e) => has_nul(p@) && (e matches Error::InvalidExeSpecified(q) && q@ == p@),
        },
{
    let p = match program {
        None => return Err(Error::NoExeSpecified),
        Some(p) => p,
    };
    let pcs = chars_of(p);
    let mut k: usize = 0;
    while k < pcs.len()
        invariant
            0 <= k <= pcs.len(),
            pcs@ == p@,
            program == Some(p),
            forall|m: int| 0 <= m < k ==> pcs@[m] != '\0',
        decreases pcs.len() - k,
    {
        if pcs[k] == '\0' {
            assert(pcs@[k as int] == '\0');
            return Err(Error::InvalidExeSpecified(string_of(&pcs)));
        }
        k = k + 1;
    }
    let mut out: Vec<char> = Vec::new();
    quote_into(&mut out, &pcs);
    let ghost views = args@.map_values(|a: String| a@);
    let mut i: usize = 0;
    while i < args.len()
        invariant
            0 <= i <= args.len(),
            views == args@.map_values(|a: String| a@),
            program == Some(p),
            !has_nul(p@),
            out@ == quoted(p@) + joined_args(views.subrange(0, i as int)),
        decreases args.len() - i,
    {
        let acs = chars_of(args[i].as_str());
        out.push(' ');
        quote_into(&mut out, &acs);
        let ghost pre = views.subrange(0, i as int + 1);
        assert(pre.drop_last() =~= views.subrange(0, i as int));
        assert(out@ =~= quoted(p@) + joined_args(pre));
        i = i + 1;
    }
    assert(views.subrange(0, args.len() as int) =~= views);
    Ok(string_of(&out))
}

/// Whether `name=value` can stand in an environment block.
pub open spec fn valid_var(name: Seq<char>, value: Seq<char>) -> bool {
    &&& name.len() > 0
    &&& !name.contains('=')
    &&& !has_nul(name)
    &&& !has_nul(value)
}

/// The entries `name=value`, each closed by a NUL.
pub open spec fn env_entries(vars: Seq<(Seq<char>, Seq<char>)>) -> Seq<char>
    decreases vars.len(),
{
    if vars.len() == 0 {
        Seq::empty()
    } else {
        env_entries(vars.drop_last()) + vars.last().0 + seq!['='] + vars.last().1 + seq!['\0']
    }
}

/// The environment block for `vars`: the entries in the order given, and one
/// more NUL; a block with no entries is two NULs.
pub open spec fn env_block_of(vars: Seq<(Seq<char>, Seq<char>)>) -> Seq<char> {
    if vars.len() == 0 {
        seq!['\0', '\0']
    } else {
        env_entries(vars) + seq!['\0']
    }
}

/// The names and values of `vars`, as characters.
pub open spec fn vars_view(vars: Seq<(String, String)>) -> Seq<(Seq<char>, Seq<char>)> {
    vars.map_values(|v: (String, String)| (v.0@, v.1@))
}

fn has_nul_char(cs: &Vec<char>) -> (r: bool)
    ensures
        r == has_nul(cs@),
{
    let mut i: usize = 0;
    while i < cs.len()
        invariant
            0 <= i <= cs.len(),
            forall|k: int| 0 <= k < i ==> cs@[k] != '\0',
        decreases cs.len() - i,
    {
        if cs[i] == '\0' {
            assert(cs@[i as int] == '\0');
            return true;
        }
        i = i + 1;
    }
    false
}

fn has_equals(cs: &Vec<char>) -> (r: bool)
    ensures
        r == cs@.contains('='),
{
    let mut i: usize = 0;
    while i < cs.len()
        invariant
            0 <= i <= cs.len(),
            forall|k: int| 0 <= k < i ==> cs@[k] != '=',
        decreases cs.len() - i,
    {
        if cs[i] == '=' {
            assert(cs@[i as int] == '=');
            return true;
        }
        i = i + 1;
    }
    false
}

/// The environment block that the pseudo-console platform hands to the
/// process-creation call, as characters: each `name=value` closed by a NUL,
/// in the order given, then one more NUL. Fails on the first variable that
/// cannot stand in a block, naming it.
pub fn environment_block(vars: &Vec<(String, String)>) -> (r: Result<Vec<char>, Error>)
    ensures
        match r {
            Ok(block) => (forall|i: int|
                0 <= i < vars@.len() ==> #[trigger] valid_var(vars_view(vars@)[i].0, vars_view(vars@)[i].1))
                && block@ == env_block_of(vars_view(vars@)),
            Err(e) => exists|i: int|
                0 <= i < vars@.len() && !#[trigger] valid_var(vars_view(vars@)[i].0, vars_view(vars@)[i].1)
                    && (e matches Error::InvalidEnvironment(n) && n@ == vars@[i].0@),
        },
{
    let ghost vv = vars_view(vars@);
    let mut out: Vec<char> = Vec::new();
    let mut i: usize = 0;
    while i < vars.len()
        invariant
            0 <= i <= vars.len(),
            vv == vars_view(vars@),
            forall|k: int| 0 <= k < i ==> #[trigger] valid_var(vv[k].0, vv[k].1),
            out@ == env_entries(vv.subrange(0, i as int)),
        decreases vars.len() - i,
    {
        let name = chars_of(vars[i].0.as_str());
        let value = chars_of(vars[i].1.as_str());
        if name.len() == 0 || has_equals(&name) || has_nul_char(&name) || has_nul_char(&value) {
            assert(!valid_var(vv[i as int].0, vv[i as int].1));
            return Err(Error::InvalidEnvironment(vars[i].0.clone()));
        }
        let mut j: usize = 0;
        let ghost start = out@;
        while j < name.len()
            invariant
                0 <= j <= name.len(),
                out@ == start + name@.subrange(0, j as int),
            decreases name.len() - j,
        {
            out.push(name[j]);
            assert(out@ =~= start + name@.subrange(0, j as int + 1));
            j = j + 1;
        }
        out.push('=');
        let ghost mid = out@;
        let mut j: usize = 0;
        while j < value.len()
            invariant
                0 <= j <= value.len(),
                out@ == mid + value@.subrange(0, j as int),
            decreases value.len() - j,
        {
            out.push(value[j]);
            assert(out@ =~= mid + value@.subrange(0, j as int + 1));
            j = j + 1;
        }
        out.push('\0');
        let ghost pre = vv.subrange(0, i as int + 1);
        assert(pre.drop_last() =~= vv.subrange(0, i as int));
        assert(name@.subrange(0, name@.len() as int) =~= name@);
        assert(value@.subrange(0, value@.len() as int) =~= value@);
        assert(out@ =~= env_entries(pre));
        i = i + 1;
    }
    assert(vv.subrange(0, vars.len() as int) =~= vv);
    if vars.len() == 0 {
        out.push('\0');
    }
    out.push('\0');
    assert(out@ =~= env_block_of(vv));
    Ok(out)
}

} // verus!
