//! Small verified utilities: decimal formatting for command arguments, and
//! environment-variable substitution over configuration text.
use vstd::prelude::*;

verus! {

/// The character of one decimal digit.
pub open spec fn dec_digit(d: int) -> char {
    if d == 0 {
        '0'
    } else if d == 1 {
        '1'
    } else if d == 2 {
        '2'
    } else if d == 3 {
        '3'
    } else if d == 4 {
        '4'
    } else if d == 5 {
        '5'
    } else if d == 6 {
        '6'
    } else if d == 7 {
        '7'
    } else if d == 8 {
        '8'
    } else {
        '9'
    }
}

/// The decimal writing of a number, most significant digit first.
pub open spec fn dec_str(n: nat) -> Seq<char>
    decreases n,
{
    if n < 10 {
        seq![dec_digit(n as int)]
    } else {
        dec_str(n / 10).push(dec_digit((n % 10) as int))
    }
}

/// One digit as a string.
fn digit_str(d: u64) -> (r: String)
    requires
        d < 10,
    ensures
        r@ == seq![dec_digit(d as int)],
{
    proof {
        reveal_strlit("0123456789");
    }
    let s = "0123456789".substring_char(d as usize, d as usize + 1);
    proof {
        assert(s@ =~= seq![dec_digit(d as int)]);
    }
    s.to_owned()
}

/// The decimal writing of a number.
pub fn u64_to_string(n: u64) -> (r: String)
    ensures
        r@ == dec_str(n as nat),
    decreases n,
{
    if n < 10 {
        digit_str(n)
    } else {
        let mut s = u64_to_string(n / 10);
        let d = digit_str(n % 10);
        s.append(d.as_str());
        proof {
            assert(s@ =~= dec_str(n as nat));
        }
        s
    }
}

/// The first index at or past `i` holding `:` or `}`, or the end: where a
/// placeholder's name stops.
pub open spec fn scan_stop(c: Seq<char>, i: int) -> int
    decreases c.len() - i,
{
    if i < 0 || i >= c.len() {
        i
    } else if c[i] == ':' || c[i] == '}' {
        i
    } else {
        scan_stop(c, i + 1)
    }
}

/// The first index at or past `i` holding `}`, or the end: where a
/// placeholder's default stops.
pub open spec fn scan_close(c: Seq<char>, i: int) -> int
    decreases c.len() - i,
{
    if i < 0 || i >= c.len() {
        i
    } else if c[i] == '}' {
        i
    } else {
        scan_close(c, i + 1)
    }
}

/// A name scan never moves backwards.
proof fn lemma_scan_stop_ge(c: Seq<char>, i: int)
    ensures
        scan_stop(c, i) >= i,
    decreases c.len() - i,
{
    if 0 <= i < c.len() && !(c[i] == ':' || c[i] == '}') {
        lemma_scan_stop_ge(c, i + 1);
    }
}

/// A default scan never moves backwards.
proof fn lemma_scan_close_ge(c: Seq<char>, i: int)
    ensures
        scan_close(c, i) >= i,
    decreases c.len() - i,
{
    if 0 <= i < c.len() && c[i] != '}' {
        lemma_scan_close_ge(c, i + 1);
    }
}

#[via_fn]
proof fn subst_from_decreases(c: Seq<char>, env: Seq<(Seq<char>, Seq<char>)>, i: int) {
    lemma_scan_stop_ge(c, i + 2);
    lemma_scan_close_ge(c, scan_stop(c, i + 2) + 1);
}

/// The value of the first binding of this name, if any.
pub open spec fn env_lookup(env: Seq<(Seq<char>, Seq<char>)>, name: Seq<char>) -> Option<
    Seq<char>,
>
    decreases env.len(),
{
    if env.len() == 0 {
        None
    } else if env[0].0 == name {
        Some(env[0].1)
    } else {
        env_lookup(env.drop_first(), name)
    }
}

/// A default written `:-value` keeps `value`; one written `:value` is taken
/// as written.
pub open spec fn strip_dash(d: Seq<char>) -> Seq<char> {
    if d.len() > 0 && d[0] == '-' {
        d.drop_first()
    } else {
        d
    }
}

/// The text from `i` on with every `${NAME}` or `${NAME:default}`
/// placeholder replaced: by the bound value when the name is bound and its
/// value nonempty, else by the default when one is written, else the name is
/// reported. Text that does not form a placeholder is kept as written.
pub open spec fn subst_from(
    c: Seq<char>,
    env: Seq<(Seq<char>, Seq<char>)>,
    i: int,
) -> Result<Seq<char>, Seq<char>>
    decreases c.len() - i, 1int,
        via subst_from_decreases
{
    if i < 0 || i >= c.len() {
        Ok(Seq::empty())
    } else if c[i] == '$' && i + 1 < c.len() && c[i + 1] == '{' {
        let ne = scan_stop(c, i + 2);
        if ne > i + 2 && ne < c.len() {
            let name = c.subrange(i + 2, ne);
            if c[ne] == '}' {
                subst_placeholder(c, env, name, None, ne + 1)
            } else {
                let de = scan_close(c, ne + 1);
                if de < c.len() {
                    subst_placeholder(
                        c,
                        env,
                        name,
                        Some(strip_dash(c.subrange(ne + 1, de))),
                        de + 1,
                    )
                } else {
                    subst_keep(c, env, i)
                }
            }
        } else {
            subst_keep(c, env, i)
        }
    } else {
        subst_keep(c, env, i)
    }
}

/// The character at `i` kept as written, then the rest substituted.
pub open spec fn subst_keep(
    c: Seq<char>,
    env: Seq<(Seq<char>, Seq<char>)>,
    i: int,
) -> Result<Seq<char>, Seq<char>>
    decreases c.len() - i, 0int,
{
    if i < 0 || i >= c.len() {
        Ok(Seq::empty())
    } else {
        match subst_from(c, env, i + 1) {
            Ok(rest) => Ok(seq![c[i]] + rest),
            Err(e) => Err(e),
        }
    }
}

/// One placeholder replaced, then the rest from `next` substituted.
pub open spec fn subst_placeholder(
    c: Seq<char>,
    env: Seq<(Seq<char>, Seq<char>)>,
    name: Seq<char>,
    dflt: Option<Seq<char>>,
    next: int,
) -> Result<Seq<char>, Seq<char>>
    decreases c.len() - next, 2int,
{
    let bound = match env_lookup(env, name) {
        Some(v) => if v.len() > 0 {
            Some(v)
        } else {
            None
        },
        None => None,
    };
    let replacement = match bound {
        Some(v) => Some(v),
        None => dflt,
    };
    match replacement {
        Some(v) => match subst_from(c, env, next) {
            Ok(rest) => Ok(v + rest),
            Err(e) => Err(e),
        },
        None => Err(name),
    }
}

/// Where a placeholder's name stops.
fn scan_stop_exec(s: &str, i: usize) -> (r: usize)
    requires
        i <= s@.len(),
        s@.len() <= usize::MAX,
    ensures
        r == scan_stop(s@, i as int),
        i <= r <= s@.len(),
    decreases s@.len() - i,
{
    if i == s.unicode_len() {
        i
    } else {
        let ch = s.get_char(i);
        if ch == ':' || ch == '}' {
            i
        } else {
            scan_stop_exec(s, i + 1)
        }
    }
}

/// Where a placeholder's default stops.
fn scan_close_exec(s: &str, i: usize) -> (r: usize)
    requires
        i <= s@.len(),
        s@.len() <= usize::MAX,
    ensures
        r == scan_close(s@, i as int),
        i <= r <= s@.len(),
    decreases s@.len() - i,
{
    if i == s.unicode_len() {
        i
    } else {
        if s.get_char(i) == '}' {
            i
        } else {
            scan_close_exec(s, i + 1)
        }
    }
}

/// The value of the first binding of this name, if any.
fn lookup_env(env: &Vec<(String, String)>, name: &str) -> (r: Option<String>)
    ensures
        match r {
            Some(v) => env_lookup(crate::service::pairs_view(env@), name@) == Some(v@),
            None => env_lookup(crate::service::pairs_view(env@), name@) is None,
        },
{
    let ghost whole = crate::service::pairs_view(env@);
    proof {
        assert(whole.skip(0) =~= whole);
    }
    let mut i: usize = 0;
    while i < env.len()
        invariant
            0 <= i <= env@.len(),
            whole == crate::service::pairs_view(env@),
            env_lookup(whole, name@) == env_lookup(whole.skip(i as int), name@),
        decreases env@.len() - i,
    {
        if crate::naming::str_eq(env[i].0.as_str(), name) {
            proof {
                assert(whole.skip(i as int)[0] == whole[i as int]);
            }
            return Some(env[i].1.clone());
        }
        proof {
            assert(whole.skip(i as int)[0] == whole[i as int]);
            assert(whole.skip(i as int).drop_first() =~= whole.skip(i + 1));
        }
        i = i + 1;
    }
    proof {
        assert(whole.skip(whole.len() as int) =~= Seq::<(Seq<char>, Seq<char>)>::empty());
    }
    None
}

/// The missing-variable report, as the caller sees it.
pub open spec fn missing_var_message(name: Seq<char>) -> Seq<char> {
    "Environment variable '"@ + name + "' not found"@
}

/// The text from `i` on, substituted.
fn subst_tail(content: &str, env: &Vec<(String, String)>, i: usize) -> (r: Result<String, String>)
    requires
        i <= content@.len(),
        content@.len() <= usize::MAX,
    ensures
        match r {
            Ok(s) => subst_from(content@, crate::service::pairs_view(env@), i as int) == Ok::<
                Seq<char>,
                Seq<char>,
            >(s@),
            Err(e) => subst_from(content@, crate::service::pairs_view(env@), i as int) matches Err(
                n,
            ) && e@ == missing_var_message(n),
        },
    decreases content@.len() - i, 0int,
{
    let n = content.unicode_len();
    if i == n {
        return Ok(String::new());
    }
    let c0 = content.get_char(i);
    if c0 == '$' && i + 1 < n && content.get_char(i + 1) == '{' {
        let ne = scan_stop_exec(content, i + 2);
        if ne > i + 2 && ne < n {
            let name = content.substring_char(i + 2, ne);
            if content.get_char(ne) == '}' {
                return subst_placeholder_exec(content, env, name, None, ne + 1);
            }
            let de = scan_close_exec(content, ne + 1);
            if de < n {
                let raw = if de > ne + 1 && content.get_char(ne + 1) == '-' {
                    content.substring_char(ne + 2, de)
                } else {
                    content.substring_char(ne + 1, de)
                };
                proof {
                    assert(raw@ =~= strip_dash(content@.subrange(ne + 1, de as int)));
                }
                return subst_placeholder_exec(content, env, name, Some(raw), de + 1);
            }
        }
    }
    let rest = subst_tail(content, env, i + 1);
    match rest {
        Ok(tail) => {
            let mut out = content.substring_char(i, i + 1).to_owned();
            out.append(tail.as_str());
            proof {
                assert(out@ =~= seq![content@[i as int]] + tail@);
            }
            Ok(out)
        },
        Err(e) => Err(e),
    }
}

/// One placeholder replaced, then the rest from `next`.
fn subst_placeholder_exec(
    content: &str,
    env: &Vec<(String, String)>,
    name: &str,
    dflt: Option<&str>,
    next: usize,
) -> (r: Result<String, String>)
    requires
        next <= content@.len(),
        content@.len() <= usize::MAX,
    ensures
        match r {
            Ok(s) => subst_placeholder(
                content@,
                crate::service::pairs_view(env@),
                name@,
                match dflt {
                    Some(d) => Some(d@),
                    None => None,
                },
                next as int,
            ) == Ok::<Seq<char>, Seq<char>>(s@),
            Err(e) => subst_placeholder(
                content@,
                crate::service::pairs_view(env@),
                name@,
                match dflt {
                    Some(d) => Some(d@),
                    None => None,
                },
                next as int,
            ) matches Err(n) && e@ == missing_var_message(n),
        },
    decreases content@.len() - next, 1int,
{
    let looked = lookup_env(env, name);
    let replacement: Option<String> = match looked {
        Some(v) => {
            if v.as_str().unicode_len() > 0 {
                Some(v)
            } else {
                match dflt {
                    Some(d) => Some(d.to_owned()),
                    None => None,
                }
            }
        },
        None => {
            match dflt {
                Some(d) => Some(d.to_owned()),
                None => None,
            }
        },
    };
    match replacement {
        Some(v) => {
            match subst_tail(content, env, next) {
                Ok(tail) => {
                    let mut out = v;
                    out.append(tail.as_str());
                    Ok(out)
                },
                Err(e) => Err(e),
            }
        },
        None => {
            let mut m = "Environment variable '".to_owned();
            m.append(name);
            m.append("' not found");
            Err(m)
        },
    }
}

/// Configuration text with every `${NAME}` or `${NAME:-default}` placeholder
/// replaced from the given bindings: the bound value when the name is bound
/// and nonempty, else the default when one is written, else an error naming
/// the variable. A name bound to the empty string counts as unbound.
pub fn substitute_env_vars(content: &str, env: &Vec<(String, String)>) -> (r: Result<
    String,
    String,
>)
    ensures
        match r {
            Ok(s) => subst_from(content@, crate::service::pairs_view(env@), 0) == Ok::<
                Seq<char>,
                Seq<char>,
            >(s@),
            Err(e) => subst_from(content@, crate::service::pairs_view(env@), 0) matches Err(n)
                && e@ == missing_var_message(n),
        },
{
    let total = content.unicode_len();
    proof {
        assert(total == content@.len());
    }
    subst_tail(content, env, 0)
}

} // verus!
