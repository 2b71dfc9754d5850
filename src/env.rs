//! The injected environment and `${NAME}` placeholder resolution.
use vstd::prelude::*;
use vstd::string::*;
use crate::error::{Error, ErrorView};
use crate::text::{is_ascii_upper, is_whitespace, is_ws, str_eq};
use crate::words::is_token;

verus! {

/// Value of the last binding of `name` in `vars`, if any.
pub open spec fn lookup(vars: Seq<(Seq<char>, Seq<char>)>, name: Seq<char>) -> Option<Seq<char>>
    decreases vars.len(),
{
    if vars.len() == 0 {
        None
    } else if vars.last().0 == name {
        Some(vars.last().1)
    } else {
        lookup(vars.drop_last(), name)
    }
}

/// A read-only source of variable values, standing in for the process
/// environment.
pub struct Environment {
    vars: Vec<(String, String)>,
}

impl View for Environment {
    type V = Seq<(Seq<char>, Seq<char>)>;

    /// The bindings in the order they were made.
    closed spec fn view(&self) -> Seq<(Seq<char>, Seq<char>)> {
        self.vars@.map_values(|p: (String, String)| (p.0@, p.1@))
    }
}

impl Environment {
    /// An environment in which no variable is set.
    pub fn new() -> (e: Environment)
        ensures
            forall|n: Seq<char>| lookup(e@, n) is None,
    {
        let e = Environment { vars: Vec::new() };
        assert(e@ =~= Seq::empty());
        e
    }

    /// Binds `name` to `value`, replacing an earlier binding.
    pub fn set(&mut self, name: &str, value: &str)
        ensures
            forall|n: Seq<char>|
                lookup(final(self)@, n) == if n == name@ {
                    Some(value@)
                } else {
                    lookup(old(self)@, n)
                },
    {
        self.vars.push((name.to_owned(), value.to_owned()));
        assert(final(self)@.drop_last() =~= old(self)@);
    }

    /// The value bound to `name`.
    pub fn get(&self, name: &str) -> (r: Option<String>)
        ensures
            match r {
                Some(v) => lookup(self@, name@) == Some(v@),
                None => lookup(self@, name@) is None,
            },
    {
        let mut i = self.vars.len();
        assert(self@.take(i as int) =~= self@);
        while i > 0
            invariant
                i <= self.vars@.len(),
                lookup(self@, name@) == lookup(self@.take(i as int), name@),
            decreases i,
        {
            let ghost t = self@.take(i as int);
            assert(t.last() == (self.vars@[i - 1].0@, self.vars@[i - 1].1@));
            if str_eq(self.vars[i - 1].0.as_str(), name) {
                return Some(self.vars[i - 1].1.clone());
            }
            assert(t.drop_last() =~= self@.take(i - 1));
            i = i - 1;
        }
        None
    }
}

/// Whether `t` is brace-delimited in the shape `${...}`.
pub open spec fn placeholder_shape(t: Seq<char>) -> bool {
    t.len() >= 3 && t[0] == '$' && t[1] == '{' && t[t.len() - 1] == '}'
}

/// A variable name: an upper-case letter, then upper-case letters or `_`.
pub open spec fn valid_name(n: Seq<char>) -> bool {
    n.len() >= 1 && is_ascii_upper(n[0]) && forall|i: int|
        1 <= i < n.len() ==> is_ascii_upper(#[trigger] n[i]) || n[i] == '_'
}

/// Whether the whole token `t` is a placeholder `${NAME}`.
pub open spec fn is_placeholder(t: Seq<char>) -> bool {
    placeholder_shape(t) && valid_name(t.subrange(2, t.len() - 1))
}

/// Whether `v` can stand as a field: one token, or for a rest-of-line
/// (`free`) field any non-empty text without whitespace at either end.
pub open spec fn fits(v: Seq<char>, free: bool) -> bool {
    if free {
        v.len() > 0 && !is_ws(v[0]) && !is_ws(v.last())
    } else {
        is_token(v)
    }
}

/// What a data field becomes: a placeholder is replaced by its variable's
/// value, which must be able to stand as the field; any other text stays
/// as it is.
pub open spec fn resolve(t: Seq<char>, env: Seq<(Seq<char>, Seq<char>)>, free: bool) -> Result<
    Seq<char>,
    ErrorView,
> {
    if is_placeholder(t) {
        let name = t.subrange(2, t.len() - 1);
        match lookup(env, name) {
            Some(v) => if fits(v, free) {
                Ok(v)
            } else {
                Err(ErrorView::MalformedPlaceholder(t))
            },
            None => Err(ErrorView::EnvironmentVariableMissing(name)),
        }
    } else {
        Ok(t)
    }
}

/// Whether `s` is an upper-case letter followed by upper-case letters or `_`.
fn is_name(s: &str) -> (r: bool)
    ensures
        r == valid_name(s@),
{
    let m = s.unicode_len();
    if m == 0 {
        return false;
    }
    let c0 = s.get_char(0);
    let mut ok = 'A' <= c0 && c0 <= 'Z';
    let mut i: usize = 1;
    while i < m
        invariant
            m == s@.len(),
            1 <= i <= m,
            ok == (is_ascii_upper(s@[0]) && forall|k: int|
                1 <= k < i ==> is_ascii_upper(#[trigger] s@[k]) || s@[k] == '_'),
        decreases m - i,
    {
        let c = s.get_char(i);
        ok = ok && (('A' <= c && c <= 'Z') || c == '_');
        i = i + 1;
    }
    ok
}

/// Whether `v` can stand as a field; see [`fits`].
fn value_fits(v: &str, free: bool) -> (r: bool)
    ensures
        r == fits(v@, free),
{
    let n = v.unicode_len();
    if n == 0 {
        return false;
    }
    if free {
        return !is_whitespace(v.get_char(0)) && !is_whitespace(v.get_char(n - 1));
    }
    let mut i: usize = 0;
    while i < n
        invariant
            !free,
            n == v@.len(),
            i <= n,
            forall|k: int| 0 <= k < i ==> !is_ws(#[trigger] v@[k]),
        decreases n - i,
    {
        if is_whitespace(v.get_char(i)) {
            assert(is_ws(v@[i as int]));
            return false;
        }
        i = i + 1;
    }
    true
}

/// Resolves the data field `token` against `env`; `free` marks a
/// rest-of-line field.
pub fn resolve_token(token: String, env: &Environment, free: bool) -> (r: Result<String, Error>)
    ensures
        crate::error::string_result_view(r) == resolve(token@, env@, free),
{
    let s = token.as_str();
    let n = s.unicode_len();
    if n >= 3 && s.get_char(0) == '$' && s.get_char(1) == '{' && s.get_char(n - 1) == '}' {
        let name = s.substring_char(2, n - 1);
        if !is_name(name) {
            return Ok(token);
        }
        match env.get(name) {
            Some(v) => if value_fits(v.as_str(), free) {
                Ok(v)
            } else {
                Err(Error::MalformedPlaceholder(token))
            },
            None => Err(Error::EnvironmentVariableMissing(name.to_owned())),
        }
    } else {
        Ok(token)
    }
}

} // verus!
