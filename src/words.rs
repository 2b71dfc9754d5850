//! Whitespace tokenizer over one input line.
use vstd::prelude::*;
use vstd::string::*;
use crate::text::{is_ws, is_whitespace};

verus! {

/// Length of the longest prefix of `s` whose characters are all whitespace
/// (`ws == true`) or all non-whitespace (`ws == false`).
pub open spec fn span(s: Seq<char>, ws: bool) -> nat
    decreases s.len(),
{
    if s.len() > 0 && is_ws(s[0]) == ws {
        1 + span(s.drop_first(), ws)
    } else {
        0
    }
}

/// Number of whitespace characters at the end of `s`.
pub open spec fn tail_ws(s: Seq<char>) -> nat
    decreases s.len(),
{
    if s.len() > 0 && is_ws(s.last()) {
        1 + tail_ws(s.drop_last())
    } else {
        0
    }
}

/// `s` without its leading whitespace.
pub open spec fn trim_start(s: Seq<char>) -> Seq<char> {
    s.skip(span(s, true) as int)
}

/// `s` without leading and trailing whitespace.
pub open spec fn trim(s: Seq<char>) -> Seq<char> {
    let t = trim_start(s);
    t.take(t.len() - tail_ws(t))
}

/// The first token of `s` and the text after it, or `None` when `s` holds
/// only whitespace.
pub open spec fn next_token(s: Seq<char>) -> Option<(Seq<char>, Seq<char>)> {
    let t = trim_start(s);
    if t.len() == 0 {
        None
    } else {
        let k = span(t, false) as int;
        Some((t.take(k), t.skip(k)))
    }
}

/// All remaining text, trimmed, or `None` when nothing but whitespace is left.
pub open spec fn rest_of(s: Seq<char>) -> Option<Seq<char>> {
    if trim(s).len() == 0 {
        None
    } else {
        Some(trim(s))
    }
}

/// The view of an optional string.
pub open spec fn opt_view(o: Option<String>) -> Option<Seq<char>> {
    match o {
        Some(x) => Some(x@),
        None => None,
    }
}

pub proof fn lemma_span(s: Seq<char>, ws: bool, k: int)
    requires
        0 <= k <= s.len(),
        forall|i: int| 0 <= i < k ==> is_ws(#[trigger] s[i]) == ws,
        k == s.len() || is_ws(s[k]) != ws,
    ensures
        span(s, ws) == k,
    decreases k,
{
    if k > 0 {
        assert forall|i: int| 0 <= i < k - 1 implies is_ws(#[trigger] s.drop_first()[i]) == ws by {
            assert(s.drop_first()[i] == s[i + 1]);
        }
        lemma_span(s.drop_first(), ws, k - 1);
    }
}

pub proof fn lemma_span_bounds(s: Seq<char>, ws: bool)
    ensures
        span(s, ws) <= s.len(),
        forall|i: int| 0 <= i < span(s, ws) ==> is_ws(#[trigger] s[i]) == ws,
        span(s, ws) == s.len() || is_ws(s[span(s, ws) as int]) != ws,
    decreases s.len(),
{
    if s.len() > 0 && is_ws(s[0]) == ws {
        lemma_span_bounds(s.drop_first(), ws);
        assert forall|i: int| 0 <= i < span(s, ws) implies is_ws(#[trigger] s[i]) == ws by {
            if i > 0 {
                assert(s[i] == s.drop_first()[i - 1]);
            }
        }
    }
}

pub proof fn lemma_tail_ws(s: Seq<char>, k: int)
    requires
        0 <= k <= s.len(),
        forall|i: int| s.len() - k <= i < s.len() ==> is_ws(#[trigger] s[i]),
        k == s.len() || !is_ws(s[s.len() - k - 1]),
    ensures
        tail_ws(s) == k,
    decreases k,
{
    if k > 0 {
        assert forall|i: int| s.len() - k <= i < s.len() - 1 implies is_ws(
            #[trigger] s.drop_last()[i],
        ) by {
            assert(s.drop_last()[i] == s[i]);
        }
        lemma_tail_ws(s.drop_last(), k - 1);
    }
}

pub proof fn lemma_tail_ws_bounds(s: Seq<char>)
    ensures
        tail_ws(s) <= s.len(),
        forall|i: int| s.len() - tail_ws(s) <= i < s.len() ==> is_ws(#[trigger] s[i]),
        tail_ws(s) == s.len() || !is_ws(s[s.len() - tail_ws(s) - 1]),
    decreases s.len(),
{
    if s.len() > 0 && is_ws(s.last()) {
        lemma_tail_ws_bounds(s.drop_last());
        assert forall|i: int| s.len() - tail_ws(s) <= i < s.len() implies is_ws(#[trigger] s[i]) by {
            if i < s.len() - 1 {
                assert(s[i] == s.drop_last()[i]);
            }
        }
    }
}

/// A line being split into whitespace-separated tokens, front to back.
pub struct Words {
    line: String,
    pos: usize,
}

impl View for Words {
    type V = Seq<char>;

    /// The text that has not been consumed yet.
    closed spec fn view(&self) -> Seq<char> {
        self.line@.skip(self.pos as int)
    }
}

impl Words {
    #[verifier::type_invariant]
    spec fn inv(&self) -> bool {
        self.pos <= self.line@.len()
    }

    /// Starts tokenizing `s`.
    pub fn from(s: &str) -> (w: Words)
        ensures
            w@ == s@,
    {
        let w = Words { line: s.to_owned(), pos: 0 };
        assert(w.line@.skip(0) =~= s@);
        w
    }

    /// Hands out the next whitespace-delimited token, or `None` when only
    /// whitespace is left.
    pub fn next(&mut self) -> (r: Option<String>)
        ensures
            match next_token(old(self)@) {
                None => r is None && final(self)@ == old(self)@,
                Some(p) => r is Some && r->0@ == p.0 && final(self)@ == p.1,
            },
    {
        proof {
            use_type_invariant(&*self);
        }
        let ghost s = self@;
        let n = self.line.as_str().unicode_len();
        let mut i = self.pos;
        while i < n && is_whitespace(self.line.as_str().get_char(i))
            invariant
                self.pos <= i <= n,
                n == self.line@.len(),
                s == self.line@.skip(self.pos as int),
                forall|k: int| self.pos <= k < i ==> is_ws(#[trigger] self.line@[k]),
            decreases n - i,
        {
            i = i + 1;
        }
        proof {
            lemma_span(s, true, i - self.pos);
            assert(trim_start(s) =~= self.line@.skip(i as int));
        }
        if i == n {
            return None;
        }
        let mut j = i;
        while j < n && !is_whitespace(self.line.as_str().get_char(j))
            invariant
                i <= j <= n,
                n == self.line@.len(),
                forall|k: int| i <= k < j ==> !is_ws(#[trigger] self.line@[k]),
            decreases n - j,
        {
            j = j + 1;
        }
        let ghost t = self.line@.skip(i as int);
        proof {
            lemma_span(t, false, j - i);
            assert(t.take(j - i) =~= self.line@.subrange(i as int, j as int));
            assert(t.skip(j - i) =~= self.line@.skip(j as int));
        }
        let token = self.line.as_str().substring_char(i, j).to_owned();
        self.pos = j;
        Some(token)
    }

    /// Hands out all remaining text, trimmed, as one value, or `None` when
    /// only whitespace is left; either way nothing remains afterwards.
    pub fn rest(&mut self) -> (r: Option<String>)
        ensures
            opt_view(r) == rest_of(old(self)@),
            final(self)@.len() == 0,
    {
        proof {
            use_type_invariant(&*self);
        }
        let ghost s = self@;
        let n = self.line.as_str().unicode_len();
        let mut i = self.pos;
        while i < n && is_whitespace(self.line.as_str().get_char(i))
            invariant
                self.pos <= i <= n,
                n == self.line@.len(),
                s == self.line@.skip(self.pos as int),
                forall|k: int| self.pos <= k < i ==> is_ws(#[trigger] self.line@[k]),
            decreases n - i,
        {
            i = i + 1;
        }
        let mut j = n;
        while j > i && is_whitespace(self.line.as_str().get_char(j - 1))
            invariant
                i <= j <= n,
                n == self.line@.len(),
                forall|k: int| j <= k < n ==> is_ws(#[trigger] self.line@[k]),
            decreases j,
        {
            j = j - 1;
        }
        let ghost t = self.line@.skip(i as int);
        proof {
            lemma_span(s, true, i - self.pos);
            assert(trim_start(s) =~= t);
            lemma_tail_ws(t, n - j);
            assert(trim(s) =~= self.line@.subrange(i as int, j as int));
        }
        self.pos = n;
        proof {
            assert(self@.len() == 0);
        }
        if i == j {
            None
        } else {
            Some(self.line.as_str().substring_char(i, j).to_owned())
        }
    }
}

} // verus!

verus! {

/// The first token of `s` and the trimmed text after it, when there is
/// text after it.
pub fn split_in_first_rest(s: &str) -> (r: Option<(String, String)>)
    ensures
        match next_token(s@) {
            None => r is None,
            Some(p) => match rest_of(p.1) {
                None => r is None,
                Some(t) => r matches Some(q) && q.0@ == p.0 && q.1@ == t,
            },
        },
{
    let mut words = Words::from(s);
    let first = match words.next() {
        None => return None,
        Some(f) => f,
    };
    match words.rest() {
        None => None,
        Some(t) => Some((first, t)),
    }
}

} // verus!

verus! {

/// Every character of `s` is whitespace.
pub open spec fn all_ws(s: Seq<char>) -> bool {
    forall|i: int| 0 <= i < s.len() ==> is_ws(#[trigger] s[i])
}

/// `s` is one token: non-empty and free of whitespace.
pub open spec fn is_token(s: Seq<char>) -> bool {
    s.len() > 0 && forall|i: int| 0 <= i < s.len() ==> !is_ws(#[trigger] s[i])
}

/// Whitespace in front of a text changes neither its tokens nor its rest.
pub proof fn lemma_ws_prefix(a: Seq<char>, s: Seq<char>)
    requires
        all_ws(a),
    ensures
        trim_start(a + s) == trim_start(s),
        next_token(a + s) == next_token(s),
        rest_of(a + s) == rest_of(s),
{
    lemma_span_bounds(s, true);
    let k = span(s, true) as int;
    assert forall|i: int| 0 <= i < a.len() + k implies is_ws(#[trigger] (a + s)[i]) by {
        if i >= a.len() {
            assert((a + s)[i] == s[i - a.len()]);
        }
    }
    if k < s.len() {
        assert((a + s)[a.len() + k] == s[k]);
    }
    lemma_span(a + s, true, a.len() + k);
    assert(trim_start(a + s) =~= trim_start(s));
}

proof fn lemma_trim_start_suffix(s: Seq<char>, b: Seq<char>)
    requires
        all_ws(b),
    ensures
        trim_start(s).len() == 0 ==> trim_start(s + b).len() == 0,
        trim_start(s).len() > 0 ==> trim_start(s + b) == trim_start(s) + b,
{
    lemma_span_bounds(s, true);
    let k = span(s, true) as int;
    if k == s.len() {
        assert forall|i: int| 0 <= i < (s + b).len() implies is_ws(#[trigger] (s + b)[i]) by {
            if i >= s.len() {
                assert((s + b)[i] == b[i - s.len()]);
            }
        }
        lemma_span(s + b, true, (s + b).len() as int);
    } else {
        assert forall|i: int| 0 <= i < k implies is_ws(#[trigger] (s + b)[i]) by {
            assert((s + b)[i] == s[i]);
        }
        assert((s + b)[k] == s[k]);
        lemma_span(s + b, true, k);
        assert(trim_start(s + b) =~= trim_start(s) + b);
    }
}

/// Whitespace after a text leaves its first token as it is and follows the
/// text after it.
pub proof fn lemma_next_suffix(s: Seq<char>, b: Seq<char>)
    requires
        all_ws(b),
    ensures
        match next_token(s) {
            None => next_token(s + b) is None,
            Some(p) => next_token(s + b) == Some((p.0, p.1 + b)),
        },
{
    lemma_trim_start_suffix(s, b);
    let t = trim_start(s);
    if t.len() > 0 {
        lemma_span_bounds(t, false);
        let j = span(t, false) as int;
        assert forall|i: int| 0 <= i < j implies !is_ws(#[trigger] (t + b)[i]) by {
            assert((t + b)[i] == t[i]);
        }
        if j < (t + b).len() {
            if j < t.len() {
                assert((t + b)[j] == t[j]);
            } else {
                assert((t + b)[j] == b[j - t.len()]);
            }
        }
        lemma_span(t + b, false, j);
        assert((t + b).take(j) =~= t.take(j));
        assert((t + b).skip(j) =~= t.skip(j) + b);
    }
}

/// Whitespace after a text leaves its rest as it is.
pub proof fn lemma_rest_suffix(s: Seq<char>, b: Seq<char>)
    requires
        all_ws(b),
    ensures
        rest_of(s + b) == rest_of(s),
{
    lemma_trim_start_suffix(s, b);
    let u = trim_start(s);
    if u.len() > 0 {
        lemma_tail_ws_bounds(u);
        let m = tail_ws(u) as int;
        assert forall|i: int| (u + b).len() - (m + b.len()) <= i < (u + b).len() implies is_ws(
            #[trigger] (u + b)[i],
        ) by {
            if i < u.len() {
                assert((u + b)[i] == u[i]);
            } else {
                assert((u + b)[i] == b[i - u.len()]);
            }
        }
        if m < u.len() {
            assert((u + b)[u.len() - m - 1] == u[u.len() - m - 1]);
        }
        lemma_tail_ws(u + b, m + b.len());
        assert(trim(s + b) =~= trim(s));
    } else {
        assert(trim(s + b) =~= trim(s));
    }
}

/// A token followed by nothing or by whitespace is read off first.
pub proof fn lemma_next_concat(f: Seq<char>, r: Seq<char>)
    requires
        is_token(f),
        r.len() == 0 || is_ws(r[0]),
    ensures
        next_token(f + r) == Some((f, r)),
{
    assert((f + r)[0] == f[0]);
    lemma_span(f + r, true, 0);
    assert(trim_start(f + r) =~= f + r);
    assert forall|i: int| 0 <= i < f.len() implies !is_ws(#[trigger] (f + r)[i]) by {
        assert((f + r)[i] == f[i]);
    }
    if r.len() > 0 {
        assert((f + r)[f.len() as int] == r[0]);
    }
    lemma_span(f + r, false, f.len() as int);
    assert((f + r).take(f.len() as int) =~= f);
    assert((f + r).skip(f.len() as int) =~= r);
}

/// A text without whitespace at either end is its own rest.
pub proof fn lemma_rest_trimmed(c: Seq<char>)
    requires
        c.len() > 0,
        !is_ws(c[0]),
        !is_ws(c.last()),
    ensures
        rest_of(c) == Some(c),
{
    lemma_span(c, true, 0);
    assert(trim_start(c) =~= c);
    lemma_tail_ws(c, 0);
    assert(trim(c) =~= c);
}

/// Nothing is left of an empty text.
pub proof fn lemma_rest_empty()
    ensures
        rest_of(Seq::<char>::empty()) is None,
        next_token(Seq::<char>::empty()) is None,
{
    lemma_span(Seq::<char>::empty(), true, 0);
    assert(trim_start(Seq::<char>::empty()) =~= Seq::<char>::empty());
}

} // verus!
