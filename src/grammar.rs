//! Steps shared by the sub-command grammars.
use vstd::prelude::*;
use crate::env::{resolve, resolve_token, Environment};
use crate::error::{Error, ErrorView};
use crate::words::{next_token, rest_of, Words};

verus! {

/// A required data field read from `s`: its resolved value and the text
/// after it.
pub open spec fn field(s: Seq<char>, env: Seq<(Seq<char>, Seq<char>)>, name: Seq<char>) -> Result<
    (Seq<char>, Seq<char>),
    ErrorView,
> {
    match next_token(s) {
        None => Err(ErrorView::MissingRequiredField(name)),
        Some(p) => match resolve(p.0, env, false) {
            Ok(v) => Ok((v, p.1)),
            Err(e) => Err(e),
        },
    }
}

/// `v`, provided that nothing but whitespace is left in `s`.
pub open spec fn finish<T>(s: Seq<char>, v: T) -> Result<T, ErrorView> {
    match rest_of(s) {
        Some(r) => Err(ErrorView::TooManyParameters(r)),
        None => Ok(v),
    }
}

/// Reads the required data field called `name` and resolves it.
pub fn take_field(words: &mut Words, env: &Environment, name: &str) -> (r: Result<String, Error>)
    ensures
        match field(old(words)@, env@, name@) {
            Ok(p) => r is Ok && r->Ok_0@ == p.0 && final(words)@ == p.1,
            Err(e) => r is Err && r->Err_0@ == e,
        },
{
    match words.next() {
        None => Err(crate::error::missing(name)),
        Some(t) => resolve_token(t, env, false),
    }
}

/// Fails with `TooManyParameters` when anything but whitespace is left.
pub fn expect_end(words: &mut Words) -> (r: Result<(), Error>)
    ensures
        match rest_of(old(words)@) {
            Some(t) => r is Err && r->Err_0@ == ErrorView::TooManyParameters(t),
            None => r is Ok,
        },
{
    crate::error::no_rest(words.rest())
}

} // verus!

verus! {

/// A data field that renders and reads back as itself: one token that is
/// not a placeholder `${NAME}`.
pub open spec fn valid_field(f: Seq<char>) -> bool {
    crate::words::is_token(f) && !crate::env::is_placeholder(f)
}

/// A field written after a space, in front of `r`, reads back as itself.
pub proof fn lemma_field_render(
    f: Seq<char>,
    r: Seq<char>,
    env: Seq<(Seq<char>, Seq<char>)>,
    name: Seq<char>,
)
    requires
        valid_field(f),
        r.len() == 0 || crate::text::is_ws(r[0]),
    ensures
        field(" "@ + (f + r), env, name) == Ok::<_, ErrorView>((f, r)),
{
    reveal_strlit(" ");
    crate::words::lemma_ws_prefix(" "@, f + r);
    crate::words::lemma_next_concat(f, r);
}

/// A last field written after a space reads back as itself, and nothing
/// is left after it.
pub proof fn lemma_last_field_render(
    f: Seq<char>,
    env: Seq<(Seq<char>, Seq<char>)>,
    name: Seq<char>,
)
    requires
        valid_field(f),
    ensures
        field(" "@ + f, env, name) == Ok::<_, ErrorView>((f, Seq::<char>::empty())),
        rest_of(Seq::<char>::empty()) is None,
{
    assert(f + Seq::<char>::empty() =~= f);
    lemma_field_render(f, Seq::<char>::empty(), env, name);
    crate::words::lemma_rest_empty();
}

/// A keyword written in front of a space and more text is read off first.
pub proof fn lemma_keyword_render(k: Seq<char>, r: Seq<char>)
    requires
        crate::words::is_token(k),
    ensures
        next_token(k + (" "@ + r)) == Some((k, " "@ + r)),
        next_token(" "@ + (k + (" "@ + r))) == Some((k, " "@ + r)),
{
    reveal_strlit(" ");
    assert((" "@ + r)[0] == ' ');
    crate::words::lemma_next_concat(k, " "@ + r);
    crate::words::lemma_ws_prefix(" "@, k + (" "@ + r));
}

/// A keyword alone is read off, and nothing is left after it.
pub proof fn lemma_keyword_last(k: Seq<char>)
    requires
        crate::words::is_token(k),
    ensures
        next_token(k) == Some((k, Seq::<char>::empty())),
        next_token(" "@ + k) == Some((k, Seq::<char>::empty())),
        rest_of(Seq::<char>::empty()) is None,
{
    reveal_strlit(" ");
    assert(k + Seq::<char>::empty() =~= k);
    crate::words::lemma_next_concat(k, Seq::<char>::empty());
    crate::words::lemma_ws_prefix(" "@, k);
    crate::words::lemma_rest_empty();
}

} // verus!
