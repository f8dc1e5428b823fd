//! The variable substitution engine.
//!
//! A template is plain text in which `{{name}}` stands for the value bound to
//! `name`. Rendering reads the template once, from left to right: where a token
//! of a bound name begins, the value is written out and reading goes on behind
//! the token; any other character is copied. A value is never read again, so a
//! token inside a value stays as it is, and so does a token of an unbound name.

use crate::template::table::Table;
use crate::text::{from_chars, push_all, to_chars};
use vstd::prelude::*;

verus! {

/// The token that stands for `key` in a template: `{{`, the key, `}}`.
pub open spec fn token(key: Seq<char>) -> Seq<char> {
    seq!['{', '{'] + key + seq!['}', '}']
}

/// `t` begins with the token of a bound key of `n` characters.
pub open spec fn token_ends(vars: Map<Seq<char>, Seq<char>>, t: Seq<char>, n: int) -> bool {
    &&& 0 <= n
    &&& n + 4 <= t.len()
    &&& t[0] == '{'
    &&& t[1] == '{'
    &&& t[n + 2] == '}'
    &&& t[n + 3] == '}'
    &&& vars.contains_key(t.subrange(2, n + 2))
}

/// The length of the shortest bound key, of at least `from` characters, whose
/// token begins `t`; `None` where no such key is bound.
pub open spec fn leading_key_len(vars: Map<Seq<char>, Seq<char>>, t: Seq<char>, from: int) -> Option<
    int,
>
    decreases t.len() - from,
{
    if from < 0 || from + 4 > t.len() {
        None
    } else if token_ends(vars, t, from) {
        Some(from)
    } else {
        leading_key_len(vars, t, from + 1)
    }
}

/// What rendering `t` under the bindings `vars` gives.
pub open spec fn render_spec(vars: Map<Seq<char>, Seq<char>>, t: Seq<char>) -> Seq<char>
    decreases t.len(),
    via render_spec_decreases
{
    if t.len() == 0 {
        Seq::empty()
    } else {
        match leading_key_len(vars, t, 0) {
            Some(n) => vars[t.subrange(2, n + 2)] + render_spec(vars, t.skip(n + 4)),
            None => seq![t[0]] + render_spec(vars, t.skip(1)),
        }
    }
}

#[via_fn]
proof fn render_spec_decreases(vars: Map<Seq<char>, Seq<char>>, t: Seq<char>) {
    if t.len() != 0 {
        match leading_key_len(vars, t, 0) {
            Some(n) => {
                lemma_leading_key_len(vars, t, 0);
            },
            None => {},
        }
    }
}

/// What [`leading_key_len`] finds is the least length at which a token of a
/// bound key ends, and it finds one wherever there is one.
pub proof fn lemma_leading_key_len(vars: Map<Seq<char>, Seq<char>>, t: Seq<char>, from: int)
    requires
        0 <= from,
    ensures
        match leading_key_len(vars, t, from) {
            Some(n) => from <= n && token_ends(vars, t, n) && forall|m: int|
                from <= m < n ==> !token_ends(vars, t, m),
            None => forall|m: int| from <= m ==> !token_ends(vars, t, m),
        },
    decreases t.len() - from,
{
    if from + 4 > t.len() {
    } else if token_ends(vars, t, from) {
    } else {
        lemma_leading_key_len(vars, t, from + 1);
    }
}

/// A token of the key `k` at the head of `t`, in the terms of [`token`].
pub proof fn lemma_token_ends_is_prefix(vars: Map<Seq<char>, Seq<char>>, t: Seq<char>, k: Seq<char>)
    ensures
        token_ends(vars, t, k.len() as int) && t.subrange(2, k.len() as int + 2) == k <==> vars.contains_key(
            k,
        ) && token(k).is_prefix_of(t),
{
    let n = k.len() as int;
    let tok = token(k);
    assert(tok.len() == n + 4);
    if vars.contains_key(k) && tok.is_prefix_of(t) {
        assert(t.subrange(0, n + 4) == tok);
        assert(t[0] == tok[0]);
        assert(t[1] == tok[1]);
        assert(t[n + 2] == tok[n + 2]);
        assert(t[n + 3] == tok[n + 3]);
        assert(t.subrange(2, n + 2) =~= k) by {
            assert forall|i: int| 0 <= i < n implies t.subrange(2, n + 2)[i] == k[i] by {
                assert(t[i + 2] == tok[i + 2]);
            }
        }
    }
    if token_ends(vars, t, n) && t.subrange(2, n + 2) == k {
        assert(t.subrange(0, n + 4) =~= tok) by {
            assert forall|i: int| 0 <= i < n + 4 implies t.subrange(0, n + 4)[i] == tok[i] by {
                if 2 <= i < n + 2 {
                    assert(t.subrange(2, n + 2)[i - 2] == k[i - 2]);
                }
            }
        }
    }
}

/// A character that opens no token is copied, and rendering goes on behind
/// it.
pub proof fn lemma_render_plain(vars: Map<Seq<char>, Seq<char>>, c: char, rest: Seq<char>)
    requires
        c != '{',
    ensures
        render_spec(vars, seq![c] + rest) == seq![c] + render_spec(vars, rest),
{
    let t = seq![c] + rest;
    lemma_leading_key_len(vars, t, 0);
    assert(t[0] == c);
    assert(leading_key_len(vars, t, 0) is None);
    assert(t.skip(1) =~= rest);
}

/// Rendering is a single pass: where the template begins with the token of a
/// bound key, the value of that key is written as it stands, whatever it
/// holds, and rendering goes on behind the token. The key must hold no `}`, so
/// that no shorter key can end inside its token.
pub proof fn lemma_render_token(vars: Map<Seq<char>, Seq<char>>, key: Seq<char>, rest: Seq<char>)
    requires
        vars.contains_key(key),
        forall|i: int| 0 <= i < key.len() ==> key[i] != '}',
    ensures
        render_spec(vars, token(key) + rest) == vars[key] + render_spec(vars, rest),
{
    let t = token(key) + rest;
    let n = key.len() as int;
    assert(token(key).len() == n + 4);
    assert(token(key).is_prefix_of(t)) by {
        assert(t.subrange(0, n + 4) =~= token(key));
    }
    lemma_token_ends_is_prefix(vars, t, key);
    assert(t.subrange(2, n + 2) =~= key) by {
        assert forall|i: int| 0 <= i < n implies t.subrange(2, n + 2)[i] == key[i] by {
            assert(t[i + 2] == token(key)[i + 2]);
        }
    }
    assert(token_ends(vars, t, n));
    assert forall|m: int| 0 <= m < n implies !token_ends(vars, t, m) by {
        assert(t[m + 2] == token(key)[m + 2]);
        assert(token(key)[m + 2] == key[m]);
    }
    lemma_leading_key_len(vars, t, 0);
    assert(leading_key_len(vars, t, 0) == Some(n));
    assert(t.skip(n + 4) =~= rest);
}

/// Some token of a bound key occurs in `t`.
pub open spec fn has_token(vars: Map<Seq<char>, Seq<char>>, t: Seq<char>) -> bool {
    exists|i: int, n: int| 0 <= i <= t.len() && #[trigger] token_ends(vars, t.skip(i), n)
}

/// A template in which no token of a bound key occurs is rendered as it
/// stands: tokens of keys that are not bound stay in the text.
pub proof fn lemma_render_unbound(vars: Map<Seq<char>, Seq<char>>, t: Seq<char>)
    requires
        !has_token(vars, t),
    ensures
        render_spec(vars, t) == t,
    decreases t.len(),
{
    if t.len() > 0 {
        lemma_leading_key_len(vars, t, 0);
        assert(t.skip(0) =~= t);
        match leading_key_len(vars, t, 0) {
            Some(n) => {
                assert(token_ends(vars, t.skip(0), n));
            },
            None => {},
        }
        assert(leading_key_len(vars, t, 0) is None);
        let rest = t.skip(1);
        assert(!has_token(vars, rest)) by {
            if has_token(vars, rest) {
                let (i, n) = choose|i: int, n: int|
                    0 <= i <= rest.len() && #[trigger] token_ends(vars, rest.skip(i), n);
                assert(rest.skip(i) =~= t.skip(i + 1));
                assert(token_ends(vars, t.skip(i + 1), n));
            }
        }
        lemma_render_unbound(vars, rest);
        assert(seq![t[0]] + rest =~= t);
    } else {
        assert(t =~= Seq::<char>::empty());
    }
}

/// With no key bound, every template is rendered as it stands.
pub proof fn lemma_render_nothing_bound(t: Seq<char>)
    ensures
        render_spec(Map::<Seq<char>, Seq<char>>::empty(), t) == t,
{
    lemma_render_unbound(Map::<Seq<char>, Seq<char>>::empty(), t);
}

/// A set of variable bindings, and the renderer that applies them.
pub struct TemplateEngine {
    variables: Table,
}

impl View for TemplateEngine {
    type V = Map<Seq<char>, Seq<char>>;

    closed spec fn view(&self) -> Map<Seq<char>, Seq<char>> {
        self.variables@
    }
}

impl Default for TemplateEngine {
    fn default() -> (r: Self)
        ensures
            r@ == Map::<Seq<char>, Seq<char>>::empty(),
    {
        TemplateEngine::new()
    }
}

impl TemplateEngine {
    /// An engine with no binding.
    pub fn new() -> (r: Self)
        ensures
            r@ == Map::<Seq<char>, Seq<char>>::empty(),
    {
        TemplateEngine { variables: Table::new() }
    }

    /// The token of a bound key that begins at `t[i]`, if there is one: the
    /// length of its key, and its value.
    fn token_at(&self, t: &Vec<char>, i: usize) -> (r: Option<(usize, &Vec<char>)>)
        requires
            i < t.len(),
        ensures
            match r {
                Some((n, value)) => {
                    &&& leading_key_len(self@, t@.skip(i as int), 0) == Some(n as int)
                    &&& i + n + 4 <= t.len()
                    &&& self@[t@.skip(i as int).subrange(2, n + 2)] == value@
                },
                None => leading_key_len(self@, t@.skip(i as int), 0) is None,
            },
    {
        let ghost s = t@.skip(i as int);
        if t.len() - i < 4 || t[i] != '{' || t[i + 1] != '{' {
            proof {
                lemma_leading_key_len(self@, s, 0);
            }
            return None;
        }
        let limit: usize = t.len() - i - 4;
        let mut n: usize = 0;
        while n <= limit
            invariant
                i + 4 <= t.len(),
                limit == t.len() - i - 4,
                n <= limit + 1,
                s == t@.skip(i as int),
                t@[i as int] == '{',
                t@[i + 1] == '{',
                leading_key_len(self@, s, 0) == leading_key_len(self@, s, n as int),
            decreases limit + 1 - n,
        {
            if t[i + n + 2] == '}' && t[i + n + 3] == '}' {
                assert(s.subrange(2, n + 2) == t@.subrange(i + 2, i + 2 + n));
                match self.variables.find(t, i + 2, n) {
                    Some(value) => {
                        assert(token_ends(self@, s, n as int));
                        return Some((n, value));
                    },
                    None => {},
                }
            }
            assert(!token_ends(self@, s, n as int));
            n = n + 1;
        }
        None
    }

    /// Binds `key` to `value`; a binding that `key` had is replaced.
    pub fn set(&mut self, key: &str, value: &str) -> (r: &mut Self)
        ensures
            (*r)@ == old(self)@.insert(key@, value@),
            *final(self) == *final(r),
    {
        self.variables.insert(to_chars(key), to_chars(value));
        self
    }

    /// Binds `key` to the characters `value`; a binding that `key` had is
    /// replaced.
    pub fn set_chars(&mut self, key: &str, value: Vec<char>)
        ensures
            final(self)@ == old(self)@.insert(key@, value@),
    {
        self.variables.insert(to_chars(key), value);
    }

    /// Renders `template` under the bindings of this engine.
    pub fn render(&self, template: &str) -> (r: String)
        ensures
            r@ == render_spec(self@, template@),
    {
        let t = to_chars(template);
        let out = self.render_chars(&t);
        from_chars(&out)
    }

    /// Renders the characters `t` under the bindings of this engine.
    pub fn render_chars(&self, t: &Vec<char>) -> (out: Vec<char>)
        ensures
            out@ == render_spec(self@, t@),
    {
        let mut out: Vec<char> = Vec::new();
        let mut i: usize = 0;
        assert(t@.skip(0) == t@);
        while i < t.len()
            invariant
                i <= t.len(),
                out@ + render_spec(self@, t@.skip(i as int)) == render_spec(self@, t@),
            decreases t.len() - i,
        {
            let ghost s = t@.skip(i as int);
            match self.token_at(&t, i) {
                Some((n, value)) => {
                    proof {
                        assert(s.skip(n + 4) == t@.skip(i + n + 4));
                    }
                    push_all(&mut out, value);
                    i = i + n + 4;
                },
                None => {
                    proof {
                        assert(s.skip(1) == t@.skip(i + 1));
                        assert(s[0] == t@[i as int]);
                    }
                    out.push(t[i]);
                    i = i + 1;
                },
            }
        }
        assert(render_spec(self@, t@.skip(i as int)) == Seq::<char>::empty());
        assert(out@ + Seq::<char>::empty() == out@);
        out
    }
}

} // verus!
