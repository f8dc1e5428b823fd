//! The template store: raw template texts under their logical paths.

use crate::error::{BootsError, ErrorView};
use crate::template::table::{refs_view, Table};
use crate::text::{concat2, from_chars, has_at, to_chars};
use vstd::prelude::*;
use vstd::utf8::{decode_utf8, valid_utf8};

verus! {

/// `String::from_utf8` of std: the text that `bytes` are in UTF-8, and `None`
/// where they are not UTF-8.
#[verifier::external_body]
fn decode(bytes: Vec<u8>) -> (r: Option<String>)
    ensures
        r is Some <==> valid_utf8(bytes@),
        r is Some ==> r->0@ == decode_utf8(bytes@),
{
    match String::from_utf8(bytes) {
        Ok(text) => Some(text),
        Err(_) => None,
    }
}

/// A read-only collection of template texts, each under a logical path such as
/// `base/Makefile`. The one who builds the store decides where the texts come
/// from; the rest of the library only looks them up.
pub struct Templates {
    files: Table,
}

impl View for Templates {
    type V = Map<Seq<char>, Seq<char>>;

    closed spec fn view(&self) -> Map<Seq<char>, Seq<char>> {
        self.files@
    }
}

/// Those of `paths` that begin with `prefix`, in the same order.
pub open spec fn with_prefix(paths: Seq<Seq<char>>, prefix: Seq<char>) -> Seq<Seq<char>>
    decreases paths.len(),
{
    if paths.len() == 0 {
        Seq::empty()
    } else {
        let before = with_prefix(paths.drop_last(), prefix);
        if prefix.is_prefix_of(paths.last()) {
            before.push(paths.last())
        } else {
            before
        }
    }
}

/// Listing by prefix takes each path with the prefix, and no other, as often
/// as `paths` holds it; the empty prefix takes them all.
pub proof fn lemma_with_prefix(paths: Seq<Seq<char>>, prefix: Seq<char>)
    ensures
        forall|p: Seq<char>|
            #![trigger with_prefix(paths, prefix).contains(p)]
            #![trigger paths.contains(p)]
            with_prefix(paths, prefix).contains(p) <==> paths.contains(p) && prefix.is_prefix_of(p),
        paths.no_duplicates() ==> with_prefix(paths, prefix).no_duplicates(),
        prefix.len() == 0 ==> with_prefix(paths, prefix) == paths,
    decreases paths.len(),
{
    if paths.len() > 0 {
        let front = paths.drop_last();
        let last = paths.last();
        let before = with_prefix(front, prefix);
        let all = with_prefix(paths, prefix);
        lemma_with_prefix(front, prefix);
        assert forall|p: Seq<char>|
            #![trigger all.contains(p)]
            #![trigger paths.contains(p)]
            all.contains(p) <==> paths.contains(p) && prefix.is_prefix_of(p) by {
            assert(before.contains(p) <==> front.contains(p) && prefix.is_prefix_of(p));
            if all.contains(p) {
                let i = choose|i: int| 0 <= i < all.len() && all[i] == p;
                if i < before.len() {
                    assert(before[i] == p);
                    assert(before.contains(p));
                    let j = choose|j: int| 0 <= j < front.len() && front[j] == p;
                    assert(paths[j] == p);
                } else {
                    assert(p == last);
                    assert(paths[paths.len() - 1] == p);
                }
            }
            if paths.contains(p) && prefix.is_prefix_of(p) {
                let j = choose|j: int| 0 <= j < paths.len() && paths[j] == p;
                if j < front.len() {
                    assert(front[j] == p);
                    assert(front.contains(p));
                    let i = choose|i: int| 0 <= i < before.len() && before[i] == p;
                    assert(all[i] == p);
                } else {
                    assert(all[all.len() - 1] == p);
                }
            }
        }
        if paths.no_duplicates() {
            assert(front.no_duplicates());
            if prefix.is_prefix_of(last) {
                assert(!before.contains(last)) by {
                    if before.contains(last) {
                        let j = choose|j: int| 0 <= j < front.len() && front[j] == last;
                        assert(paths[j] == paths[paths.len() - 1]);
                    }
                }
                assert forall|i: int, j: int|
                    0 <= i < all.len() && 0 <= j < all.len() && i != j implies all[i]
                    != all[j] by {
                    if i < before.len() && j < before.len() {
                    } else if i < before.len() {
                        assert(before.contains(before[i]));
                    } else {
                        assert(before.contains(before[j]));
                    }
                }
            }
        }
        if prefix.len() == 0 {
            assert(prefix =~= last.subrange(0, 0));
            assert(all =~= paths);
        }
    } else {
        assert(with_prefix(paths, prefix) =~= paths);
    }
}

impl Templates {
    /// The paths under which texts are stored, each once, in the order in
    /// which they were first stored.
    pub closed spec fn paths(&self) -> Seq<Seq<char>> {
        self.files.keys()
    }

    /// The store holds no path twice, and a text can be looked up under
    /// exactly the paths that it holds.
    pub proof fn lemma_paths(self)
        ensures
            self.paths().no_duplicates(),
            forall|p: Seq<char>|
                #![trigger self.paths().contains(p)]
                #![trigger self@.contains_key(p)]
                self.paths().contains(p) <==> self@.contains_key(p),
    {
        self.files.lemma_keys();
    }

    /// A store without templates.
    pub fn new() -> (r: Self)
        ensures
            r@ == Map::<Seq<char>, Seq<char>>::empty(),
            r.paths() == Seq::<Seq<char>>::empty(),
    {
        Templates { files: Table::new() }
    }

    /// Stores `text` under `path`, in place of the text that was stored there.
    pub fn insert(&mut self, path: &str, text: &str)
        ensures
            final(self)@ == old(self)@.insert(path@, text@),
            final(self).paths() == (if old(self).paths().contains(path@) {
                old(self).paths()
            } else {
                old(self).paths().push(path@)
            }),
    {
        self.files.insert(to_chars(path), to_chars(text));
    }

    /// Stores the text that `bytes` are in UTF-8 under `path`. Bytes that are
    /// not UTF-8 are refused with an error that names `path`, and the store
    /// stays as it was.
    pub fn insert_bytes(&mut self, path: &str, bytes: Vec<u8>) -> (r: Result<(), BootsError>)
        ensures
            valid_utf8(bytes@) ==> r is Ok && final(self)@ == old(self)@.insert(
                path@,
                decode_utf8(bytes@),
            ) && final(self).paths() == (if old(self).paths().contains(path@) {
                old(self).paths()
            } else {
                old(self).paths().push(path@)
            }),
            !valid_utf8(bytes@) ==> r is Err && r->Err_0@ == ErrorView::TemplateError(
                path@ + ": not valid UTF-8"@,
            ) && *final(self) == *old(self),
    {
        match decode(bytes) {
            Some(text) => {
                self.insert(path, text.as_str());
                Ok(())
            },
            None => Err(BootsError::TemplateError(concat2(path, ": not valid UTF-8"))),
        }
    }

    /// The text stored under `path`, if there is one.
    pub fn get_template(&self, path: &str) -> (r: Option<String>)
        ensures
            match r {
                Some(text) => self@.contains_key(path@) && self@[path@] == text@,
                None => !self@.contains_key(path@),
            },
    {
        match self.get_chars(path) {
            Some(text) => Some(from_chars(text)),
            None => None,
        }
    }

    /// The text stored under `path`, as characters.
    pub fn get_chars(&self, path: &str) -> (r: Option<&Vec<char>>)
        ensures
            match r {
                Some(text) => self@.contains_key(path@) && self@[path@] == text@,
                None => !self@.contains_key(path@),
            },
    {
        let key = to_chars(path);
        self.files.get(&key)
    }

    /// The stored paths that begin with `prefix`, each once, in the order in
    /// which they were first stored. Every one of them can be looked up.
    pub fn list_templates(&self, prefix: &str) -> (r: Vec<String>)
        ensures
            r@.len() == with_prefix(self.paths(), prefix@).len(),
            forall|i: int| 0 <= i < r@.len() ==> (#[trigger] r@[i])@ == with_prefix(
                self.paths(),
                prefix@,
            )[i],
            forall|i: int|
                0 <= i < r@.len() ==> self@.contains_key((#[trigger] r@[i])@) && prefix@.is_prefix_of(
                    r@[i]@,
                ),
            forall|i: int, j: int|
                0 <= i < r@.len() && 0 <= j < r@.len() && i != j ==> (#[trigger] r@[i])@ != (
                #[trigger] r@[j])@,
    {
        let p = to_chars(prefix);
        let keys = self.files.distinct_keys();
        let ghost all = refs_view(keys@);
        let mut found: Vec<String> = Vec::new();
        let mut i: usize = 0;
        assert(all.take(0) == Seq::<Seq<char>>::empty());
        while i < keys.len()
            invariant
                i <= keys.len(),
                p@ == prefix@,
                all == refs_view(keys@),
                found@.len() == with_prefix(all.take(i as int), prefix@).len(),
                forall|j: int| 0 <= j < found@.len() ==> (#[trigger] found@[j])@ == with_prefix(
                    all.take(i as int),
                    prefix@,
                )[j],
            decreases keys.len() - i,
        {
            let key = keys[i];
            let hit = has_at(key, 0, &p);
            proof {
                let upto = all.take(i + 1);
                assert(upto.drop_last() == all.take(i as int));
                assert(upto.last() == key@);
                if hit {
                    assert(key@.subrange(0, p@.len() as int) == p@);
                }
                if p@.is_prefix_of(key@) {
                    assert(key@.subrange(0, p@.len() as int) == p@);
                }
            }
            if hit {
                found.push(from_chars(key));
            }
            i = i + 1;
        }
        proof {
            assert(all.take(i as int) == all);
            let listed = with_prefix(self.paths(), prefix@);
            lemma_with_prefix(self.paths(), prefix@);
            self.lemma_paths();
            assert forall|k: int| 0 <= k < found@.len() implies self@.contains_key(
                (#[trigger] found@[k])@,
            ) && prefix@.is_prefix_of(found@[k]@) by {
                assert(listed[k] == found@[k]@);
                assert(listed.contains(listed[k]));
                assert(self.paths().contains(listed[k]));
            }
            assert(listed.no_duplicates());
        }
        found
    }
}

} // verus!
