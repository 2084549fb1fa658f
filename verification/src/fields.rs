//! Further fields of a user that the library gives no meaning to: a mapping
//! from names to texts, kept in the order of its names, so that what is
//! written out of it depends on what it holds and on nothing else.

use vstd::prelude::*;
use vstd::string::StringSliceAdditionalSpecFns;
use vstd::utf8::{encode_utf8, encode_utf8_decode_utf8};

verus! {

/// One sequence of bytes comes before another: it is a proper prefix of it,
/// or holds the smaller byte at the first place where the two differ.
pub open spec fn bytes_lt(a: Seq<u8>, b: Seq<u8>) -> bool
    decreases a.len(),
{
    if b.len() == 0 {
        false
    } else if a.len() == 0 {
        true
    } else if a[0] != b[0] {
        a[0] < b[0]
    } else {
        bytes_lt(a.drop_first(), b.drop_first())
    }
}

/// One name comes before another: the order of texts by their bytes in
/// UTF-8, which is the order of the standard library's strings.
pub open spec fn key_lt(a: Seq<char>, b: Seq<char>) -> bool {
    bytes_lt(encode_utf8(a), encode_utf8(b))
}

/// A name and its text.
pub type EntryView = (Seq<char>, Seq<char>);

/// The names of the list's entries grow from each entry to the next; so no
/// name occurs twice.
pub open spec fn key_ordered(s: Seq<EntryView>) -> bool {
    forall|i: int, j: int| 0 <= i < j < s.len() ==> key_lt(#[trigger] s[i].0, #[trigger] s[j].0)
}

/// `after` is `before` with the text `value` under the name `key`, in place
/// of any text that `before` held under that name.
pub open spec fn is_inserted(
    before: Seq<EntryView>,
    key: Seq<char>,
    value: Seq<char>,
    after: Seq<EntryView>,
) -> bool {
    &&& key_ordered(after)
    &&& after.contains((key, value))
    &&& forall|e: EntryView| #[trigger] before.contains(e) && e.0 != key ==> after.contains(e)
    &&& forall|e: EntryView| #[trigger]
        after.contains(e) ==> e == (key, value) || (before.contains(e) && e.0 != key)
}

/// No sequence of bytes comes before itself.
pub proof fn lemma_bytes_lt_irreflexive(a: Seq<u8>)
    ensures
        !bytes_lt(a, a),
    decreases a.len(),
{
    if a.len() > 0 {
        lemma_bytes_lt_irreflexive(a.drop_first());
    }
}

/// What comes before something that comes before a third comes before the
/// third.
pub proof fn lemma_bytes_lt_transitive(a: Seq<u8>, b: Seq<u8>, c: Seq<u8>)
    requires
        bytes_lt(a, b),
        bytes_lt(b, c),
    ensures
        bytes_lt(a, c),
    decreases a.len(),
{
    if a.len() > 0 && a[0] == b[0] && b[0] == c[0] {
        lemma_bytes_lt_transitive(a.drop_first(), b.drop_first(), c.drop_first());
    }
}

/// Of two different sequences of bytes one comes before the other.
pub proof fn lemma_bytes_lt_total(a: Seq<u8>, b: Seq<u8>)
    requires
        a != b,
    ensures
        bytes_lt(a, b) || bytes_lt(b, a),
    decreases a.len(),
{
    if a.len() > 0 && b.len() > 0 && a[0] == b[0] {
        if a.drop_first() == b.drop_first() {
            assert(a =~= seq![a[0]] + a.drop_first());
            assert(b =~= seq![b[0]] + b.drop_first());
        }
        lemma_bytes_lt_total(a.drop_first(), b.drop_first());
    } else if a.len() == 0 && b.len() == 0 {
        assert(a =~= b);
    }
}

/// The order of names is a strict total order: no name comes before itself,
/// of two different names one comes before the other, and the order is
/// transitive.
pub proof fn lemma_key_order(a: Seq<char>, b: Seq<char>, c: Seq<char>)
    ensures
        !key_lt(a, a),
        a != b ==> key_lt(a, b) || key_lt(b, a),
        key_lt(a, b) && key_lt(b, c) ==> key_lt(a, c),
        key_lt(a, b) ==> !key_lt(b, a),
{
    lemma_bytes_lt_irreflexive(encode_utf8(a));
    if a != b {
        encode_utf8_decode_utf8(a);
        encode_utf8_decode_utf8(b);
        lemma_bytes_lt_total(encode_utf8(a), encode_utf8(b));
    }
    if key_lt(a, b) && key_lt(b, c) {
        lemma_bytes_lt_transitive(encode_utf8(a), encode_utf8(b), encode_utf8(c));
    }
    if key_lt(a, b) && key_lt(b, a) {
        lemma_bytes_lt_transitive(encode_utf8(a), encode_utf8(b), encode_utf8(a));
    }
}

/// Two lists in the order of their names that hold the same entries are the
/// same list: what a mapping is written out as depends on what it holds, not
/// on how it was filled.
pub proof fn lemma_same_entries_same_list(a: Seq<EntryView>, b: Seq<EntryView>)
    requires
        key_ordered(a),
        key_ordered(b),
        forall|e: EntryView| a.contains(e) <==> b.contains(e),
    ensures
        a == b,
    decreases a.len(),
{
    if a.len() == 0 {
        if b.len() > 0 {
            assert(b.contains(b[0]));
        }
        assert(a =~= b);
    } else if b.len() == 0 {
        assert(a.contains(a[0]));
    } else {
        assert(a.contains(a[0]));
        assert(b.contains(b[0]));
        let j = choose|j: int| 0 <= j < b.len() && b[j] == a[0];
        let i = choose|i: int| 0 <= i < a.len() && a[i] == b[0];
        lemma_key_order(a[0].0, b[0].0, a[0].0);
        if j > 0 {
            assert(key_lt(b[0].0, b[j].0));
            if i > 0 {
                assert(key_lt(a[0].0, a[i].0));
            }
        }
        assert(a[0] == b[0]);
        let ta = a.drop_first();
        let tb = b.drop_first();
        assert forall|e: EntryView| ta.contains(e) <==> tb.contains(e) by {
            if ta.contains(e) {
                let m = choose|m: int| 0 <= m < ta.len() && ta[m] == e;
                assert(a[m + 1] == e);
                assert(a.contains(e));
                assert(key_lt(a[0].0, a[m + 1].0));
                lemma_key_order(a[0].0, e.0, a[0].0);
                let n = choose|n: int| 0 <= n < b.len() && b[n] == e;
                assert(n > 0);
                assert(tb[n - 1] == e);
            }
            if tb.contains(e) {
                let m = choose|m: int| 0 <= m < tb.len() && tb[m] == e;
                assert(b[m + 1] == e);
                assert(b.contains(e));
                assert(key_lt(b[0].0, b[m + 1].0));
                lemma_key_order(b[0].0, e.0, b[0].0);
                let n = choose|n: int| 0 <= n < a.len() && a[n] == e;
                assert(n > 0);
                assert(ta[n - 1] == e);
            }
        }
        assert forall|x: int, y: int| 0 <= x < y < ta.len() implies key_lt(
            #[trigger] ta[x].0,
            #[trigger] ta[y].0,
        ) by {
            assert(key_lt(a[x + 1].0, a[y + 1].0));
        }
        assert forall|x: int, y: int| 0 <= x < y < tb.len() implies key_lt(
            #[trigger] tb[x].0,
            #[trigger] tb[y].0,
        ) by {
            assert(key_lt(b[x + 1].0, b[y + 1].0));
        }
        lemma_same_entries_same_list(ta, tb);
        assert(a =~= seq![a[0]] + ta);
        assert(b =~= seq![b[0]] + tb);
    }
}

/// Two names with different texts under them may be put in either order:
/// the list is the same.
pub proof fn lemma_insertion_order(
    s: Seq<EntryView>,
    first: EntryView,
    second: EntryView,
    a1: Seq<EntryView>,
    a2: Seq<EntryView>,
    b1: Seq<EntryView>,
    b2: Seq<EntryView>,
)
    requires
        first.0 != second.0,
        is_inserted(s, first.0, first.1, a1),
        is_inserted(a1, second.0, second.1, a2),
        is_inserted(s, second.0, second.1, b1),
        is_inserted(b1, first.0, first.1, b2),
    ensures
        a2 == b2,
{
    assert forall|e: EntryView| a2.contains(e) <==> b2.contains(e) by {
        if a2.contains(e) && e != second {
            assert(a1.contains(e));
        }
        if b2.contains(e) && e != first {
            assert(b1.contains(e));
        }
    }
    lemma_same_entries_same_list(a2, b2);
}

/// How one name stands to another.
#[derive(Debug, Clone, Copy, PartialEq, Eq, Structural)]
pub enum Side {
    Before,
    Same,
    After,
}

/// How the name `a` stands to the name `b` in the order of names.
pub fn side(a: &str, b: &str) -> (r: Side)
    ensures
        match r {
            Side::Before => key_lt(a@, b@),
            Side::Same => a@ == b@,
            Side::After => key_lt(b@, a@),
        },
{
    let x = a.as_bytes();
    let y = b.as_bytes();
    let mut i: usize = 0;
    proof {
        assert(x@.skip(0) =~= x@);
        assert(y@.skip(0) =~= y@);
        assert(x@.take(0) =~= y@.take(0));
    }
    while i < x.len() && i < y.len()
        invariant
            i <= x@.len(),
            i <= y@.len(),
            x@ == encode_utf8(a@),
            y@ == encode_utf8(b@),
            x@.take(i as int) == y@.take(i as int),
            bytes_lt(x@, y@) == bytes_lt(x@.skip(i as int), y@.skip(i as int)),
            bytes_lt(y@, x@) == bytes_lt(y@.skip(i as int), x@.skip(i as int)),
        decreases x@.len() - i,
    {
        let p = x[i];
        let q = y[i];
        proof {
            assert(x@.skip(i as int)[0] == p);
            assert(y@.skip(i as int)[0] == q);
            assert(x@.skip(i as int).drop_first() =~= x@.skip(i + 1));
            assert(y@.skip(i as int).drop_first() =~= y@.skip(i + 1));
        }
        if p < q {
            return Side::Before;
        }
        if q < p {
            return Side::After;
        }
        proof {
            assert(x@.take(i + 1) =~= x@.take(i as int).push(p));
            assert(y@.take(i + 1) =~= y@.take(i as int).push(q));
        }
        i += 1;
    }
    if i < y.len() {
        proof {
            assert(x@.skip(i as int).len() == 0);
        }
        Side::Before
    } else if i < x.len() {
        proof {
            assert(y@.skip(i as int).len() == 0);
        }
        Side::After
    } else {
        proof {
            assert(x@ =~= x@.take(i as int));
            assert(y@ =~= y@.take(i as int));
            encode_utf8_decode_utf8(a@);
            encode_utf8_decode_utf8(b@);
        }
        Side::Same
    }
}

/// The names and texts of a list of entries.
pub open spec fn entries_view(entries: Seq<(String, String)>) -> Seq<EntryView> {
    entries.map_values(|e: (String, String)| (e.0@, e.1@))
}

/// A mapping from names to texts, kept in the order of its names.
#[derive(Debug)]
pub struct OtherFields {
    entries: Vec<(String, String)>,
}

impl View for OtherFields {
    type V = Seq<EntryView>;

    closed spec fn view(&self) -> Seq<EntryView> {
        entries_view(self.entries@)
    }
}

impl OtherFields {
    #[verifier::type_invariant]
    spec fn well_formed(self) -> bool {
        key_ordered(self@)
    }

    /// The mapping that holds nothing.
    pub fn new() -> (r: Self)
        ensures
            r@ == Seq::<EntryView>::empty(),
    {
        let r = OtherFields { entries: Vec::new() };
        proof {
            assert(r@ =~= Seq::<EntryView>::empty());
        }
        r
    }

    /// The entries, in the order of their names.
    pub fn entries(&self) -> (r: &Vec<(String, String)>)
        ensures
            entries_view(r@) == self@,
            key_ordered(self@),
    {
        proof {
            use_type_invariant(self);
        }
        &self.entries
    }

    /// The number of entries.
    pub fn len(&self) -> (r: usize)
        ensures
            r == self@.len(),
    {
        self.entries.len()
    }

    /// The text under the name `key`, if there is one.
    pub fn get(&self, key: &str) -> (r: Option<&String>)
        ensures
            key_ordered(self@),
            match r {
                Some(value) => self@.contains((key@, value@)),
                None => forall|e: EntryView| self@.contains(e) ==> e.0 != key@,
            },
    {
        proof {
            use_type_invariant(self);
        }
        let mut i: usize = 0;
        while i < self.entries.len()
            invariant
                i <= self.entries.len(),
                key_ordered(self@),
                forall|j: int| 0 <= j < i ==> (#[trigger] self@[j]).0 != key@,
            decreases self.entries.len() - i,
        {
            match side(self.entries[i].0.as_str(), key) {
                Side::Same => {
                    proof {
                        assert(self@[i as int] == (key@, self.entries[i as int].1@));
                    }
                    return Some(&self.entries[i].1);
                },
                _ => {
                    proof {
                        lemma_key_order(self@[i as int].0, key@, key@);
                    }
                },
            }
            i += 1;
        }
        None
    }

    /// The mapping with the text `value` under the name `key`, in place of
    /// any text that was there.
    pub fn insert(self, key: String, value: String) -> (r: Self)
        ensures
            is_inserted(self@, key@, value@, r@),
    {
        proof {
            use_type_invariant(&self);
        }
        let ghost before = self@;
        let mut entries = self.entries;
        let mut i: usize = 0;
        let mut found = false;
        while i < entries.len()
            invariant_except_break
                !found,
            invariant
                i <= entries.len(),
                entries_view(entries@) == before,
                key_ordered(before),
                forall|j: int| 0 <= j < i ==> key_lt((#[trigger] before[j]).0, key@),
            ensures
                i <= entries.len(),
                found ==> i < entries.len() && before[i as int].0 == key@,
                !found ==> (i == entries.len() || key_lt(key@, before[i as int].0)),
            decreases entries.len() - i,
        {
            match side(entries[i].0.as_str(), key.as_str()) {
                Side::Before => {},
                Side::Same => {
                    found = true;
                    break ;
                },
                Side::After => {
                    break ;
                },
            }
            i += 1;
        }
        if found {
            entries.set(i, (key, value));
            proof {
                let after = entries_view(entries@);
                assert(after =~= before.update(i as int, (key@, value@)));
                assert(after[i as int] == (key@, value@));
                assert forall|x: int, y: int| 0 <= x < y < after.len() implies key_lt(
                    #[trigger] after[x].0,
                    #[trigger] after[y].0,
                ) by {
                    assert(key_lt(before[x].0, before[y].0));
                }
                assert forall|e: EntryView| #[trigger]
                    before.contains(e) && e.0 != key@ implies after.contains(e) by {
                    let m = choose|m: int| 0 <= m < before.len() && before[m] == e;
                    assert(after[m] == e);
                }
                assert forall|e: EntryView| #[trigger] after.contains(e) implies e == (key@, value@)
                    || (before.contains(e) && e.0 != key@) by {
                    let m = choose|m: int| 0 <= m < after.len() && after[m] == e;
                    if m != i {
                        assert(before[m] == e);
                        lemma_key_order(before[m].0, before[i as int].0, before[m].0);
                        if m < i {
                            assert(key_lt(before[m].0, before[i as int].0));
                        } else {
                            assert(key_lt(before[i as int].0, before[m].0));
                        }
                    }
                }
            }
        } else {
            entries.insert(i, (key, value));
            proof {
                let after = entries_view(entries@);
                assert(after =~= before.insert(i as int, (key@, value@)));
                assert(after[i as int] == (key@, value@));
                assert forall|x: int, y: int| 0 <= x < y < after.len() implies key_lt(
                    #[trigger] after[x].0,
                    #[trigger] after[y].0,
                ) by {
                    if y < i {
                        assert(key_lt(before[x].0, before[y].0));
                    } else if y == i {
                        assert(key_lt(before[x].0, key@));
                    } else if x == i {
                        if y - 1 > i {
                            assert(key_lt(before[i as int].0, before[y - 1].0));
                            lemma_key_order(key@, before[i as int].0, before[y - 1].0);
                        }
                    } else if x < i {
                        assert(key_lt(before[x].0, before[y - 1].0));
                    } else {
                        assert(key_lt(before[x - 1].0, before[y - 1].0));
                    }
                }
                assert forall|e: EntryView| #[trigger]
                    before.contains(e) && e.0 != key@ implies after.contains(e) by {
                    let m = choose|m: int| 0 <= m < before.len() && before[m] == e;
                    if m < i {
                        assert(after[m] == e);
                    } else {
                        assert(after[m + 1] == e);
                    }
                }
                assert forall|e: EntryView| #[trigger] after.contains(e) implies e == (key@, value@)
                    || (before.contains(e) && e.0 != key@) by {
                    let m = choose|m: int| 0 <= m < after.len() && after[m] == e;
                    if m < i {
                        assert(before[m] == e);
                        lemma_key_order(before[m].0, key@, before[m].0);
                    } else if m > i {
                        assert(before[m - 1] == e);
                        if m - 1 > i {
                            assert(key_lt(before[i as int].0, before[m - 1].0));
                            lemma_key_order(key@, before[i as int].0, before[m - 1].0);
                        }
                        lemma_key_order(key@, before[m - 1].0, key@);
                    }
                }
            }
        }
        OtherFields { entries }
    }
}

impl Clone for OtherFields {
    fn clone(&self) -> (r: Self)
        ensures
            r@ == self@,
    {
        proof {
            use_type_invariant(self);
        }
        let mut entries: Vec<(String, String)> = Vec::new();
        let mut i: usize = 0;
        while i < self.entries.len()
            invariant
                i <= self.entries.len(),
                entries.len() == i,
                forall|j: int|
                    0 <= j < i ==> (#[trigger] entries[j]).0@ == self.entries[j].0@ && entries[j].1@
                        == self.entries[j].1@,
            decreases self.entries.len() - i,
        {
            entries.push((self.entries[i].0.clone(), self.entries[i].1.clone()));
            i += 1;
        }
        proof {
            assert(entries_view(entries@) =~= entries_view(self.entries@));
        }
        OtherFields { entries }
    }
}

impl Default for OtherFields {
    fn default() -> (r: Self)
        ensures
            r@ == Seq::<EntryView>::empty(),
    {
        OtherFields::new()
    }
}

} // verus!
