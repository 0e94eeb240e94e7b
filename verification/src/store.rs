use vstd::prelude::*;
use vstd::string::*;

verus! {

// ---------------------------------------------------------------------------
// Lexicographic order on character sequences
// ---------------------------------------------------------------------------

/// Strict lexicographic order on character sequences, comparing characters
/// by Unicode code point.
pub open spec fn lex_lt(a: Seq<char>, b: Seq<char>) -> bool
    decreases a.len(),
{
    if b.len() == 0 {
        false
    } else if a.len() == 0 {
        true
    } else if a[0] != b[0] {
        (a[0] as u32) < (b[0] as u32)
    } else {
        lex_lt(a.skip(1), b.skip(1))
    }
}

/// No sequence is lexicographically below itself.
pub proof fn lemma_lex_lt_irrefl(a: Seq<char>)
    ensures
        !lex_lt(a, a),
    decreases a.len(),
{
    if a.len() > 0 {
        lemma_lex_lt_irrefl(a.skip(1));
    }
}

/// Distinct sequences are ordered one way or the other.
pub proof fn lemma_lex_lt_total(a: Seq<char>, b: Seq<char>)
    requires
        a != b,
    ensures
        lex_lt(a, b) || lex_lt(b, a),
    decreases a.len(),
{
    if a.len() == 0 && b.len() == 0 {
        assert(a =~= b);
    } else if a.len() > 0 && b.len() > 0 && a[0] != b[0] {
        vstd::utf8::char_u32_cast(a[0], a[0] as u32);
        vstd::utf8::char_u32_cast(b[0], b[0] as u32);
        assert((a[0] as u32) != (b[0] as u32));
    } else if a.len() > 0 && b.len() > 0 && a[0] == b[0] {
        if a.skip(1) == b.skip(1) {
            assert(a.skip(1).len() == b.skip(1).len());
            assert(a.len() == b.len());
            assert forall|i: int| 0 <= i < a.len() implies a[i] == b[i] by {
                if i > 0 {
                    assert(a[i] == a.skip(1)[i - 1]);
                    assert(b[i] == b.skip(1)[i - 1]);
                }
            }
            assert(a =~= b);
        } else {
            lemma_lex_lt_total(a.skip(1), b.skip(1));
        }
    }
}

/// Lexicographic order is transitive.
pub proof fn lemma_lex_lt_trans(a: Seq<char>, b: Seq<char>, c: Seq<char>)
    requires
        lex_lt(a, b),
        lex_lt(b, c),
    ensures
        lex_lt(a, c),
    decreases a.len(),
{
    if a.len() > 0 {
        if a[0] == b[0] && b[0] == c[0] {
            lemma_lex_lt_trans(a.skip(1), b.skip(1), c.skip(1));
        }
    }
}

/// Decides `lex_lt` on string slices.
pub fn str_lex_lt(a: &str, b: &str) -> (r: bool)
    ensures
        r == lex_lt(a@, b@),
{
    let alen = a.unicode_len();
    let blen = b.unicode_len();
    let mut i: usize = 0;
    proof {
        assert(a@.skip(0) =~= a@);
        assert(b@.skip(0) =~= b@);
    }
    while i < alen && i < blen
        invariant
            i <= alen,
            i <= blen,
            alen == a@.len(),
            blen == b@.len(),
            lex_lt(a@, b@) == lex_lt(a@.skip(i as int), b@.skip(i as int)),
        decreases alen - i,
    {
        let ca = a.get_char(i);
        let cb = b.get_char(i);
        proof {
            assert(a@.skip(i as int)[0] == a@[i as int]);
            assert(b@.skip(i as int)[0] == b@[i as int]);
        }
        if ca != cb {
            return (ca as u32) < (cb as u32);
        }
        proof {
            assert(a@.skip(i as int).skip(1) =~= a@.skip(i + 1));
            assert(b@.skip(i as int).skip(1) =~= b@.skip(i + 1));
        }
        i = i + 1;
    }
    proof {
        if i == alen {
            assert(a@.skip(i as int).len() == 0);
        } else {
            assert(b@.skip(i as int).len() == 0);
            assert(a@.skip(i as int).len() > 0);
        }
    }
    alen < blen
}

// ---------------------------------------------------------------------------
// String-keyed association store
// ---------------------------------------------------------------------------

/// One key/value pair of a `KeyedStore`.
pub struct StoreEntry<V> {
    pub key: String,
    pub val: V,
}

/// A collection of values keyed by strings, kept strictly sorted by key.
///
/// This is the in-memory form of the ledger's keyed collections (balances
/// and exchanges).  Its view is the partial map from key (as a character
/// sequence) to the value's view; the strict sorting makes keys unique and
/// gives the enumeration a fixed ordered-by-key order.
pub struct KeyedStore<V> {
    entries: Vec<StoreEntry<V>>,
}

impl<V: View> KeyedStore<V> {
    /// How many entries the store holds.
    pub closed spec fn spec_len(self) -> nat {
        self.entries@.len()
    }

    /// The key of the entry at position `i` of the sorted enumeration.
    pub closed spec fn key_at(self, i: int) -> Seq<char> {
        self.entries@[i].key@
    }

    /// The value of the entry at position `i` of the sorted enumeration.
    pub closed spec fn val_at(self, i: int) -> V::V {
        self.entries@[i].val@
    }

    /// The entries are strictly sorted by key.
    pub open spec fn wf(self) -> bool {
        forall|i: int, j: int|
            0 <= i < j < self.spec_len() ==> lex_lt(
                #[trigger] self.key_at(i),
                #[trigger] self.key_at(j),
            )
    }

    /// Whether some position holds the key `k`.
    pub open spec fn has_key(self, k: Seq<char>) -> bool {
        exists|i: int| 0 <= i < self.spec_len() && #[trigger] self.key_at(i) == k
    }

    /// The position that holds the key `k`.
    pub open spec fn index_of(self, k: Seq<char>) -> int {
        choose|i: int| 0 <= i < self.spec_len() && #[trigger] self.key_at(i) == k
    }
}

impl<V: View> View for KeyedStore<V> {
    type V = Map<Seq<char>, V::V>;

    open spec fn view(&self) -> Map<Seq<char>, V::V> {
        Map::new(|k: Seq<char>| self.has_key(k), |k: Seq<char>| self.val_at(self.index_of(k)))
    }
}

impl<V: View> KeyedStore<V> {
    /// In a well-formed store, keys at distinct positions differ.
    pub proof fn lemma_keys_distinct(self, i: int, j: int)
        requires
            self.wf(),
            0 <= i < self.spec_len(),
            0 <= j < self.spec_len(),
            i != j,
        ensures
            self.key_at(i) != self.key_at(j),
    {
        if i < j {
            assert(lex_lt(self.key_at(i), self.key_at(j)));
        } else {
            assert(lex_lt(self.key_at(j), self.key_at(i)));
        }
        lemma_lex_lt_irrefl(self.key_at(i));
    }

    /// An entry of a well-formed store is what its view maps its key to.
    pub proof fn lemma_entry_in_view(self, i: int)
        requires
            self.wf(),
            0 <= i < self.spec_len(),
        ensures
            self@.contains_key(self.key_at(i)),
            self@[self.key_at(i)] == self.val_at(i),
    {
        assert(self.has_key(self.key_at(i)));
        let j = self.index_of(self.key_at(i));
        assert(0 <= j < self.spec_len() && self.key_at(j) == self.key_at(i));
        if i != j {
            self.lemma_keys_distinct(i, j);
        }
    }

    /// The sorted enumeration covers the view exactly, in strictly
    /// increasing key order.
    pub proof fn lemma_enumeration(self)
        requires
            self.wf(),
        ensures
            forall|i: int|
                0 <= i < self.spec_len() ==> self@.contains_key(#[trigger] self.key_at(i))
                    && self@[self.key_at(i)] == self.val_at(i),
            forall|k: Seq<char>|
                #[trigger] self@.contains_key(k) ==> exists|i: int|
                    0 <= i < self.spec_len() && #[trigger] self.key_at(i) == k,
    {
        assert forall|i: int|
            0 <= i < self.spec_len() implies self@.contains_key(#[trigger] self.key_at(i))
            && self@[self.key_at(i)] == self.val_at(i) by {
            self.lemma_entry_in_view(i);
        }
    }

    /// An empty store.
    pub fn new() -> (s: Self)
        ensures
            s.wf(),
            s.spec_len() == 0,
            s@ == Map::<Seq<char>, V::V>::empty(),
    {
        let s = KeyedStore { entries: Vec::new() };
        proof {
            assert(s@ =~= Map::<Seq<char>, V::V>::empty());
        }
        s
    }

    /// How many entries the store holds.
    pub fn len(&self) -> (n: usize)
        ensures
            n == self.spec_len(),
    {
        self.entries.len()
    }

    /// The key at position `i` of the sorted enumeration.
    pub fn key_ref(&self, i: usize) -> (k: &String)
        requires
            i < self.spec_len(),
        ensures
            k@ == self.key_at(i as int),
    {
        &self.entries[i].key
    }

    /// The value at position `i` of the sorted enumeration.
    pub fn val_ref(&self, i: usize) -> (v: &V)
        requires
            i < self.spec_len(),
        ensures
            v@ == self.val_at(i as int),
    {
        &self.entries[i].val
    }

    /// The first position whose key is not below `key`; all entries before
    /// it have keys strictly below `key`.
    fn lower_bound(&self, key: &String) -> (p: usize)
        requires
            self.wf(),
        ensures
            p <= self.spec_len(),
            forall|i: int| 0 <= i < p ==> lex_lt(#[trigger] self.key_at(i), key@),
            p < self.spec_len() ==> !lex_lt(self.key_at(p as int), key@),
    {
        let n = self.entries.len();
        let mut p: usize = 0;
        while p < n
            invariant
                p <= n,
                n == self.spec_len(),
                self.wf(),
                forall|i: int| 0 <= i < p ==> lex_lt(#[trigger] self.key_at(i), key@),
            decreases n - p,
        {
            if !str_lex_lt(self.entries[p].key.as_str(), key.as_str()) {
                proof {
                    assert(self.key_at(p as int) == self.entries@[p as int].key@);
                }
                return p;
            }
            proof {
                assert(self.key_at(p as int) == self.entries@[p as int].key@);
            }
            p = p + 1;
        }
        p
    }

    /// Shows that `key` appears at no position of the entry list, given the
    /// facts that the search for it established.
    proof fn lemma_key_absent(self, p: int, key: Seq<char>)
        requires
            self.wf(),
            0 <= p <= self.spec_len(),
            forall|i: int| 0 <= i < p ==> lex_lt(#[trigger] self.key_at(i), key),
            p < self.spec_len() ==> !lex_lt(self.key_at(p), key) && self.key_at(p) != key,
        ensures
            !self@.contains_key(key),
    {
        assert forall|i: int| 0 <= i < self.spec_len() implies #[trigger] self.key_at(i)
            != key by {
            if i < p {
                if self.key_at(i) == key {
                    lemma_lex_lt_irrefl(key);
                }
            } else if i > p {
                if self.key_at(i) == key {
                    assert(lex_lt(self.key_at(p), self.key_at(i)));
                    assert(false);
                }
            }
        }
        assert(!self.has_key(key));
    }

    /// Whether the store holds an entry for `key`.
    pub fn contains(&self, key: &String) -> (r: bool)
        requires
            self.wf(),
        ensures
            r == self@.contains_key(key@),
    {
        let p = self.lower_bound(key);
        if p < self.entries.len() && self.entries[p].key == *key {
            proof {
                assert(self.key_at(p as int) == key@);
                self.lemma_entry_in_view(p as int);
            }
            true
        } else {
            proof {
                if p < self.spec_len() {
                    assert(self.key_at(p as int) == self.entries@[p as int].key@);
                }
                self.lemma_key_absent(p as int, key@);
            }
            false
        }
    }

    /// The value stored under `key`, if any.
    pub fn get(&self, key: &String) -> (r: Option<&V>)
        requires
            self.wf(),
        ensures
            match r {
                Some(v) => self@.contains_key(key@) && v@ == self@[key@],
                None => !self@.contains_key(key@),
            },
    {
        let p = self.lower_bound(key);
        if p < self.entries.len() && self.entries[p].key == *key {
            proof {
                assert(self.key_at(p as int) == key@);
                self.lemma_entry_in_view(p as int);
                assert(self.val_at(p as int) == self.entries@[p as int].val@);
            }
            Some(&self.entries[p].val)
        } else {
            proof {
                if p < self.spec_len() {
                    assert(self.key_at(p as int) == self.entries@[p as int].key@);
                }
                self.lemma_key_absent(p as int, key@);
            }
            None
        }
    }

    /// Stores `val` under `key`, replacing any previous value and keeping
    /// the entries sorted.
    pub fn set(&mut self, key: &String, val: V)
        requires
            old(self).wf(),
        ensures
            final(self).wf(),
            final(self)@ == old(self)@.insert(key@, val@),
    {
        let ghost pre = *self;
        let p = self.lower_bound(key);
        if p < self.entries.len() && self.entries[p].key == *key {
            let ghost vv = val@;
            self.entries[p] = StoreEntry { key: key.clone(), val };
            proof {
                assert forall|i: int| 0 <= i < self.spec_len() implies #[trigger] self.key_at(i)
                    == pre.key_at(i) by {
                    assert(self.entries@ == pre.entries@.update(p as int, self.entries@[p as int]));
                }
                assert forall|i: int|
                    0 <= i < self.spec_len() && i != p implies #[trigger] self.val_at(i)
                    == pre.val_at(i) by {}
                assert(self.val_at(p as int) == vv);
                assert(pre.key_at(p as int) == key@);
                self.lemma_set_replace_view(pre, p as int, key@);
            }
        } else {
            proof {
                if p < self.spec_len() {
                    assert(self.key_at(p as int) == self.entries@[p as int].key@);
                }
                pre.lemma_key_absent(p as int, key@);
            }
            let ghost vv = val@;
            self.entries.insert(p, StoreEntry { key: key.clone(), val });
            proof {
                assert(self.entries@ == pre.entries@.insert(p as int, self.entries@[p as int]));
                assert forall|i: int| 0 <= i < p implies #[trigger] self.key_at(i) == pre.key_at(
                    i,
                ) by {}
                assert forall|i: int|
                    p < i < self.spec_len() implies #[trigger] self.key_at(i) == pre.key_at(
                    i - 1,
                ) by {}
                assert forall|i: int| 0 <= i < p implies #[trigger] self.val_at(i) == pre.val_at(
                    i,
                ) by {}
                assert forall|i: int|
                    p < i < self.spec_len() implies #[trigger] self.val_at(i) == pre.val_at(
                    i - 1,
                ) by {}
                assert(self.key_at(p as int) == key@);
                assert(self.val_at(p as int) == vv);
                self.lemma_set_insert_wf(pre, p as int, key@);
                self.lemma_set_insert_view(pre, p as int, key@);
            }
        }
    }

    /// After replacing the value at position `p` (whose key is `key`), the
    /// store is still sorted and its view is the map with `key` rebound.
    proof fn lemma_set_replace_view(self, pre: Self, p: int, key: Seq<char>)
        requires
            pre.wf(),
            0 <= p < pre.spec_len(),
            pre.key_at(p) == key,
            self.spec_len() == pre.spec_len(),
            forall|i: int| 0 <= i < self.spec_len() ==> #[trigger] self.key_at(i) == pre.key_at(i),
            forall|i: int|
                0 <= i < self.spec_len() && i != p ==> #[trigger] self.val_at(i) == pre.val_at(i),
        ensures
            self.wf(),
            self@ == pre@.insert(key, self.val_at(p)),
    {
        assert(self.wf());
        let v = self.val_at(p);
        assert forall|k: Seq<char>| #[trigger]
            self@.contains_key(k) == pre@.insert(key, v).contains_key(k) by {
            if self.has_key(k) {
                let i = choose|i: int| 0 <= i < self.spec_len() && #[trigger] self.key_at(i) == k;
                assert(pre.key_at(i) == k);
                assert(pre.has_key(k));
            }
            if pre.has_key(k) {
                let i = choose|i: int| 0 <= i < pre.spec_len() && #[trigger] pre.key_at(i) == k;
                assert(self.key_at(i) == k);
                assert(self.has_key(k));
            }
        }
        assert forall|k: Seq<char>|
            self@.contains_key(k) implies self@[k] == pre@.insert(key, v)[k] by {
            if k == key {
                self.lemma_entry_in_view(p);
            } else {
                let i = choose|i: int| 0 <= i < self.spec_len() && #[trigger] self.key_at(i) == k;
                assert(pre.key_at(i) == k);
                if i == p {
                    assert(pre.key_at(p) == key);
                    assert(false);
                }
                self.lemma_entry_in_view(i);
                pre.lemma_entry_in_view(i);
            }
        }
        assert(self@ =~= pre@.insert(key, v));
    }

    /// After inserting a fresh entry at the search position, the store is
    /// still strictly sorted.
    proof fn lemma_set_insert_wf(self, pre: Self, p: int, key: Seq<char>)
        requires
            pre.wf(),
            0 <= p <= pre.spec_len(),
            forall|i: int| 0 <= i < p ==> lex_lt(#[trigger] pre.key_at(i), key),
            p < pre.spec_len() ==> !lex_lt(pre.key_at(p), key) && pre.key_at(p) != key,
            self.spec_len() == pre.spec_len() + 1,
            self.key_at(p) == key,
            forall|i: int| 0 <= i < p ==> #[trigger] self.key_at(i) == pre.key_at(i),
            forall|i: int|
                p < i < self.spec_len() ==> #[trigger] self.key_at(i) == pre.key_at(i - 1),
        ensures
            self.wf(),
    {
        if p < pre.spec_len() {
            lemma_lex_lt_total(key, pre.key_at(p));
            assert(lex_lt(key, pre.key_at(p)));
        }
        assert forall|i: int, j: int|
            0 <= i < j < self.spec_len() implies lex_lt(
            #[trigger] self.key_at(i),
            #[trigger] self.key_at(j),
        ) by {
            if i < p && j < p {
                assert(lex_lt(pre.key_at(i), pre.key_at(j)));
            } else if i < p && j == p {
                assert(lex_lt(pre.key_at(i), key));
            } else if i < p && j > p {
                assert(lex_lt(pre.key_at(i), pre.key_at(j - 1)));
            } else if i == p && j > p {
                assert(lex_lt(key, pre.key_at(p)));
                if j - 1 > p {
                    assert(lex_lt(pre.key_at(p), pre.key_at(j - 1)));
                    lemma_lex_lt_trans(key, pre.key_at(p), pre.key_at(j - 1));
                }
            } else {
                assert(i > p && j > p);
                assert(lex_lt(pre.key_at(i - 1), pre.key_at(j - 1)));
            }
        }
    }

    /// After inserting a fresh entry at the search position, the view is the
    /// map extended with the new binding.
    proof fn lemma_set_insert_view(self, pre: Self, p: int, key: Seq<char>)
        requires
            pre.wf(),
            self.wf(),
            0 <= p <= pre.spec_len(),
            !pre@.contains_key(key),
            self.spec_len() == pre.spec_len() + 1,
            self.key_at(p) == key,
            forall|i: int| 0 <= i < p ==> #[trigger] self.key_at(i) == pre.key_at(i),
            forall|i: int|
                p < i < self.spec_len() ==> #[trigger] self.key_at(i) == pre.key_at(i - 1),
            forall|i: int| 0 <= i < p ==> #[trigger] self.val_at(i) == pre.val_at(i),
            forall|i: int|
                p < i < self.spec_len() ==> #[trigger] self.val_at(i) == pre.val_at(i - 1),
        ensures
            self@ == pre@.insert(key, self.val_at(p)),
    {
        let v = self.val_at(p);
        assert forall|k: Seq<char>| #[trigger]
            self@.contains_key(k) == pre@.insert(key, v).contains_key(k) by {
            if k == key {
                assert(self.has_key(k));
            } else {
                if self.has_key(k) {
                    let i = choose|i: int|
                        0 <= i < self.spec_len() && #[trigger] self.key_at(i) == k;
                    if i < p {
                        assert(pre.key_at(i) == k);
                    } else {
                        assert(i != p);
                        assert(pre.key_at(i - 1) == k);
                    }
                    assert(pre.has_key(k));
                }
                if pre.has_key(k) {
                    let i = choose|i: int| 0 <= i < pre.spec_len() && #[trigger] pre.key_at(i) == k;
                    if i < p {
                        assert(self.key_at(i) == k);
                    } else {
                        assert(self.key_at(i + 1) == k);
                    }
                    assert(self.has_key(k));
                }
            }
        }
        assert forall|k: Seq<char>|
            self@.contains_key(k) implies self@[k] == pre@.insert(key, v)[k] by {
            if k == key {
                self.lemma_entry_in_view(p);
            } else {
                let i = choose|i: int| 0 <= i < self.spec_len() && #[trigger] self.key_at(i) == k;
                assert(i != p);
                self.lemma_entry_in_view(i);
                if i < p {
                    pre.lemma_entry_in_view(i);
                    assert(pre.key_at(i) == k);
                } else {
                    pre.lemma_entry_in_view(i - 1);
                    assert(pre.key_at(i - 1) == k);
                }
            }
        }
        assert(self@ =~= pre@.insert(key, v));
    }
}

} // verus!
