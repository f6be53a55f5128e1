//! Label-keyed counter families kept in label order. A key is the
//! list of label values of one series; keys are ordered component by
//! component, each component by the bytes of its UTF-8 encoding (the
//! order of `str` and of tuples of strings).

use vstd::prelude::*;
use vstd::utf8::encode_utf8;

verus! {

broadcast use vstd::utf8::encode_utf8_decode_utf8;

/// Lexicographic order on byte strings: a proper prefix comes first.
pub open spec fn bytes_lt(a: Seq<u8>, b: Seq<u8>) -> bool
    decreases a.len(),
{
    if a.len() == 0 {
        b.len() > 0
    } else if b.len() == 0 {
        false
    } else if a[0] < b[0] {
        true
    } else if a[0] > b[0] {
        false
    } else {
        bytes_lt(a.drop_first(), b.drop_first())
    }
}

/// Component-wise lexicographic order on label keys of equal arity.
pub open spec fn key_lt(a: Seq<Seq<u8>>, b: Seq<Seq<u8>>) -> bool
    decreases a.len(),
{
    if a.len() == 0 || b.len() == 0 {
        false
    } else if bytes_lt(a[0], b[0]) {
        true
    } else if a[0] == b[0] {
        key_lt(a.drop_first(), b.drop_first())
    } else {
        false
    }
}

/// The UTF-8 bytes of every label value of a key.
pub open spec fn key_bytes(k: Seq<Seq<char>>) -> Seq<Seq<u8>> {
    k.map_values(|s: Seq<char>| encode_utf8(s))
}

/// The order in which series are kept and rendered.
pub open spec fn label_lt(a: Seq<Seq<char>>, b: Seq<Seq<char>>) -> bool {
    key_lt(key_bytes(a), key_bytes(b))
}

pub proof fn lemma_bytes_lt_irreflexive(a: Seq<u8>)
    ensures
        !bytes_lt(a, a),
    decreases a.len(),
{
    if a.len() > 0 {
        lemma_bytes_lt_irreflexive(a.drop_first());
    }
}

pub proof fn lemma_bytes_lt_total(a: Seq<u8>, b: Seq<u8>)
    ensures
        a != b ==> bytes_lt(a, b) || bytes_lt(b, a),
        !(bytes_lt(a, b) && bytes_lt(b, a)),
    decreases a.len(),
{
    if a.len() > 0 && b.len() > 0 && a[0] == b[0] {
        lemma_bytes_lt_total(a.drop_first(), b.drop_first());
        if a.drop_first() == b.drop_first() {
            assert(a =~= seq![a[0]] + a.drop_first());
            assert(b =~= seq![b[0]] + b.drop_first());
        }
    }
    if a.len() == 0 && b.len() == 0 {
        assert(a =~= b);
    }
}

pub proof fn lemma_bytes_lt_transitive(a: Seq<u8>, b: Seq<u8>, c: Seq<u8>)
    requires
        bytes_lt(a, b),
        bytes_lt(b, c),
    ensures
        bytes_lt(a, c),
    decreases a.len(),
{
    if a.len() > 0 && b.len() > 0 && c.len() > 0 && a[0] == b[0] && b[0] == c[0] {
        lemma_bytes_lt_transitive(a.drop_first(), b.drop_first(), c.drop_first());
    }
}

pub proof fn lemma_key_lt_irreflexive(a: Seq<Seq<u8>>)
    ensures
        !key_lt(a, a),
    decreases a.len(),
{
    if a.len() > 0 {
        lemma_bytes_lt_irreflexive(a[0]);
        lemma_key_lt_irreflexive(a.drop_first());
    }
}

pub proof fn lemma_key_lt_total(a: Seq<Seq<u8>>, b: Seq<Seq<u8>>)
    requires
        a.len() == b.len(),
    ensures
        a != b ==> key_lt(a, b) || key_lt(b, a),
        !(key_lt(a, b) && key_lt(b, a)),
    decreases a.len(),
{
    if a.len() == 0 {
        assert(a =~= b);
    } else {
        lemma_bytes_lt_total(a[0], b[0]);
        lemma_key_lt_total(a.drop_first(), b.drop_first());
        if a[0] == b[0] && a.drop_first() == b.drop_first() {
            assert(a =~= seq![a[0]] + a.drop_first());
            assert(b =~= seq![b[0]] + b.drop_first());
        }
    }
}

pub proof fn lemma_key_lt_transitive(a: Seq<Seq<u8>>, b: Seq<Seq<u8>>, c: Seq<Seq<u8>>)
    requires
        key_lt(a, b),
        key_lt(b, c),
    ensures
        key_lt(a, c),
    decreases a.len(),
{
    if bytes_lt(a[0], b[0]) && bytes_lt(b[0], c[0]) {
        lemma_bytes_lt_transitive(a[0], b[0], c[0]);
    } else if a[0] == b[0] && b[0] == c[0] {
        lemma_key_lt_transitive(a.drop_first(), b.drop_first(), c.drop_first());
    }
}

/// No two keys are each below the other, whatever their arity.
pub proof fn lemma_key_lt_asymmetric(a: Seq<Seq<u8>>, b: Seq<Seq<u8>>)
    ensures
        !(key_lt(a, b) && key_lt(b, a)),
    decreases a.len(),
{
    if a.len() > 0 && b.len() > 0 {
        lemma_bytes_lt_total(a[0], b[0]);
        lemma_bytes_lt_irreflexive(a[0]);
        if a[0] == b[0] {
            lemma_key_lt_asymmetric(a.drop_first(), b.drop_first());
        }
    }
}

/// Distinct label keys have distinct byte keys.
pub proof fn lemma_key_bytes_injective(a: Seq<Seq<char>>, b: Seq<Seq<char>>)
    requires
        a.len() == b.len(),
        key_bytes(a) == key_bytes(b),
    ensures
        a == b,
{
    assert forall|i: int| 0 <= i < a.len() implies a[i] == b[i] by {
        assert(key_bytes(a)[i] == key_bytes(b)[i]);
        assert(vstd::utf8::decode_utf8(encode_utf8(a[i])) == a[i]);
        assert(vstd::utf8::decode_utf8(encode_utf8(b[i])) == b[i]);
    }
    assert(a =~= b);
}

/// Byte-wise order of two strings.
pub fn str_lt(a: &str, b: &str) -> (r: bool)
    ensures
        r == bytes_lt(encode_utf8(a@), encode_utf8(b@)),
{
    let x = a.as_bytes();
    let y = b.as_bytes();
    let mut i: usize = 0;
    assert(x@.subrange(0, x@.len() as int) =~= x@);
    assert(y@.subrange(0, y@.len() as int) =~= y@);
    while i < x.len() && i < y.len() && x[i] == y[i]
        invariant
            i <= x@.len(),
            i <= y@.len(),
            bytes_lt(x@.subrange(i as int, x@.len() as int), y@.subrange(i as int, y@.len() as int))
                == bytes_lt(x@, y@),
        decreases x@.len() - i,
    {
        let ghost xs = x@.subrange(i as int, x@.len() as int);
        let ghost ys = y@.subrange(i as int, y@.len() as int);
        assert(xs.drop_first() =~= x@.subrange(i + 1, x@.len() as int));
        assert(ys.drop_first() =~= y@.subrange(i + 1, y@.len() as int));
        i = i + 1;
    }
    let ghost xs = x@.subrange(i as int, x@.len() as int);
    let ghost ys = y@.subrange(i as int, y@.len() as int);
    if i == x.len() {
        i < y.len()
    } else if i == y.len() {
        false
    } else {
        assert(xs[0] == x@[i as int] && ys[0] == y@[i as int]);
        x[i] < y[i]
    }
}

/// The character views of the label values of a key.
pub open spec fn key_view(k: Seq<String>) -> Seq<Seq<char>> {
    k.map_values(|s: String| s@)
}

/// Order of two label keys of equal arity.
pub fn labels_lt(a: &Vec<String>, b: &Vec<String>) -> (r: bool)
    requires
        a@.len() == b@.len(),
    ensures
        r == label_lt(key_view(a@), key_view(b@)),
{
    let mut i: usize = 0;
    let ghost ka = key_bytes(key_view(a@));
    let ghost kb = key_bytes(key_view(b@));
    assert(ka.subrange(0, ka.len() as int) =~= ka);
    assert(kb.subrange(0, kb.len() as int) =~= kb);
    while i < a.len()
        invariant
            a@.len() == b@.len(),
            i <= a@.len(),
            ka == key_bytes(key_view(a@)),
            kb == key_bytes(key_view(b@)),
            forall|j: int| 0 <= j < i ==> ka[j] == kb[j],
            key_lt(ka.subrange(i as int, ka.len() as int), kb.subrange(i as int, kb.len() as int))
                == key_lt(ka, kb),
        decreases a@.len() - i,
    {
        let sa = a[i].as_str();
        let sb = b[i].as_str();
        let ghost xa = ka.subrange(i as int, ka.len() as int);
        let ghost xb = kb.subrange(i as int, kb.len() as int);
        assert(xa[0] == ka[i as int] && xb[0] == kb[i as int]);
        if str_lt(sa, sb) {
            return true;
        }
        if str_lt(sb, sa) {
            proof {
                lemma_bytes_lt_total(ka[i as int], kb[i as int]);
            }
            return false;
        }
        proof {
            lemma_bytes_lt_total(ka[i as int], kb[i as int]);
            assert(xa.drop_first() =~= ka.subrange(i + 1, ka.len() as int));
            assert(xb.drop_first() =~= kb.subrange(i + 1, kb.len() as int));
        }
        i = i + 1;
    }
    false
}

/// `s` lists the entries of `m` and nothing else: every key of `m`
/// exactly once with its value, in strictly increasing label order,
/// as many series as `m` has keys.
pub open spec fn lists_in_label_order<V>(s: Seq<(Seq<Seq<char>>, V)>, m: Map<Seq<Seq<char>>, V>) -> bool {
    &&& forall|i: int, j: int| 0 <= i < j < s.len() ==> label_lt(#[trigger] s[i].0, #[trigger] s[j].0)
    &&& forall|i: int| 0 <= i < s.len() ==> m.contains_key(#[trigger] s[i].0) && m[s[i].0] == s[i].1
    &&& forall|k: Seq<Seq<char>>| #[trigger] m.contains_key(k) ==> exists|i: int| 0 <= i < s.len() && s[i].0 == k
    &&& m.dom().finite()
    &&& s.len() == m.dom().len()
}

/// The listing of `m` in label order: its entries, each key once with
/// its value, in strictly increasing label order. Every family and
/// every table of outbox depths rendered has such a listing (the
/// render states it), and there is only one
/// (`lemma_label_order_listing_unique`).
pub open spec fn in_label_order<V>(m: Map<Seq<Seq<char>>, V>) -> Seq<(Seq<Seq<char>>, V)> {
    choose|s: Seq<(Seq<Seq<char>>, V)>| lists_in_label_order(s, m)
}

/// The empty map is listed by the empty sequence.
pub proof fn lemma_empty_listing<V>()
    ensures
        lists_in_label_order(in_label_order(Map::<Seq<Seq<char>>, V>::empty()), Map::<Seq<Seq<char>>, V>::empty()),
        in_label_order(Map::<Seq<Seq<char>>, V>::empty()).len() == 0,
{
    let m = Map::<Seq<Seq<char>>, V>::empty();
    assert(m.dom() =~= Set::<Seq<Seq<char>>>::empty());
    assert(lists_in_label_order(Seq::<(Seq<Seq<char>>, V)>::empty(), m));
}

/// A map has one listing in label order: two listings of the same map
/// are the same sequence.
pub proof fn lemma_label_order_listing_unique<V>(
    s1: Seq<(Seq<Seq<char>>, V)>,
    s2: Seq<(Seq<Seq<char>>, V)>,
    m: Map<Seq<Seq<char>>, V>,
)
    requires
        lists_in_label_order(s1, m),
        lists_in_label_order(s2, m),
    ensures
        s1 == s2,
    decreases s1.len(),
{
    if s1.len() == 0 {
        assert(s2.len() == 0);
        assert(s1 =~= s2);
    } else {
        let a = s1[0].0;
        let b = s2[0].0;
        assert(m.contains_key(a) && m.contains_key(b));
        if a != b {
            let j = choose|j: int| 0 <= j < s2.len() && s2[j].0 == a;
            let i = choose|i: int| 0 <= i < s1.len() && s1[i].0 == b;
            assert(label_lt(s2[0].0, s2[j].0));
            assert(label_lt(s1[0].0, s1[i].0));
            lemma_key_lt_asymmetric(key_bytes(a), key_bytes(b));
        }
        assert(s1[0] == s2[0]);
        let m2 = m.remove(a);
        let t1 = s1.drop_first();
        let t2 = s2.drop_first();
        assert forall|i: int| 0 <= i < t1.len() implies m2.contains_key(#[trigger] t1[i].0) && m2[t1[i].0]
            == t1[i].1 by {
            assert(t1[i] == s1[i + 1]);
            assert(label_lt(s1[0].0, s1[i + 1].0));
            lemma_key_lt_irreflexive(key_bytes(a));
        }
        assert forall|i: int| 0 <= i < t2.len() implies m2.contains_key(#[trigger] t2[i].0) && m2[t2[i].0]
            == t2[i].1 by {
            assert(t2[i] == s2[i + 1]);
            assert(label_lt(s2[0].0, s2[i + 1].0));
            lemma_key_lt_irreflexive(key_bytes(a));
        }
        assert forall|k: Seq<Seq<char>>| #[trigger] m2.contains_key(k) implies exists|i: int|
            0 <= i < t1.len() && t1[i].0 == k by {
            let i = choose|i: int| 0 <= i < s1.len() && s1[i].0 == k;
            assert(t1[i - 1] == s1[i]);
        }
        assert forall|k: Seq<Seq<char>>| #[trigger] m2.contains_key(k) implies exists|i: int|
            0 <= i < t2.len() && t2[i].0 == k by {
            let i = choose|i: int| 0 <= i < s2.len() && s2[i].0 == k;
            assert(t2[i - 1] == s2[i]);
        }
        assert forall|i: int, j: int| 0 <= i < j < t1.len() implies label_lt(#[trigger] t1[i].0, #[trigger] t1[j].0) by {
            assert(t1[i] == s1[i + 1] && t1[j] == s1[j + 1]);
        }
        assert forall|i: int, j: int| 0 <= i < j < t2.len() implies label_lt(#[trigger] t2[i].0, #[trigger] t2[j].0) by {
            assert(t2[i] == s2[i + 1] && t2[j] == s2[j + 1]);
        }
        assert(m2.dom() =~= m.dom().remove(a));
        lemma_label_order_listing_unique(t1, t2, m2);
        assert(s1 =~= s2) by {
            assert forall|i: int| 0 <= i < s1.len() implies s1[i] == s2[i] by {
                if i > 0 {
                    assert(s1[i] == t1[i - 1] && s2[i] == t2[i - 1]);
                }
            }
        }
    }
}

/// A family of series: label keys with their values, kept sorted by
/// `label_lt`, every key of the same arity.
pub struct LabelMap<V> {
    pub entries: Vec<(Vec<String>, V)>,
}

impl<V: Copy> LabelMap<V> {
    /// The keys in their stored order.
    pub open spec fn keys(&self) -> Seq<Seq<Seq<char>>> {
        self.entries@.map_values(|e: (Vec<String>, V)| key_view(e.0@))
    }

    /// Keys of the given arity, strictly increasing.
    pub open spec fn wf(&self, arity: nat) -> bool {
        &&& forall|i: int| 0 <= i < self.keys().len() ==> (#[trigger] self.keys()[i]).len() == arity
        &&& forall|i: int, j: int|
            0 <= i < j < self.keys().len() ==> label_lt(#[trigger] self.keys()[i], #[trigger] self.keys()[j])
    }

    /// Whether a series with key `k` exists.
    pub open spec fn has(&self, k: Seq<Seq<char>>) -> bool {
        exists|i: int| 0 <= i < self.keys().len() && self.keys()[i] == k
    }

    /// A position holding key `k`, when there is one.
    pub open spec fn position(&self, k: Seq<Seq<char>>) -> int {
        choose|i: int| 0 <= i < self.keys().len() && self.keys()[i] == k
    }

    /// The value of the series with key `k`.
    pub open spec fn value(&self, k: Seq<Seq<char>>) -> V {
        self.entries@[self.position(k)].1
    }

    /// The family as a map from key to value.
    pub open spec fn view(&self) -> Map<Seq<Seq<char>>, V> {
        Map::new(|k: Seq<Seq<char>>| self.has(k), |k: Seq<Seq<char>>| self.value(k))
    }

    /// The series in stored (increasing) order.
    pub open spec fn series(&self) -> Seq<(Seq<Seq<char>>, V)> {
        self.entries@.map_values(|e: (Vec<String>, V)| (key_view(e.0@), e.1))
    }

    pub fn new() -> (r: Self)
        ensures
            r.entries@.len() == 0,
            forall|a: nat| r.wf(a),
            r.view() =~= Map::<Seq<Seq<char>>, V>::empty(),
    {
        LabelMap { entries: Vec::new() }
    }

    proof fn lemma_value_at(&self, arity: nat, i: int)
        requires
            self.wf(arity),
            0 <= i < self.keys().len(),
        ensures
            self.has(self.keys()[i]),
            self.value(self.keys()[i]) == self.entries@[i].1,
    {
        let k = self.keys()[i];
        assert(0 <= i < self.keys().len() && self.keys()[i] == k);
        let j = self.position(k);
        if j != i {
            if j < i {
                assert(label_lt(self.keys()[j], self.keys()[i]));
            } else {
                assert(label_lt(self.keys()[i], self.keys()[j]));
            }
            lemma_key_lt_irreflexive(key_bytes(k));
        }
        assert(j == i);
        assert(self.value(k) == self.entries@[j].1);
    }

    /// Position where `key` is or would be inserted, and whether it is
    /// present there.
    fn locate(&self, key: &Vec<String>, Ghost(arity): Ghost<nat>) -> (r: (usize, bool))
        requires
            self.wf(arity),
            key@.len() == arity,
        ensures
            r.0 <= self.keys().len(),
            forall|i: int| 0 <= i < r.0 ==> label_lt(#[trigger] self.keys()[i], key_view(key@)),
            r.1 ==> r.0 < self.keys().len() && self.keys()[r.0 as int] == key_view(key@),
            !r.1 ==> (r.0 < self.keys().len() ==> label_lt(key_view(key@), self.keys()[r.0 as int])),
            !r.1 ==> !self.has(key_view(key@)),
    {
        let ghost kv = key_view(key@);
        let mut p: usize = 0;
        let mut stopped = false;
        while p < self.entries.len()
            invariant_except_break
                !stopped,
            invariant
                self.wf(arity),
                key@.len() == arity,
                kv == key_view(key@),
                p <= self.keys().len(),
                forall|i: int| 0 <= i < p ==> label_lt(#[trigger] self.keys()[i], kv),
            ensures
                p <= self.keys().len(),
                forall|i: int| 0 <= i < p ==> label_lt(#[trigger] self.keys()[i], kv),
                !stopped ==> p == self.keys().len(),
                stopped ==> p < self.keys().len() && !label_lt(self.keys()[p as int], kv),
            decreases self.keys().len() - p,
        {
            assert(self.keys()[p as int] == key_view(self.entries@[p as int].0@));
            assert(self.keys()[p as int].len() == arity);
            if !labels_lt(&self.entries[p].0, key) {
                stopped = true;
                break;
            }
            p = p + 1;
        }
        if p < self.entries.len() {
            assert(self.keys()[p as int] == key_view(self.entries@[p as int].0@));
            assert(self.keys()[p as int].len() == arity);
            proof {
                lemma_key_lt_total(key_bytes(kv), key_bytes(self.keys()[p as int]));
            }
            if labels_lt(key, &self.entries[p].0) {
                proof {
                    self.lemma_absent_between(arity, p as int, kv);
                }
                return (p, false);
            }
            proof {
                lemma_key_bytes_injective(kv, self.keys()[p as int]);
            }
            return (p, true);
        }
        proof {
            self.lemma_absent_between(arity, p as int, kv);
        }
        (p, false)
    }

    proof fn lemma_absent_between(&self, arity: nat, p: int, kv: Seq<Seq<char>>)
        requires
            self.wf(arity),
            0 <= p <= self.keys().len(),
            kv.len() == arity,
            forall|i: int| 0 <= i < p ==> label_lt(#[trigger] self.keys()[i], kv),
            p < self.keys().len() ==> label_lt(kv, self.keys()[p]),
        ensures
            !self.has(kv),
    {
        if self.has(kv) {
            let j = choose|j: int| 0 <= j < self.keys().len() && self.keys()[j] == kv;
            lemma_key_lt_irreflexive(key_bytes(kv));
            if j > p {
                assert(label_lt(self.keys()[p], self.keys()[j]));
                lemma_key_lt_transitive(key_bytes(kv), key_bytes(self.keys()[p]), key_bytes(kv));
            }
        }
    }

    /// The current value for `key`, if the series exists.
    pub fn get(&self, key: &Vec<String>, Ghost(arity): Ghost<nat>) -> (r: Option<V>)
        requires
            self.wf(arity),
            key@.len() == arity,
        ensures
            r matches Some(v) ==> self.view().contains_key(key_view(key@)) && self.view()[key_view(key@)] == v,
            r is None ==> !self.view().contains_key(key_view(key@)),
    {
        let (p, found) = self.locate(key, Ghost(arity));
        if found {
            proof {
                self.lemma_value_at(arity, p as int);
            }
            Some(self.entries[p].1)
        } else {
            None
        }
    }

    /// Sets the value of the series `key`, creating it if absent.
    pub fn set(&mut self, key: Vec<String>, v: V, Ghost(arity): Ghost<nat>)
        requires
            old(self).wf(arity),
            key@.len() == arity,
        ensures
            final(self).wf(arity),
            final(self).view() =~= old(self).view().insert(key_view(key@), v),
    {
        let ghost kv = key_view(key@);
        let ghost old_map = self.view();
        let ghost old_keys = self.keys();
        let (p, found) = self.locate(&key, Ghost(arity));
        if found {
            let _ = self.entries.remove(p);
            self.entries.insert(p, (key, v));
            proof {
                assert(self.keys() =~= old_keys);
                self.lemma_value_at(arity, p as int);
                assert forall|k: Seq<Seq<char>>| #[trigger] self.view().contains_key(k)
                    == old_map.insert(kv, v).contains_key(k) by {
                    if old(self).has(k) {
                        let i = choose|i: int| 0 <= i < old_keys.len() && old_keys[i] == k;
                        assert(self.keys()[i] == k);
                    }
                    if self.has(k) {
                        let i = choose|i: int| 0 <= i < self.keys().len() && self.keys()[i] == k;
                        assert(old_keys[i] == k);
                    }
                }
                assert forall|k: Seq<Seq<char>>| #[trigger] self.view().contains_key(k)
                    implies self.view()[k] == old_map.insert(kv, v)[k] by {
                    let i = choose|i: int| 0 <= i < self.keys().len() && self.keys()[i] == k;
                    self.lemma_value_at(arity, i);
                    old(self).lemma_value_at(arity, i);
                }
            }
        } else {
            self.entries.insert(p, (key, v));
            proof {
                assert(self.keys() =~= old_keys.insert(p as int, kv));
                assert forall|i: int| 0 <= i < self.keys().len() implies (#[trigger] self.keys()[i]).len() == arity by {
                    if i > p {
                        assert(self.keys()[i] == old_keys[i - 1]);
                    } else if i < p {
                        assert(self.keys()[i] == old_keys[i]);
                    }
                }
                assert forall|i: int, j: int| 0 <= i < j < self.keys().len() implies label_lt(
                    #[trigger] self.keys()[i],
                    #[trigger] self.keys()[j],
                ) by {
                    let ki = self.keys()[i];
                    let kj = self.keys()[j];
                    if j < p {
                        assert(ki == old_keys[i] && kj == old_keys[j]);
                    } else if j == p {
                        assert(ki == old_keys[i]);
                    } else if i < p {
                        assert(ki == old_keys[i] && kj == old_keys[j - 1]);
                        assert(label_lt(kv, old_keys[p as int]));
                        if j - 1 > p {
                            assert(label_lt(old_keys[p as int], old_keys[j - 1]));
                            lemma_key_lt_transitive(key_bytes(kv), key_bytes(old_keys[p as int]), key_bytes(kj));
                        }
                        lemma_key_lt_transitive(key_bytes(ki), key_bytes(kv), key_bytes(kj));
                    } else if i == p {
                        assert(kj == old_keys[j - 1]);
                        if j - 1 > p {
                            assert(label_lt(old_keys[p as int], old_keys[j - 1]));
                            lemma_key_lt_transitive(key_bytes(kv), key_bytes(old_keys[p as int]), key_bytes(kj));
                        }
                    } else {
                        assert(ki == old_keys[i - 1] && kj == old_keys[j - 1]);
                    }
                }
                assert forall|k: Seq<Seq<char>>| #[trigger] self.view().contains_key(k)
                    == old_map.insert(kv, v).contains_key(k) by {
                    if old(self).has(k) {
                        let i = choose|i: int| 0 <= i < old_keys.len() && old_keys[i] == k;
                        if i < p {
                            assert(self.keys()[i] == k);
                        } else {
                            assert(self.keys()[i + 1] == k);
                        }
                    }
                    if k == kv {
                        assert(self.keys()[p as int] == kv);
                    }
                    if self.has(k) {
                        let i = choose|i: int| 0 <= i < self.keys().len() && self.keys()[i] == k;
                        if i < p {
                            assert(old_keys[i] == k);
                        } else if i > p {
                            assert(old_keys[i - 1] == k);
                        }
                    }
                }
                assert forall|k: Seq<Seq<char>>| #[trigger] self.view().contains_key(k)
                    implies self.view()[k] == old_map.insert(kv, v)[k] by {
                    let i = choose|i: int| 0 <= i < self.keys().len() && self.keys()[i] == k;
                    self.lemma_value_at(arity, i);
                    if i < p {
                        old(self).lemma_value_at(arity, i);
                    } else if i > p {
                        old(self).lemma_value_at(arity, i - 1);
                        assert(self.entries@[i] == old(self).entries@[i - 1]);
                    }
                }
            }
        }
    }
}

impl<V: Copy> LabelMap<V> {
    /// The stored series list the family's view in label order.
    pub proof fn lemma_series_lists_view(&self, arity: nat)
        requires
            self.wf(arity),
        ensures
            lists_in_label_order(self.series(), self.view()),
            self.series() == in_label_order(self.view()),
            lists_in_label_order(in_label_order(self.view()), self.view()),
    {
        self.lemma_series_is_sorted_view(arity);
        let ks = self.keys();
        assert forall|i: int, j: int| 0 <= i < ks.len() && 0 <= j < ks.len() && i != j implies ks[i] != ks[j] by {
            lemma_key_lt_irreflexive(key_bytes(ks[i]));
            if i < j {
                assert(label_lt(ks[i], ks[j]));
            } else {
                assert(label_lt(ks[j], ks[i]));
            }
        }
        assert(ks.no_duplicates());
        ks.unique_seq_to_set();
        assert(ks.to_set() =~= self.view().dom()) by {
            assert forall|k: Seq<Seq<char>>| ks.to_set().contains(k) == self.view().dom().contains(k) by {
                if ks.contains(k) {
                    let i = choose|i: int| 0 <= i < ks.len() && ks[i] == k;
                    assert(self.has(k));
                }
                if self.has(k) {
                    let i = choose|i: int| 0 <= i < ks.len() && ks[i] == k;
                    assert(ks.contains(k));
                }
            }
        }
        vstd::seq_lib::seq_to_set_is_finite(ks);
        assert(self.series().len() == ks.len());
        assert(lists_in_label_order(self.series(), self.view()));
        lemma_label_order_listing_unique(self.series(), in_label_order(self.view()), self.view());
    }
}

impl<V: Copy> LabelMap<V> {
    /// The stored series are exactly the family's entries, each key
    /// once, in strictly increasing label order.
    pub proof fn lemma_series_is_sorted_view(&self, arity: nat)
        requires
            self.wf(arity),
        ensures
            forall|i: int, j: int|
                0 <= i < j < self.series().len() ==> label_lt(#[trigger] self.series()[i].0, #[trigger] self.series()[j].0),
            forall|i: int|
                0 <= i < self.series().len() ==> self.view().contains_key(#[trigger] self.series()[i].0)
                    && self.view()[self.series()[i].0] == self.series()[i].1,
            forall|k: Seq<Seq<char>>|
                #[trigger] self.view().contains_key(k) ==> exists|i: int| 0 <= i < self.series().len() && self.series()[i].0 == k,
    {
        assert forall|i: int, j: int| 0 <= i < j < self.series().len() implies label_lt(
            #[trigger] self.series()[i].0,
            #[trigger] self.series()[j].0,
        ) by {
            assert(self.series()[i].0 == self.keys()[i]);
            assert(self.series()[j].0 == self.keys()[j]);
        }
        assert forall|i: int| 0 <= i < self.series().len() implies self.view().contains_key(
            #[trigger] self.series()[i].0,
        ) && self.view()[self.series()[i].0] == self.series()[i].1 by {
            assert(self.series()[i].0 == self.keys()[i]);
            self.lemma_value_at(arity, i);
        }
        assert forall|k: Seq<Seq<char>>| #[trigger] self.view().contains_key(k) implies exists|i: int|
            0 <= i < self.series().len() && self.series()[i].0 == k by {
            let i = self.position(k);
            assert(self.series()[i].0 == self.keys()[i]);
        }
    }
}

} // verus!
