//! Request parameters: a mapping from field name to value, kept in ascending
//! key order so that its serialization is deterministic and independent of
//! insertion order. Keys are ordered by the bytes of their UTF-8 encoding,
//! and serialization percent-encodes each key and value and joins the pairs
//! with `&`.

use vstd::prelude::*;
use vstd::string::StringExecFns;
use vstd::string::StringSliceAdditionalSpecFns;
use vstd::utf8::encode_utf8;
use vstd::utf8::encode_utf8_decode_utf8;

use crate::encoding::enc_str;
use crate::encoding::encode_component;

verus! {

/// Strict lexicographic order on byte strings.
pub open spec fn bytes_lt(a: Seq<u8>, b: Seq<u8>) -> bool
    decreases a.len(),
{
    if b.len() == 0 {
        false
    } else if a.len() == 0 {
        true
    } else if a[0] < b[0] {
        true
    } else if a[0] > b[0] {
        false
    } else {
        bytes_lt(a.drop_first(), b.drop_first())
    }
}

/// The key order of the parameter map: strings compared by the bytes of
/// their UTF-8 encodings.
pub open spec fn key_lt(a: Seq<char>, b: Seq<char>) -> bool {
    bytes_lt(encode_utf8(a), encode_utf8(b))
}

pub proof fn lemma_bytes_lt_irreflexive(a: Seq<u8>)
    ensures
        !bytes_lt(a, a),
    decreases a.len(),
{
    if a.len() > 0 {
        lemma_bytes_lt_irreflexive(a.drop_first());
    }
}

pub proof fn lemma_bytes_lt_trichotomy(a: Seq<u8>, b: Seq<u8>)
    ensures
        bytes_lt(a, b) || bytes_lt(b, a) || a == b,
    decreases a.len(),
{
    if a.len() > 0 && b.len() > 0 && a[0] == b[0] {
        lemma_bytes_lt_trichotomy(a.drop_first(), b.drop_first());
        if a.drop_first() == b.drop_first() {
            assert forall|i: int| 0 <= i < a.len() implies a[i] == b[i] by {
                if i > 0 {
                    assert(a[i] == a.drop_first()[i - 1] && b[i] == b.drop_first()[i - 1]);
                }
            }
            assert(a =~= b);
        }
    }
}

pub proof fn lemma_bytes_lt_asymmetric(a: Seq<u8>, b: Seq<u8>)
    ensures
        !(bytes_lt(a, b) && bytes_lt(b, a)),
    decreases a.len(),
{
    if a.len() > 0 && b.len() > 0 && a[0] == b[0] {
        lemma_bytes_lt_asymmetric(a.drop_first(), b.drop_first());
    }
}

pub proof fn lemma_bytes_lt_transitive(a: Seq<u8>, b: Seq<u8>, c: Seq<u8>)
    requires
        bytes_lt(a, b),
        bytes_lt(b, c),
    ensures
        bytes_lt(a, c),
    decreases a.len(),
{
    if a.len() > 0 && b.len() > 0 && c.len() > 0 && a[0] == b[0] && b[0] == c[0] {
        lemma_bytes_lt_transitive(a.drop_first(), b.drop_first(), c.drop_first());
    }
}

/// Two strings whose keys compare neither way are the same string: UTF-8
/// encoding is injective.
pub proof fn lemma_key_lt_connected(a: Seq<char>, b: Seq<char>)
    ensures
        key_lt(a, b) || key_lt(b, a) || a == b,
{
    lemma_bytes_lt_trichotomy(encode_utf8(a), encode_utf8(b));
    if encode_utf8(a) == encode_utf8(b) {
        encode_utf8_decode_utf8(a);
        encode_utf8_decode_utf8(b);
    }
}

/// A sorted key/value entry list: strictly ascending keys, position by
/// position.
pub open spec fn entries_sorted(s: Seq<(Seq<char>, Seq<char>)>) -> bool {
    forall|i: int, j: int| 0 <= i < j < s.len() ==> key_lt(#[trigger] s[i].0, #[trigger] s[j].0)
}

/// The mapping that an entry list stands for.
pub open spec fn map_of(s: Seq<(Seq<char>, Seq<char>)>) -> Map<Seq<char>, Seq<char>>
    decreases s.len(),
{
    if s.len() == 0 {
        Map::empty()
    } else {
        map_of(s.drop_first()).insert(s[0].0, s[0].1)
    }
}

/// A key is in the mapping of an entry list exactly when some entry holds it.
pub proof fn lemma_map_of_dom(s: Seq<(Seq<char>, Seq<char>)>, k: Seq<char>)
    ensures
        map_of(s).dom().contains(k) <==> exists|i: int| 0 <= i < s.len() && (#[trigger] s[i]).0
            == k,
    decreases s.len(),
{
    if s.len() > 0 {
        lemma_map_of_dom(s.drop_first(), k);
        if map_of(s).dom().contains(k) && s[0].0 != k {
            let i = choose|i: int| 0 <= i < s.drop_first().len() && (#[trigger] s.drop_first()[i]).0
                == k;
            assert(s[i + 1].0 == k);
        }
        if exists|i: int| 0 <= i < s.len() && (#[trigger] s[i]).0 == k {
            let i = choose|i: int| 0 <= i < s.len() && (#[trigger] s[i]).0 == k;
            if i > 0 {
                assert(s.drop_first()[i - 1].0 == k);
            }
        }
    }
}

/// In a sorted entry list the mapping returns each entry's own value.
pub proof fn lemma_map_of_index(s: Seq<(Seq<char>, Seq<char>)>, i: int)
    requires
        entries_sorted(s),
        0 <= i < s.len(),
    ensures
        map_of(s).dom().contains(s[i].0),
        map_of(s)[s[i].0] == s[i].1,
    decreases s.len(),
{
    if i == 0 {
        lemma_map_of_dom(s, s[0].0);
    } else {
        assert(entries_sorted(s.drop_first())) by {
            assert forall|x: int, y: int|
                0 <= x < y < s.drop_first().len() implies key_lt(
                #[trigger] s.drop_first()[x].0,
                #[trigger] s.drop_first()[y].0,
            ) by {
                assert(s.drop_first()[x] == s[x + 1] && s.drop_first()[y] == s[y + 1]);
            }
        }
        lemma_map_of_index(s.drop_first(), i - 1);
        assert(s.drop_first()[i - 1] == s[i]);
        assert(key_lt(s[0].0, s[i].0));
        lemma_bytes_lt_irreflexive(encode_utf8(s[0].0));
        assert(s[i].0 != s[0].0);
    }
}

/// Dropping the first entry of a sorted list removes exactly its key from
/// the mapping.
pub proof fn lemma_map_of_drop_first(s: Seq<(Seq<char>, Seq<char>)>)
    requires
        entries_sorted(s),
        s.len() > 0,
    ensures
        map_of(s.drop_first()) == map_of(s).remove(s[0].0),
{
    lemma_map_of_dom(s.drop_first(), s[0].0);
    if map_of(s.drop_first()).dom().contains(s[0].0) {
        let i = choose|i: int| 0 <= i < s.drop_first().len() && (#[trigger] s.drop_first()[i]).0
            == s[0].0;
        assert(key_lt(s[0].0, s[i + 1].0));
        lemma_bytes_lt_irreflexive(encode_utf8(s[0].0));
    }
    assert(map_of(s.drop_first()) =~= map_of(s).remove(s[0].0));
}

/// A sorted entry list is determined by the mapping it stands for: two
/// sorted lists with the same mapping are the same list. This is why the
/// serialized form never depends on the order in which fields were set.
pub proof fn lemma_sorted_entries_unique(p: Seq<(Seq<char>, Seq<char>)>, q: Seq<(Seq<char>, Seq<char>)>)
    requires
        entries_sorted(p),
        entries_sorted(q),
        map_of(p) == map_of(q),
    ensures
        p == q,
    decreases p.len(),
{
    if p.len() == 0 {
        if q.len() > 0 {
            lemma_map_of_index(q, 0);
            lemma_map_of_dom(p, q[0].0);
        }
        assert(p =~= q);
    } else if q.len() == 0 {
        lemma_map_of_index(p, 0);
        lemma_map_of_dom(q, p[0].0);
    } else {
        lemma_map_of_index(p, 0);
        lemma_map_of_index(q, 0);
        lemma_map_of_dom(q, p[0].0);
        let j = choose|j: int| 0 <= j < q.len() && (#[trigger] q[j]).0 == p[0].0;
        lemma_map_of_dom(p, q[0].0);
        let i = choose|i: int| 0 <= i < p.len() && (#[trigger] p[i]).0 == q[0].0;
        if j > 0 {
            assert(key_lt(q[0].0, p[0].0));
            if i > 0 {
                assert(key_lt(p[0].0, q[0].0));
                lemma_bytes_lt_asymmetric(encode_utf8(p[0].0), encode_utf8(q[0].0));
            } else {
                lemma_bytes_lt_irreflexive(encode_utf8(p[0].0));
            }
        }
        assert(p[0].0 == q[0].0);
        assert(p[0].1 == q[0].1) by {
            assert(map_of(p)[p[0].0] == p[0].1 && map_of(q)[q[0].0] == q[0].1);
        }
        lemma_map_of_drop_first(p);
        lemma_map_of_drop_first(q);
        assert(entries_sorted(p.drop_first()) && entries_sorted(q.drop_first())) by {
            assert(forall|x: int|
                0 <= x < p.drop_first().len() ==> #[trigger] p.drop_first()[x] == p[x + 1]);
            assert(forall|x: int|
                0 <= x < q.drop_first().len() ==> #[trigger] q.drop_first()[x] == q[x + 1]);
        }
        lemma_sorted_entries_unique(p.drop_first(), q.drop_first());
        assert forall|x: int| 0 <= x < p.len() implies p[x] == q[x] by {
            if x > 0 {
                assert(p[x] == p.drop_first()[x - 1] && q[x] == q.drop_first()[x - 1]);
            } else {
                assert(p[0].0 == q[0].0 && p[0].1 == q[0].1);
            }
        }
        assert(p =~= q);
    }
}

/// The serialized form of one entry: `key=value`, both percent-encoded.
pub open spec fn pair_str(e: (Seq<char>, Seq<char>)) -> Seq<char> {
    enc_str(e.0) + seq!['='] + enc_str(e.1)
}

/// The serialized form of an entry list: the pairs joined with `&`, no
/// trailing separator; the empty list serializes to the empty string.
pub open spec fn serialize_entries(s: Seq<(Seq<char>, Seq<char>)>) -> Seq<char>
    decreases s.len(),
{
    if s.len() == 0 {
        Seq::empty()
    } else if s.len() == 1 {
        pair_str(s[0])
    } else {
        pair_str(s[0]) + seq!['&'] + serialize_entries(s.drop_first())
    }
}

/// A request's parameters, held in ascending key order with unique keys.
pub struct Parameters {
    entries: Vec<(String, String)>,
}

impl Parameters {
    /// The entries as a sequence of key/value pairs, in stored order.
    pub closed spec fn entries(&self) -> Seq<(Seq<char>, Seq<char>)> {
        self.entries@.map(|_i: int, e: (String, String)| (e.0@, e.1@))
    }

    /// The mapping the parameters stand for.
    pub open spec fn as_map(&self) -> Map<Seq<char>, Seq<char>> {
        map_of(self.entries())
    }

    /// Well-formed parameters hold their entries in strictly ascending key
    /// order.
    pub open spec fn wf(&self) -> bool {
        entries_sorted(self.entries())
    }

    /// An empty parameter set.
    pub fn new() -> (r: Parameters)
        ensures
            r.wf(),
            r.as_map() == Map::<Seq<char>, Seq<char>>::empty(),
            r.entries() == Seq::<(Seq<char>, Seq<char>)>::empty(),
    {
        let r = Parameters { entries: Vec::new() };
        proof {
            assert(r.entries() =~= Seq::<(Seq<char>, Seq<char>)>::empty());
        }
        r
    }

    /// Sets a field: the mapping gains the pair, replacing any earlier value
    /// under the same key; every other key keeps its value.
    pub fn set(&mut self, k: &str, v: &str)
        requires
            old(self).wf(),
        ensures
            final(self).wf(),
            final(self).as_map() == old(self).as_map().insert(k@, v@),
    {
        let ghost old_entries = self.entries();
        let i = self.lower_bound(k);
        let replace = i < self.entries.len() && !str_bytes_lt(k, self.entries[i].0.as_str());
        if replace {
            proof {
                lemma_key_lt_connected(old_entries[i as int].0, k@);
                assert(old_entries[i as int].0 == k@);
            }
            self.entries.remove(i);
            proof {
                assert(self.entries() =~= old_entries.remove(i as int));
            }
            let ghost removed = self.entries();
            self.entries.insert(i, (k.to_owned(), v.to_owned()));
            proof {
                assert(self.entries() =~= removed.insert(i as int, (k@, v@)));
                assert(self.entries() =~= old_entries.update(i as int, (k@, v@)));
                lemma_set_replace(old_entries, i as int, k@, v@);
            }
        } else {
            self.entries.insert(i, (k.to_owned(), v.to_owned()));
            proof {
                assert(self.entries() =~= old_entries.insert(i as int, (k@, v@)));
                lemma_set_insert(old_entries, i as int, k@, v@);
            }
        }
    }

    /// The position of the first entry whose key is not below the given one;
    /// the length when every key is below it.
    fn lower_bound(&self, k: &str) -> (i: usize)
        requires
            self.wf(),
        ensures
            i <= self.entries@.len(),
            forall|x: int| 0 <= x < i ==> key_lt((#[trigger] self.entries()[x]).0, k@),
            i < self.entries@.len() ==> !key_lt(self.entries()[i as int].0, k@),
    {
        let mut i: usize = 0;
        while i < self.entries.len()
            invariant
                i <= self.entries@.len(),
                forall|x: int| 0 <= x < i ==> key_lt((#[trigger] self.entries()[x]).0, k@),
            decreases self.entries@.len() - i,
        {
            if !str_bytes_lt(self.entries[i].0.as_str(), k) {
                return i;
            }
            i = i + 1;
        }
        i
    }

    /// Sets a field when a value is given; an absent value leaves the
    /// parameters unchanged (the field is omitted, never sent empty).
    pub fn set_opt(&mut self, k: &str, v: Option<String>)
        requires
            old(self).wf(),
        ensures
            final(self).wf(),
            match v {
                Some(s) => final(self).as_map() == old(self).as_map().insert(k@, s@),
                None => *final(self) == *old(self),
            },
    {
        if let Some(s) = v {
            self.set(k, s.as_str());
        }
    }

    /// The canonical form string: the entries in ascending key order, each
    /// `key=value` percent-encoded, joined with `&`.
    pub fn serialize(&self) -> (r: String)
        ensures
            r@ == serialize_entries(self.entries()),
    {
        let mut out = String::new();
        let mut i: usize = 0;
        while i < self.entries.len()
            invariant
                i <= self.entries@.len(),
                out@ == serialize_entries(self.entries().take(i as int)),
            decreases self.entries@.len() - i,
        {
            let ghost prefix = self.entries().take(i as int);
            if i > 0 {
                out.append("&");
            }
            let ek = encode_component(self.entries[i].0.as_str());
            out.append(ek.as_str());
            out.append("=");
            let ev = encode_component(self.entries[i].1.as_str());
            out.append(ev.as_str());
            proof {
                reveal_strlit("&");
                reveal_strlit("=");
                assert("&"@ =~= seq!['&']);
                assert("="@ =~= seq!['=']);
                lemma_serialize_snoc(prefix, self.entries()[i as int]);
                assert(prefix.push(self.entries()[i as int]) =~= self.entries().take(i + 1));
                if i > 0 {
                    assert(out@ =~= serialize_entries(self.entries().take(i + 1)));
                } else {
                    assert(prefix.len() == 0);
                    assert(out@ =~= serialize_entries(self.entries().take(i + 1)));
                }
            }
            i = i + 1;
        }
        proof {
            assert(self.entries().take(i as int) =~= self.entries());
        }
        out
    }
}

/// Serializing one more entry appends `&` (when anything came before) and
/// the new `key=value` pair.
proof fn lemma_serialize_snoc(s: Seq<(Seq<char>, Seq<char>)>, e: (Seq<char>, Seq<char>))
    ensures
        s.len() == 0 ==> serialize_entries(s.push(e)) == pair_str(e),
        s.len() > 0 ==> serialize_entries(s.push(e)) == serialize_entries(s) + seq!['&']
            + pair_str(e),
    decreases s.len(),
{
    if s.len() == 0 {
        assert(s.push(e)[0] == e);
        assert(serialize_entries(s.push(e)) == pair_str(e));
    } else {
        lemma_serialize_snoc(s.drop_first(), e);
        assert(s.push(e).drop_first() =~= s.drop_first().push(e));
        assert(s.push(e)[0] == s[0]);
        if s.len() == 1 {
            assert(serialize_entries(s.push(e)) == pair_str(s[0]) + seq!['&'] + serialize_entries(
                s.drop_first().push(e),
            ));
            assert(serialize_entries(s) == pair_str(s[0]));
            assert(serialize_entries(s.drop_first().push(e)) == pair_str(e));
        } else {
            assert(serialize_entries(s) + seq!['&'] + pair_str(e) =~= pair_str(s[0]) + seq!['&']
                + (serialize_entries(s.drop_first()) + seq!['&'] + pair_str(e)));
        }
    }
}

/// Replacing the value at a position of a sorted entry list keeps it sorted
/// and updates the mapping at that key alone.
proof fn lemma_set_replace(s: Seq<(Seq<char>, Seq<char>)>, i: int, k: Seq<char>, v: Seq<char>)
    requires
        entries_sorted(s),
        0 <= i < s.len(),
        s[i].0 == k,
    ensures
        entries_sorted(s.update(i, (k, v))),
        map_of(s.update(i, (k, v))) == map_of(s).insert(k, v),
    decreases s.len(),
{
    let t = s.update(i, (k, v));
    assert forall|x: int, y: int| 0 <= x < y < t.len() implies key_lt(
        (#[trigger] t[x]).0,
        (#[trigger] t[y]).0,
    ) by {
        assert(t[x].0 == s[x].0 && t[y].0 == s[y].0);
    }
    assert forall|q: Seq<char>|
        #[trigger] map_of(t).dom().contains(q) == map_of(s).insert(k, v).dom().contains(q) by {
        lemma_map_of_dom(s, q);
        lemma_map_of_dom(t, q);
        if map_of(s).dom().contains(q) {
            let x = choose|x: int| 0 <= x < s.len() && (#[trigger] s[x]).0 == q;
            assert(t[x].0 == q);
        }
        if map_of(t).dom().contains(q) {
            let x = choose|x: int| 0 <= x < t.len() && (#[trigger] t[x]).0 == q;
            assert(s[x].0 == q || q == k);
        }
        if q == k {
            assert(t[i].0 == q);
        }
    }
    assert(map_of(t).dom() =~= map_of(s).insert(k, v).dom());
    assert forall|q: Seq<char>| map_of(t).dom().contains(q) implies #[trigger] map_of(t)[q]
        == map_of(s).insert(k, v)[q] by {
        lemma_map_of_dom(t, q);
        let x = choose|x: int| 0 <= x < t.len() && (#[trigger] t[x]).0 == q;
        lemma_map_of_index(t, x);
        if q == k {
            lemma_map_of_index(t, i);
            if x != i {
                assert(s[x].0 == k && s[i].0 == k);
                assert(key_lt(k, k));
                lemma_bytes_lt_irreflexive(encode_utf8(k));
            }
        } else {
            assert(x != i);
            assert(t[x] == s[x]);
            lemma_map_of_index(s, x);
        }
    }
    assert(map_of(t) =~= map_of(s).insert(k, v));
}

/// Inserting a fresh key at its ordered position keeps the list sorted and
/// adds exactly that pair to the mapping.
proof fn lemma_set_insert(s: Seq<(Seq<char>, Seq<char>)>, i: int, k: Seq<char>, v: Seq<char>)
    requires
        entries_sorted(s),
        0 <= i <= s.len(),
        forall|x: int| 0 <= x < i ==> key_lt((#[trigger] s[x]).0, k),
        i < s.len() ==> key_lt(k, s[i].0),
    ensures
        entries_sorted(s.insert(i, (k, v))),
        map_of(s.insert(i, (k, v))) == map_of(s).insert(k, v),
{
    let t = s.insert(i, (k, v));
    assert forall|x: int, y: int| 0 <= x < y < t.len() implies key_lt(
        (#[trigger] t[x]).0,
        (#[trigger] t[y]).0,
    ) by {
        if x < i && y > i {
            assert(t[x] == s[x] && t[y] == s[y - 1]);
            if y - 1 > i - 1 && y - 1 >= i {
                if x < y - 1 {
                    assert(key_lt(s[x].0, s[y - 1].0));
                } else {
                    assert(x == y - 1 && x == i - 1);
                    assert(key_lt(s[x].0, k));
                    assert(key_lt(k, s[i].0));
                    lemma_bytes_lt_transitive(
                        encode_utf8(s[x].0),
                        encode_utf8(k),
                        encode_utf8(s[i].0),
                    );
                }
            }
        } else if x < i && y == i {
            assert(t[x] == s[x] && t[y].0 == k);
        } else if x == i && y > i {
            assert(t[x].0 == k && t[y] == s[y - 1]);
            if y - 1 > i {
                lemma_bytes_lt_transitive(
                    encode_utf8(k),
                    encode_utf8(s[i].0),
                    encode_utf8(s[y - 1].0),
                );
            }
        } else if x > i && y > i {
            assert(t[x] == s[x - 1] && t[y] == s[y - 1]);
        } else {
            assert(t[x] == s[x] && t[y] == s[y]);
        }
    }
    assert forall|q: Seq<char>|
        #[trigger] map_of(t).dom().contains(q) == map_of(s).insert(k, v).dom().contains(q) by {
        lemma_map_of_dom(s, q);
        lemma_map_of_dom(t, q);
        if q == k {
            assert(t[i].0 == k);
        }
        if map_of(s).dom().contains(q) {
            let x = choose|x: int| 0 <= x < s.len() && (#[trigger] s[x]).0 == q;
            if x < i {
                assert(t[x].0 == q);
            } else {
                assert(t[x + 1].0 == q);
            }
        }
        if map_of(t).dom().contains(q) && q != k {
            let x = choose|x: int| 0 <= x < t.len() && (#[trigger] t[x]).0 == q;
            assert(x != i);
            if x < i {
                assert(s[x].0 == q);
            } else {
                assert(s[x - 1].0 == q);
            }
        }
    }
    assert(map_of(t).dom() =~= map_of(s).insert(k, v).dom());
    assert forall|q: Seq<char>| map_of(t).dom().contains(q) implies #[trigger] map_of(t)[q]
        == map_of(s).insert(k, v)[q] by {
        lemma_map_of_dom(t, q);
        let x = choose|x: int| 0 <= x < t.len() && (#[trigger] t[x]).0 == q;
        lemma_map_of_index(t, x);
        if q == k {
            lemma_map_of_index(t, i);
        } else {
            assert(x != i);
            if x < i {
                assert(t[x] == s[x]);
                lemma_map_of_index(s, x);
            } else {
                assert(t[x] == s[x - 1]);
                lemma_map_of_index(s, x - 1);
            }
        }
    }
    assert(map_of(t) =~= map_of(s).insert(k, v));
}

/// Compares two strings by the bytes of their UTF-8 encodings.
fn str_bytes_lt(a: &str, b: &str) -> (r: bool)
    ensures
        r == bytes_lt(encode_utf8(a@), encode_utf8(b@)),
{
    let ab = a.as_bytes();
    let bb = b.as_bytes();
    slice_bytes_lt(ab, bb)
}

/// Strict lexicographic comparison of byte slices.
fn slice_bytes_lt(a: &[u8], b: &[u8]) -> (r: bool)
    ensures
        r == bytes_lt(a@, b@),
{
    let mut i: usize = 0;
    proof {
        assert(a@.skip(0) =~= a@ && b@.skip(0) =~= b@);
    }
    loop
        invariant
            i <= a@.len(),
            i <= b@.len(),
            bytes_lt(a@, b@) == bytes_lt(a@.skip(i as int), b@.skip(i as int)),
        decreases a@.len() - i,
    {
        if i >= b.len() {
            proof {
                assert(b@.skip(i as int).len() == 0);
            }
            return false;
        }
        if i >= a.len() {
            proof {
                assert(a@.skip(i as int).len() == 0 && b@.skip(i as int).len() > 0);
            }
            return true;
        }
        proof {
            assert(a@.skip(i as int)[0] == a@[i as int] && b@.skip(i as int)[0] == b@[i as int]);
        }
        if a[i] < b[i] {
            return true;
        }
        if a[i] > b[i] {
            return false;
        }
        proof {
            assert(a@.skip(i as int).drop_first() =~= a@.skip(i + 1));
            assert(b@.skip(i as int).drop_first() =~= b@.skip(i + 1));
        }
        i = i + 1;
    }
}

/// Serialization never depends on the order in which fields were set: two
/// well-formed parameter sets that stand for the same mapping serialize to
/// the same string, and serializing twice gives the same string.
pub proof fn lemma_serialize_insertion_order(p: &Parameters, q: &Parameters)
    requires
        p.wf(),
        q.wf(),
        p.as_map() == q.as_map(),
    ensures
        serialize_entries(p.entries()) == serialize_entries(q.entries()),
{
    lemma_sorted_entries_unique(p.entries(), q.entries());
}

} // verus!
