//! The payload's string-to-string mappings (sections, headers,
//! substitutions, dynamic template data, custom args). Keys are unique; an
//! insert under a key already present replaces that key's value in place,
//! and a new key goes at the end. Entry order is therefore the order of
//! first insertion, which fixes the rendered key order; the wire format
//! attaches no meaning to that order.

use vstd::prelude::*;
use crate::json::{jstr, jobj, joined, lemma_joined_push, push_char, write_jstr};

verus! {

/// A mapping of string keys to string values with unique keys.
pub struct KvPairs {
    entries: Vec<(String, String)>,
}

/// What inserting a pair means: an existing key keeps its place and takes
/// the new value; a new key goes at the end.
pub open spec fn kv_insert(
    s: Seq<(Seq<char>, Seq<char>)>,
    k: Seq<char>,
    v: Seq<char>,
) -> Seq<(Seq<char>, Seq<char>)>
    decreases s.len(),
{
    if s.len() == 0 {
        seq![(k, v)]
    } else if s[0].0 == k {
        seq![(k, v)] + s.drop_first()
    } else {
        seq![s[0]] + kv_insert(s.drop_first(), k, v)
    }
}

/// No two entries share a key.
pub open spec fn kv_unique(s: Seq<(Seq<char>, Seq<char>)>) -> bool {
    forall|i: int, j: int| 0 <= i < j < s.len() ==> s[i].0 != s[j].0
}

/// The `"key":value` fragments of a mapping, in entry order.
pub open spec fn kv_fields(s: Seq<(Seq<char>, Seq<char>)>) -> Seq<Seq<char>> {
    s.map_values(|e: (Seq<char>, Seq<char>)| jstr(e.0) + seq![':'] + jstr(e.1))
}

/// The rendered JSON object of a mapping.
pub open spec fn kv_json(s: Seq<(Seq<char>, Seq<char>)>) -> Seq<char> {
    jobj(kv_fields(s))
}

impl View for KvPairs {
    type V = Seq<(Seq<char>, Seq<char>)>;

    closed spec fn view(&self) -> Seq<(Seq<char>, Seq<char>)> {
        self.entries@.map_values(|e: (String, String)| (e.0@, e.1@))
    }
}

/// Inserting where the key stands at place `i` replaces that entry alone.
proof fn lemma_kv_insert_found(s: Seq<(Seq<char>, Seq<char>)>, k: Seq<char>, v: Seq<char>, i: int)
    requires
        0 <= i < s.len(),
        s[i].0 == k,
        forall|j: int| 0 <= j < i ==> s[j].0 != k,
    ensures
        kv_insert(s, k, v) == s.update(i, (k, v)),
    decreases i,
{
    if i == 0 {
        assert(kv_insert(s, k, v) =~= s.update(0, (k, v)));
    } else {
        lemma_kv_insert_found(s.drop_first(), k, v, i - 1);
        assert(kv_insert(s, k, v) =~= s.update(i, (k, v)));
    }
}

/// Inserting a key that is absent appends the pair at the end.
proof fn lemma_kv_insert_absent(s: Seq<(Seq<char>, Seq<char>)>, k: Seq<char>, v: Seq<char>)
    requires
        forall|j: int| 0 <= j < s.len() ==> s[j].0 != k,
    ensures
        kv_insert(s, k, v) == s.push((k, v)),
    decreases s.len(),
{
    if s.len() == 0 {
        assert(kv_insert(s, k, v) =~= s.push((k, v)));
    } else {
        lemma_kv_insert_absent(s.drop_first(), k, v);
        assert(kv_insert(s, k, v) =~= s.push((k, v)));
    }
}

/// An insert never breaks key uniqueness.
pub proof fn lemma_kv_insert_unique(s: Seq<(Seq<char>, Seq<char>)>, k: Seq<char>, v: Seq<char>)
    requires
        kv_unique(s),
    ensures
        kv_unique(kv_insert(s, k, v)),
{
    if exists|i: int| 0 <= i < s.len() && s[i].0 == k {
        let i = choose|i: int| 0 <= i < s.len() && s[i].0 == k && forall|j: int|
            0 <= j < i ==> s[j].0 != k;
        if s[i].0 == k && (forall|j: int| 0 <= j < i ==> s[j].0 != k) {
            lemma_kv_insert_found(s, k, v, i);
        } else {
            let w = choose|w: int| 0 <= w < s.len() && s[w].0 == k;
            lemma_least_key(s, k, w);
        }
    } else {
        lemma_kv_insert_absent(s, k, v);
    }
}

/// Where some entry holds the key, a first such entry exists.
proof fn lemma_least_key(s: Seq<(Seq<char>, Seq<char>)>, k: Seq<char>, w: int)
    requires
        0 <= w < s.len(),
        s[w].0 == k,
    ensures
        exists|i: int|
            0 <= i < s.len() && s[i].0 == k && (forall|j: int| 0 <= j < i ==> s[j].0 != k),
    decreases w,
{
    if forall|j: int| 0 <= j < w ==> s[j].0 != k {
        assert(0 <= w < s.len() && s[w].0 == k && (forall|j: int| 0 <= j < w ==> s[j].0 != k));
    } else {
        let w2 = choose|w2: int| 0 <= w2 < w && s[w2].0 == k;
        lemma_least_key(s, k, w2);
    }
}

impl KvPairs {
    /// An empty mapping.
    pub fn new() -> (r: Self)
        ensures
            r@ == Seq::<(Seq<char>, Seq<char>)>::empty(),
    {
        let r = KvPairs { entries: Vec::new() };
        proof {
            assert(r@ =~= Seq::<(Seq<char>, Seq<char>)>::empty());
        }
        r
    }

    /// How many keys the mapping holds.
    pub fn len(&self) -> (n: usize)
        ensures
            n == self@.len(),
    {
        self.entries.len()
    }

    /// Puts a value under a key: replaces in place where the key exists,
    /// appends where it is new. Keys stay unique.
    pub fn insert(&mut self, key: &str, value: &str)
        ensures
            final(self)@ == kv_insert(old(self)@, key@, value@),
            kv_unique(old(self)@) ==> kv_unique(final(self)@),
    {
        proof {
            if kv_unique(old(self)@) {
                lemma_kv_insert_unique(old(self)@, key@, value@);
            }
        }
        let ks = key.to_owned();
        let n = self.entries.len();
        let mut i: usize = 0;
        while i < n
            invariant
                self.entries@ == old(self).entries@,
                self@ == old(self)@,
                n == self.entries@.len(),
                ks@ == key@,
                i <= n,
                forall|j: int| 0 <= j < i ==> self@[j].0 != key@,
            decreases n - i,
        {
            let hit = self.entries[i].0 == ks;
            if hit {
                assert(self@[i as int].0 == key@);
                self.entries.remove(i);
                self.entries.insert(i, (ks, value.to_owned()));
                proof {
                    lemma_kv_insert_found(old(self)@, key@, value@, i as int);
                    assert(self.entries@ =~= old(self).entries@.update(
                        i as int,
                        (self.entries@[i as int].0, self.entries@[i as int].1),
                    ));
                    assert(self@ =~= old(self)@.update(i as int, (key@, value@)));
                }
                return;
            }
            i = i + 1;
        }
        self.entries.push((ks, value.to_owned()));
        proof {
            lemma_kv_insert_absent(old(self)@, key@, value@);
            assert(self@ =~= old(self)@.push((key@, value@)));
        }
    }
}

/// Appends the rendered JSON object of a mapping.
pub(crate) fn write_kv(out: &mut String, m: &KvPairs)
    ensures
        final(out)@ == old(out)@ + kv_json(m@),
{
    push_char(out, '{');
    let n = m.entries.len();
    let mut i: usize = 0;
    while i < n
        invariant
            n == m.entries@.len(),
            i <= n,
            out@ == old(out)@ + seq!['{'] + joined(kv_fields(m@).take(i as int)),
        decreases n - i,
    {
        if i > 0 {
            push_char(out, ',');
        }
        let e = &m.entries[i];
        write_jstr(out, e.0.as_str());
        push_char(out, ':');
        write_jstr(out, e.1.as_str());
        proof {
            assert(m@[i as int] == (e.0@, e.1@));
            assert(kv_fields(m@)[i as int] == jstr(e.0@) + seq![':'] + jstr(e.1@));
            lemma_joined_push(kv_fields(m@).take(i as int), kv_fields(m@)[i as int]);
            assert(kv_fields(m@).take(i as int).push(kv_fields(m@)[i as int]) =~= kv_fields(m@)
                .take(i as int + 1));
            assert(out@ =~= old(out)@ + seq!['{'] + joined(kv_fields(m@).take(i as int + 1)));
        }
        i = i + 1;
    }
    push_char(out, '}');
    proof {
        assert(kv_fields(m@).take(n as int) =~= kv_fields(m@));
        assert(out@ =~= old(out)@ + kv_json(m@));
    }
}

} // verus!
