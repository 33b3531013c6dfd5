//! Plugin storage: per-plugin key/value namespaces whose values are JSON
//! texts, the record of namespaces changed since the last flush, and the
//! key order `storage_keys` reports (ascending, as `str` orders).

use vstd::prelude::*;

verus! {

/// `a` sorts before `b` in `str` order (character by character, a proper
/// prefix first).
pub open spec fn str_lt(a: Seq<char>, b: Seq<char>) -> bool
    decreases a.len(),
{
    if a.len() == 0 {
        b.len() > 0
    } else if b.len() == 0 {
        false
    } else if a[0] != b[0] {
        (a[0] as int) < (b[0] as int)
    } else {
        str_lt(a.drop_first(), b.drop_first())
    }
}

/// Of two different strings one sorts before the other.
pub proof fn lemma_str_lt_total(a: Seq<char>, b: Seq<char>)
    requires
        a != b,
    ensures
        str_lt(a, b) || str_lt(b, a),
    decreases a.len(),
{
    if a.len() > 0 && b.len() > 0 && a[0] == b[0] {
        if a.drop_first() == b.drop_first() {
            assert(a =~= seq![a[0]] + a.drop_first());
            assert(b =~= seq![b[0]] + b.drop_first());
        }
        lemma_str_lt_total(a.drop_first(), b.drop_first());
    } else if a.len() > 0 && b.len() > 0 {
        assert((a[0] as int) != (b[0] as int));
    } else if a.len() == 0 && b.len() == 0 {
        assert(a =~= b);
    }
}

/// No string sorts before itself.
pub proof fn lemma_str_lt_irreflexive(a: Seq<char>)
    ensures
        !str_lt(a, a),
    decreases a.len(),
{
    if a.len() > 0 {
        lemma_str_lt_irreflexive(a.drop_first());
    }
}

/// Whether `a` sorts before `b`.
pub fn str_less(a: &str, b: &str) -> (r: bool)
    ensures
        r == str_lt(a@, b@),
{
    let n: usize = a.unicode_len();
    let m: usize = b.unicode_len();
    let mut i: usize = 0;
    assert(a@.subrange(0, n as int) =~= a@);
    assert(b@.subrange(0, m as int) =~= b@);
    while i < n && i < m
        invariant
            n == a@.len(),
            m == b@.len(),
            i <= n,
            i <= m,
            str_lt(a@, b@) == str_lt(a@.subrange(i as int, n as int), b@.subrange(i as int, m as int)),
        decreases n - i,
    {
        let x: char = a.get_char(i);
        let y: char = b.get_char(i);
        let ghost sa = a@.subrange(i as int, n as int);
        let ghost sb = b@.subrange(i as int, m as int);
        assert(sa[0] == x && sb[0] == y);
        if x != y {
            return (x as u32) < (y as u32);
        }
        assert(sa.drop_first() =~= a@.subrange(i + 1, n as int));
        assert(sb.drop_first() =~= b@.subrange(i + 1, m as int));
        i = i + 1;
    }
    i == n && i < m
}

/// Sorting before is transitive.
pub proof fn lemma_str_lt_transitive(a: Seq<char>, b: Seq<char>, c: Seq<char>)
    requires
        str_lt(a, b),
        str_lt(b, c),
    ensures
        str_lt(a, c),
    decreases a.len(),
{
    if a.len() > 0 && b.len() > 0 && c.len() > 0 && a[0] == b[0] && b[0] == c[0] {
        lemma_str_lt_transitive(a.drop_first(), b.drop_first(), c.drop_first());
    }
}

/// The keys of `s` ascend strictly.
pub open spec fn keys_ascending(s: Seq<(String, String)>) -> bool {
    forall|i: int, j: int| 0 <= i < j < s.len() ==> str_lt(#[trigger] s[i].0@, #[trigger] s[j].0@)
}

/// Some entry of `s` has key `k`.
pub open spec fn has_key(s: Seq<(String, String)>, k: Seq<char>) -> bool {
    exists|i: int| 0 <= i < s.len() && #[trigger] s[i].0@ == k
}

/// The value stored under `k` in `s`.
pub open spec fn value_at(s: Seq<(String, String)>, k: Seq<char>) -> Option<Seq<char>> {
    if has_key(s, k) {
        Some(s[choose|i: int| 0 <= i < s.len() && #[trigger] s[i].0@ == k].1@)
    } else {
        None
    }
}

/// The key/value map that the entries `s` hold.
pub open spec fn entries_map(s: Seq<(String, String)>) -> Map<Seq<char>, Seq<char>> {
    Map::new(|k: Seq<char>| has_key(s, k), |k: Seq<char>| value_at(s, k)->0)
}

/// In ascending entries the entry with a key is the one a lookup finds.
proof fn lemma_value_at(s: Seq<(String, String)>, i: int)
    requires
        keys_ascending(s),
        0 <= i < s.len(),
    ensures
        has_key(s, s[i].0@),
        value_at(s, s[i].0@) == Some(s[i].1@),
{
    let k = s[i].0@;
    assert(has_key(s, k));
    let j = choose|j: int| 0 <= j < s.len() && #[trigger] s[j].0@ == k;
    assert(0 <= j < s.len() && s[j].0@ == k);
    lemma_str_lt_irreflexive(k);
    if j < i {
        assert(str_lt(s[j].0@, s[i].0@));
    } else if i < j {
        assert(str_lt(s[i].0@, s[j].0@));
    }
    assert(j == i);
}

/// Replacing the value of a stored key keeps the order and stores the new
/// value under it.
proof fn lemma_map_update(s: Seq<(String, String)>, i: int, e: (String, String))
    requires
        keys_ascending(s),
        0 <= i < s.len(),
        e.0@ == s[i].0@,
    ensures
        keys_ascending(s.update(i, e)),
        entries_map(s.update(i, e)) == entries_map(s).insert(e.0@, e.1@),
{
    let t = s.update(i, e);
    assert forall|a: int, b: int| 0 <= a < b < t.len() implies str_lt(
        #[trigger] t[a].0@,
        #[trigger] t[b].0@,
    ) by {
        assert(t[a].0@ == s[a].0@ && t[b].0@ == s[b].0@);
    }
    assert forall|k: Seq<char>| #[trigger] has_key(t, k) == (has_key(s, k) || k == e.0@) by {
        if has_key(s, k) {
            let j = choose|j: int| 0 <= j < s.len() && #[trigger] s[j].0@ == k;
            assert(t[j].0@ == k);
        }
        if has_key(t, k) {
            let j = choose|j: int| 0 <= j < t.len() && #[trigger] t[j].0@ == k;
            assert(s[j].0@ == k);
        }
        if k == e.0@ {
            assert(t[i].0@ == k);
        }
    }
    assert forall|k: Seq<char>| has_key(t, k) implies value_at(t, k) == (if k == e.0@ {
        Some(e.1@)
    } else {
        value_at(s, k)
    }) by {
        let j = choose|j: int| 0 <= j < t.len() && #[trigger] t[j].0@ == k;
        lemma_value_at(t, j);
        lemma_value_at(t, i);
        if k != e.0@ {
            assert(j != i);
            lemma_value_at(s, j);
        }
    }
    assert(entries_map(t) =~= entries_map(s).insert(e.0@, e.1@));
}

/// Inserting a new key at its place in the order keeps the order and adds
/// the key with its value.
proof fn lemma_map_insert(s: Seq<(String, String)>, p: int, e: (String, String))
    requires
        keys_ascending(s),
        0 <= p <= s.len(),
        forall|j: int| 0 <= j < p ==> str_lt(#[trigger] s[j].0@, e.0@),
        p < s.len() ==> str_lt(e.0@, s[p].0@),
    ensures
        keys_ascending(s.insert(p, e)),
        entries_map(s.insert(p, e)) == entries_map(s).insert(e.0@, e.1@),
{
    let t = s.insert(p, e);
    assert forall|a: int, b: int| 0 <= a < b < t.len() implies str_lt(
        #[trigger] t[a].0@,
        #[trigger] t[b].0@,
    ) by {
        if b < p {
            assert(t[a] == s[a] && t[b] == s[b]);
        } else if b == p {
            assert(t[a] == s[a]);
        } else if a < p {
            assert(t[a] == s[a] && t[b] == s[b - 1]);
        } else if a == p {
            assert(t[b] == s[b - 1]);
            if b - 1 > p {
                assert(str_lt(s[p].0@, s[b - 1].0@));
                lemma_str_lt_transitive(e.0@, s[p].0@, s[b - 1].0@);
            }
        } else {
            assert(t[a] == s[a - 1] && t[b] == s[b - 1]);
        }
    }
    assert(t[p] == e);
    assert forall|k: Seq<char>| #[trigger] has_key(t, k) == (has_key(s, k) || k == e.0@) by {
        if has_key(s, k) {
            let j = choose|j: int| 0 <= j < s.len() && #[trigger] s[j].0@ == k;
            if j < p {
                assert(t[j] == s[j]);
            } else {
                assert(t[j + 1] == s[j]);
            }
        }
        if has_key(t, k) {
            let j = choose|j: int| 0 <= j < t.len() && #[trigger] t[j].0@ == k;
            if j < p {
                assert(s[j] == t[j]);
            } else if j > p {
                assert(s[j - 1] == t[j]);
            }
        }
    }
    assert forall|k: Seq<char>| has_key(t, k) implies value_at(t, k) == (if k == e.0@ {
        Some(e.1@)
    } else {
        value_at(s, k)
    }) by {
        let j = choose|j: int| 0 <= j < t.len() && #[trigger] t[j].0@ == k;
        lemma_value_at(t, j);
        lemma_value_at(t, p);
        if k != e.0@ {
            if j < p {
                assert(s[j] == t[j]);
                lemma_value_at(s, j);
            } else {
                assert(j != p);
                assert(s[j - 1] == t[j]);
                lemma_value_at(s, j - 1);
            }
        }
    }
    assert(entries_map(t) =~= entries_map(s).insert(e.0@, e.1@));
}

/// Removing the entry of a key keeps the order and drops the key.
proof fn lemma_map_remove(s: Seq<(String, String)>, i: int)
    requires
        keys_ascending(s),
        0 <= i < s.len(),
    ensures
        keys_ascending(s.remove(i)),
        entries_map(s.remove(i)) == entries_map(s).remove(s[i].0@),
{
    let t = s.remove(i);
    let k0 = s[i].0@;
    assert forall|a: int, b: int| 0 <= a < b < t.len() implies str_lt(
        #[trigger] t[a].0@,
        #[trigger] t[b].0@,
    ) by {
        if b < i {
            assert(t[a] == s[a] && t[b] == s[b]);
        } else if a < i {
            assert(t[a] == s[a] && t[b] == s[b + 1]);
        } else {
            assert(t[a] == s[a + 1] && t[b] == s[b + 1]);
        }
    }
    lemma_str_lt_irreflexive(k0);
    assert forall|k: Seq<char>| #[trigger] has_key(t, k) == (has_key(s, k) && k != k0) by {
        if has_key(s, k) && k != k0 {
            let j = choose|j: int| 0 <= j < s.len() && #[trigger] s[j].0@ == k;
            if j < i {
                assert(t[j] == s[j]);
            } else {
                assert(j != i);
                assert(t[j - 1] == s[j]);
            }
        }
        if has_key(t, k) {
            let j = choose|j: int| 0 <= j < t.len() && #[trigger] t[j].0@ == k;
            if j < i {
                assert(s[j] == t[j]);
                assert(str_lt(s[j].0@, s[i].0@));
            } else {
                assert(s[j + 1] == t[j]);
                assert(str_lt(s[i].0@, s[j + 1].0@));
            }
        }
    }
    assert forall|k: Seq<char>| has_key(t, k) implies value_at(t, k) == value_at(s, k) by {
        let j = choose|j: int| 0 <= j < t.len() && #[trigger] t[j].0@ == k;
        lemma_value_at(t, j);
        if j < i {
            assert(s[j] == t[j]);
            lemma_value_at(s, j);
        } else {
            assert(s[j + 1] == t[j]);
            lemma_value_at(s, j + 1);
        }
    }
    assert(entries_map(t) =~= entries_map(s).remove(k0));
}

/// One plugin's stored values (JSON texts by key), keys ascending.
pub struct StorageNamespace {
    entries: Vec<(String, String)>,
}

impl View for StorageNamespace {
    type V = Map<Seq<char>, Seq<char>>;

    closed spec fn view(&self) -> Map<Seq<char>, Seq<char>> {
        entries_map(self.entries@)
    }
}

impl StorageNamespace {
    #[verifier::type_invariant]
    spec fn well_formed(self) -> bool {
        keys_ascending(self.entries@)
    }

    /// An empty namespace.
    pub fn new() -> (ns: Self)
        ensures
            ns@ == Map::<Seq<char>, Seq<char>>::empty(),
    {
        let ns = StorageNamespace { entries: Vec::new() };
        assert(ns@ =~= Map::<Seq<char>, Seq<char>>::empty());
        ns
    }

    /// The value stored under `key`.
    pub fn get(&self, key: &str) -> (r: Option<String>)
        ensures
            match r {
                Some(v) => self@.contains_key(key@) && self@[key@] == v@,
                None => !self@.contains_key(key@),
            },
    {
        proof {
            use_type_invariant(self);
        }
        match position_in(&self.entries, key) {
            Some(i) => {
                proof {
                    lemma_value_at(self.entries@, i as int);
                }
                Some(self.entries[i].1.clone())
            },
            None => None,
        }
    }

    /// Store `value` under `key`, replacing what was there.
    pub fn set(&mut self, key: String, value: String)
        ensures
            final(self)@ == old(self)@.insert(key@, value@),
    {
        proof {
            use_type_invariant(&*self);
        }
        let mut entries: Vec<(String, String)> = Vec::new();
        core::mem::swap(&mut entries, &mut self.entries);
        let ghost s = entries@;
        let found: Option<usize> = position_in(&entries, key.as_str());
        match found {
            Some(i) => {
                let ghost e = (key, value);
                proof {
                    lemma_map_update(s, i as int, e);
                }
                entries.set(i, (key, value));
            },
            None => {
                let mut p: usize = 0;
                while p < entries.len() && str_less(entries[p].0.as_str(), key.as_str())
                    invariant
                        entries@ == s,
                        p <= s.len(),
                        forall|j: int| 0 <= j < p ==> str_lt(#[trigger] s[j].0@, key@),
                    decreases s.len() - p,
                {
                    p = p + 1;
                }
                proof {
                    if p < s.len() {
                        assert(s[p as int].0@ != key@);
                        lemma_str_lt_total(s[p as int].0@, key@);
                    }
                    lemma_map_insert(s, p as int, (key, value));
                }
                entries.insert(p, (key, value));
            },
        }
        self.entries = entries;
    }

    /// Drop `key`; whether it was stored.
    pub fn remove(&mut self, key: &str) -> (removed: bool)
        ensures
            removed == old(self)@.contains_key(key@),
            final(self)@ == old(self)@.remove(key@),
    {
        proof {
            use_type_invariant(&*self);
        }
        let mut entries: Vec<(String, String)> = Vec::new();
        core::mem::swap(&mut entries, &mut self.entries);
        let ghost s = entries@;
        let found: Option<usize> = position_in(&entries, key);
        let removed: bool = match found {
            Some(i) => {
                proof {
                    lemma_map_remove(s, i as int);
                }
                entries.remove(i);
                true
            },
            None => {
                assert(entries_map(s).remove(key@) =~= entries_map(s));
                false
            },
        };
        self.entries = entries;
        removed
    }

    /// The stored keys, ascending.
    pub fn keys(&self) -> (r: Vec<String>)
        ensures
            strings_ascending(r@),
            forall|k: Seq<char>| self@.contains_key(k) <==> #[trigger] listed(r@, k),
    {
        proof {
            use_type_invariant(self);
        }
        let mut r: Vec<String> = Vec::new();
        let mut i: usize = 0;
        while i < self.entries.len()
            invariant
                i <= self.entries@.len(),
                keys_ascending(self.entries@),
                r@.len() == i,
                forall|j: int| 0 <= j < i ==> #[trigger] r@[j]@ == self.entries@[j].0@,
            decreases self.entries@.len() - i,
        {
            r.push(self.entries[i].0.clone());
            i = i + 1;
        }
        proof {
            let s = self.entries@;
            assert forall|a: int, b: int| 0 <= a < b < r@.len() implies str_lt(
                #[trigger] r@[a]@,
                #[trigger] r@[b]@,
            ) by {
                assert(str_lt(s[a].0@, s[b].0@));
            }
            assert forall|k: Seq<char>| self@.contains_key(k) <==> #[trigger] listed(r@, k) by {
                if has_key(s, k) {
                    let j = choose|j: int| 0 <= j < s.len() && #[trigger] s[j].0@ == k;
                    assert(r@[j]@ == k);
                }
                if exists|i: int| 0 <= i < r@.len() && #[trigger] r@[i]@ == k {
                    let j = choose|j: int| 0 <= j < r@.len() && #[trigger] r@[j]@ == k;
                    assert(s[j].0@ == k);
                }
            }
        }
        r
    }

    /// The stored entries (key, JSON text), keys ascending.
    pub fn entries(&self) -> (r: Vec<(String, String)>)
        ensures
            keys_ascending(r@),
            entries_map(r@) == self@,
    {
        proof {
            use_type_invariant(self);
        }
        let mut r: Vec<(String, String)> = Vec::new();
        let mut i: usize = 0;
        while i < self.entries.len()
            invariant
                i <= self.entries@.len(),
                r@.len() == i,
                forall|j: int| 0 <= j < i ==> #[trigger] r@[j].0@ == self.entries@[j].0@ && r@[j].1@
                    == self.entries@[j].1@,
            decreases self.entries@.len() - i,
        {
            let k: String = self.entries[i].0.clone();
            let v: String = self.entries[i].1.clone();
            r.push((k, v));
            i = i + 1;
        }
        proof {
            let s = self.entries@;
            assert forall|a: int, b: int| 0 <= a < b < r@.len() implies str_lt(
                #[trigger] r@[a].0@,
                #[trigger] r@[b].0@,
            ) by {
                assert(str_lt(s[a].0@, s[b].0@));
            }
            assert forall|k: Seq<char>| #[trigger] has_key(r@, k) == has_key(s, k) by {
                if has_key(s, k) {
                    let j = choose|j: int| 0 <= j < s.len() && #[trigger] s[j].0@ == k;
                    assert(r@[j].0@ == k);
                }
                if has_key(r@, k) {
                    let j = choose|j: int| 0 <= j < r@.len() && #[trigger] r@[j].0@ == k;
                    assert(s[j].0@ == k);
                }
            }
            assert forall|k: Seq<char>| has_key(r@, k) implies value_at(r@, k) == value_at(s, k) by {
                let j = choose|j: int| 0 <= j < r@.len() && #[trigger] r@[j].0@ == k;
                lemma_value_at(r@, j);
                lemma_value_at(s, j);
            }
            assert(entries_map(r@) =~= entries_map(s));
        }
        r
    }
}

/// Some string of `v` is `k`.
pub open spec fn listed(v: Seq<String>, k: Seq<char>) -> bool {
    exists|i: int| 0 <= i < v.len() && #[trigger] v[i]@ == k
}

/// The strings of `v` ascend strictly.
pub open spec fn strings_ascending(v: Seq<String>) -> bool {
    forall|i: int, j: int| 0 <= i < j < v.len() ==> str_lt(#[trigger] v[i]@, #[trigger] v[j]@)
}

/// Where `key` is stored in `entries`, if it is.
fn position_in(entries: &Vec<(String, String)>, key: &str) -> (r: Option<usize>)
    ensures
        match r {
            Some(i) => i < entries@.len() && entries@[i as int].0@ == key@,
            None => !has_key(entries@, key@),
        },
{
    let mut i: usize = 0;
    while i < entries.len()
        invariant
            i <= entries@.len(),
            forall|j: int| 0 <= j < i ==> #[trigger] entries@[j].0@ != key@,
        decreases entries@.len() - i,
    {
        if crate::text::str_eq(entries[i].0.as_str(), key) {
            return Some(i);
        }
        i = i + 1;
    }
    None
}

/// The map that the pairs `s` give when stored in order (a later pair wins).
pub open spec fn pairs_map(s: Seq<(String, String)>) -> Map<Seq<char>, Seq<char>>
    decreases s.len(),
{
    if s.len() == 0 {
        Map::empty()
    } else {
        pairs_map(s.drop_last()).insert(s.last().0@, s.last().1@)
    }
}

/// The namespace named `n` in `s` (the last entry with that name).
pub open spec fn namespace_in(s: Seq<(String, StorageNamespace)>, n: Seq<char>) -> Option<
    StorageNamespace,
>
    decreases s.len(),
{
    if s.len() == 0 {
        None
    } else if s.last().0@ == n {
        Some(s.last().1)
    } else {
        namespace_in(s.drop_last(), n)
    }
}

/// The namespace named `n` is in `s` exactly when some entry has that name.
proof fn lemma_namespace_in_some(s: Seq<(String, StorageNamespace)>, n: Seq<char>)
    ensures
        namespace_in(s, n) is Some <==> exists|i: int| 0 <= i < s.len() && #[trigger] s[i].0@ == n,
    decreases s.len(),
{
    if s.len() > 0 {
        lemma_namespace_in_some(s.drop_last(), n);
        if exists|i: int| 0 <= i < s.len() && #[trigger] s[i].0@ == n {
            let i = choose|i: int| 0 <= i < s.len() && #[trigger] s[i].0@ == n;
            if i < s.len() - 1 {
                assert(s.drop_last()[i].0@ == n);
            }
        }
        if exists|i: int| 0 <= i < s.len() - 1 && #[trigger] s.drop_last()[i].0@ == n {
            let i = choose|i: int| 0 <= i < s.len() - 1 && #[trigger] s.drop_last()[i].0@ == n;
            assert(s[i].0@ == n);
        }
    }
}

/// Replacing the namespace of the last entry named `n` changes what `n`
/// names and nothing else.
proof fn lemma_namespace_update(
    s: Seq<(String, StorageNamespace)>,
    i: int,
    ns: StorageNamespace,
    m: Seq<char>,
)
    requires
        0 <= i < s.len(),
        forall|j: int| i < j < s.len() ==> #[trigger] s[j].0@ != s[i].0@,
    ensures
        namespace_in(s.update(i, (s[i].0, ns)), m) == if m == s[i].0@ {
            Some(ns)
        } else {
            namespace_in(s, m)
        },
    decreases s.len(),
{
    let t = s.update(i, (s[i].0, ns));
    if i < s.len() - 1 {
        assert(t.drop_last() =~= s.drop_last().update(i, (s[i].0, ns)));
        lemma_namespace_update(s.drop_last(), i, ns, m);
    } else {
        assert(t.drop_last() =~= s.drop_last());
    }
}

/// What `serde_json::from_str::<serde_json::Value>` makes of `text`: the
/// entries of a JSON object (each value written back as compact JSON text),
/// no entries for JSON that is not an object, or the parser's error message.
pub uninterp spec fn json_object_parse(text: Seq<char>) -> Result<
    Option<Seq<(Seq<char>, Seq<char>)>>,
    Seq<char>,
>;

/// A parse outcome with its strings as characters.
pub open spec fn parse_view(r: Result<Option<Vec<(String, String)>>, String>) -> Result<
    Option<Seq<(Seq<char>, Seq<char>)>>,
    Seq<char>,
> {
    match r {
        Ok(Some(v)) => Ok(Some(v@.map_values(|e: (String, String)| (e.0@, e.1@)))),
        Ok(None) => Ok(None),
        Err(e) => Err(e@),
    }
}

/// Calls `serde_json::from_str` for a `serde_json::Value` and, for an
/// object, turns each entry's value back into JSON text with its
/// `Display`. Claimed: the result is the named parse outcome of `text`; the
/// error side carries the `serde_json::Error`'s display text.
#[verifier::external_body]
fn json_object_pairs(text: &str) -> (r: Result<Option<Vec<(String, String)>>, String>)
    ensures
        parse_view(r) == json_object_parse(text@),
{
    match serde_json::from_str::<serde_json::Value>(text) {
        Ok(serde_json::Value::Object(map)) => Ok(Some(map.into_iter().map(|(k, v)| (k, v.to_string())).collect())),
        Ok(serde_json::Value::Null) => Ok(None),
        Ok(serde_json::Value::Bool(_)) => Ok(None),
        Ok(serde_json::Value::Number(_)) => Ok(None),
        Ok(serde_json::Value::String(_)) => Ok(None),
        Ok(serde_json::Value::Array(_)) => Ok(None),
        Err(e) => Err(e.to_string()),
    }
}

/// Why a storage file gave an empty namespace.
#[derive(Debug, Clone, PartialEq, Eq)]
pub enum StorageFileIssue {
    /// The file holds JSON that is not an object.
    NotObject,
    /// The file is not JSON; the parser's message.
    Corrupt(String),
}

/// What a storage file's parse outcome gives: the object's entries, or an
/// empty namespace and the reason.
pub open spec fn loaded_from(
    parsed: Result<Option<Seq<(Seq<char>, Seq<char>)>>, Seq<char>>,
    entries: Seq<(Seq<char>, Seq<char>)>,
    issue: Option<StorageFileIssue>,
) -> bool {
    match parsed {
        Ok(Some(p)) => entries == p && issue is None,
        Ok(None) => entries.len() == 0 && issue == Some(StorageFileIssue::NotObject),
        Err(e) => entries.len() == 0 && (issue matches Some(StorageFileIssue::Corrupt(m)) && m@ == e),
    }
}

/// The entries and issue a storage file's parse outcome gives.
pub fn namespace_from_parse(parsed: Result<Option<Vec<(String, String)>>, String>) -> (r: (
    Vec<(String, String)>,
    Option<StorageFileIssue>,
))
    ensures
        loaded_from(parse_view(parsed), r.0@.map_values(|e: (String, String)| (e.0@, e.1@)), r.1),
{
    match parsed {
        Ok(Some(pairs)) => (pairs, None),
        Ok(None) => {
            let v: Vec<(String, String)> = Vec::new();
            assert(v@.map_values(|e: (String, String)| (e.0@, e.1@)).len() == 0);
            (v, Some(StorageFileIssue::NotObject))
        },
        Err(e) => {
            let v: Vec<(String, String)> = Vec::new();
            assert(v@.map_values(|e: (String, String)| (e.0@, e.1@)).len() == 0);
            (v, Some(StorageFileIssue::Corrupt(e)))
        },
    }
}

/// The entries a plugin's storage file holds: none for a missing file, the
/// object's entries for a JSON object, and none, with the reason, for
/// anything else.
pub fn namespace_from_file(text: Option<&str>) -> (r: (Vec<(String, String)>, Option<StorageFileIssue>))
    ensures
        match text {
            None => r.0@.len() == 0 && r.1 is None,
            Some(t) => loaded_from(
                json_object_parse(t@),
                r.0@.map_values(|e: (String, String)| (e.0@, e.1@)),
                r.1,
            ),
        },
{
    match text {
        None => (Vec::new(), None),
        Some(t) => namespace_from_parse(json_object_pairs(t)),
    }
}

/// All plugins' storage: the namespaces loaded so far, by plugin id, and
/// the namespaces changed since they were last written out.
pub struct PluginStorage {
    namespaces: Vec<(String, StorageNamespace)>,
    dirty: Vec<String>,
}

impl PluginStorage {
    /// What the namespace `n` holds, once loaded.
    pub closed spec fn stored(self, n: Seq<char>) -> Option<Map<Seq<char>, Seq<char>>> {
        match namespace_in(self.namespaces@, n) {
            Some(ns) => Some(ns@),
            None => None,
        }
    }

    /// The namespaces changed since they were last written out.
    pub closed spec fn dirty_set(self) -> Set<Seq<char>> {
        Set::new(|n: Seq<char>| exists|i: int| 0 <= i < self.dirty@.len() && #[trigger] self.dirty@[i]@ == n)
    }

    /// No namespace loaded, nothing changed.
    pub fn new() -> (st: Self)
        ensures
            forall|n: Seq<char>| #[trigger] st.stored(n) is None,
            st.dirty_set() == Set::<Seq<char>>::empty(),
    {
        let st = PluginStorage { namespaces: Vec::new(), dirty: Vec::new() };
        assert(st.dirty_set() =~= Set::<Seq<char>>::empty());
        st
    }

    /// Where the namespace `n` sits: the last entry with that name.
    fn slot(&self, n: &str) -> (r: Option<usize>)
        ensures
            match r {
                Some(i) => i < self.namespaces@.len() && self.namespaces@[i as int].0@ == n@
                    && forall|j: int| i < j < self.namespaces@.len() ==> #[trigger] self.namespaces@[j].0@ != n@,
                None => namespace_in(self.namespaces@, n@) is None,
            },
    {
        let mut k: usize = self.namespaces.len();
        while k > 0
            invariant
                k <= self.namespaces@.len(),
                forall|j: int| k <= j < self.namespaces@.len() ==> #[trigger] self.namespaces@[j].0@ != n@,
            decreases k,
        {
            if crate::text::str_eq(self.namespaces[k - 1].0.as_str(), n) {
                return Some(k - 1);
            }
            k = k - 1;
        }
        proof {
            lemma_namespace_in_some(self.namespaces@, n@);
        }
        None
    }

    /// Whether the namespace `n` has been loaded.
    pub fn is_loaded(&self, n: &str) -> (b: bool)
        ensures
            b == self.stored(n@) is Some,
    {
        match self.slot(n) {
            Some(i) => {
                proof {
                    lemma_namespace_update(self.namespaces@, i as int, self.namespaces@[i as int].1, n@);
                    assert(self.namespaces@.update(i as int, (self.namespaces@[i as int].0, self.namespaces@[i as int].1)) =~= self.namespaces@);
                }
                true
            },
            None => false,
        }
    }

    /// Record that the namespace `n` changed.
    fn mark_dirty(&mut self, n: String)
        ensures
            final(self).namespaces == old(self).namespaces,
            forall|m: Seq<char>| #[trigger] final(self).stored(m) == old(self).stored(m),
            final(self).dirty_set() == old(self).dirty_set().insert(n@),
    {
        let mut i: usize = 0;
        while i < self.dirty.len()
            invariant
                i <= self.dirty@.len(),
                *self == *old(self),
            decreases self.dirty@.len() - i,
        {
            if crate::text::str_eq(self.dirty[i].as_str(), n.as_str()) {
                assert(self.dirty_set().insert(n@) =~= self.dirty_set());
                return;
            }
            i = i + 1;
        }
        let ghost before = self.dirty@;
        self.dirty.push(n);
        proof {
            assert forall|m: Seq<char>| #[trigger] self.dirty_set().contains(m) == old(self).dirty_set().insert(n@).contains(m) by {
                if exists|j: int| 0 <= j < before.len() && #[trigger] before[j]@ == m {
                    let j = choose|j: int| 0 <= j < before.len() && #[trigger] before[j]@ == m;
                    assert(self.dirty@[j]@ == m);
                }
                if exists|j: int| 0 <= j < self.dirty@.len() && #[trigger] self.dirty@[j]@ == m {
                    let j = choose|j: int| 0 <= j < self.dirty@.len() && #[trigger] self.dirty@[j]@ == m;
                    if j < before.len() {
                        assert(before[j]@ == m);
                    }
                }
                if m == n@ {
                    assert(self.dirty@[before.len() as int]@ == m);
                }
            }
            assert(self.dirty_set() =~= old(self).dirty_set().insert(n@));
        }
    }

    /// Take out the namespace at `i`, leaving an empty one in its place.
    fn take_at(&mut self, i: usize) -> (r: StorageNamespace)
        requires
            i < old(self).namespaces@.len(),
            forall|j: int| i < j < old(self).namespaces@.len() ==> #[trigger] old(self).namespaces@[j].0@ != old(self).namespaces@[i as int].0@,
        ensures
            old(self).stored(old(self).namespaces@[i as int].0@) == Some(r@),
            final(self).dirty == old(self).dirty,
            final(self).namespaces@.len() == old(self).namespaces@.len(),
            forall|j: int| 0 <= j < final(self).namespaces@.len() ==> #[trigger] final(self).namespaces@[j].0@ == old(self).namespaces@[j].0@,
            forall|m: Seq<char>| m != old(self).namespaces@[i as int].0@ ==> #[trigger] final(self).stored(m) == old(self).stored(m),
    {
        let ghost s = self.namespaces@;
        let (name, ns) = self.namespaces.remove(i);
        self.namespaces.insert(i, (name, StorageNamespace::new()));
        proof {
            lemma_namespace_update(s, i as int, s[i as int].1, s[i as int].0@);
            assert(s.update(i as int, (s[i as int].0, s[i as int].1)) =~= s);
            let t = self.namespaces@;
            assert(t =~= s.update(i as int, (s[i as int].0, t[i as int].1)));
            assert forall|m: Seq<char>| m != s[i as int].0@ implies #[trigger] self.stored(m) == old(self).stored(m) by {
                lemma_namespace_update(s, i as int, t[i as int].1, m);
            }
        }
        ns
    }

    /// Put `ns` in the place of the namespace at `i`.
    fn replace_at(&mut self, i: usize, ns: StorageNamespace)
        requires
            i < old(self).namespaces@.len(),
            forall|j: int| i < j < old(self).namespaces@.len() ==> #[trigger] old(self).namespaces@[j].0@ != old(self).namespaces@[i as int].0@,
        ensures
            final(self).dirty == old(self).dirty,
            forall|m: Seq<char>| #[trigger] final(self).stored(m) == if m == old(self).namespaces@[i as int].0@ {
                Some(ns@)
            } else {
                old(self).stored(m)
            },
            forall|j: int| i < j < final(self).namespaces@.len() ==> #[trigger] final(self).namespaces@[j].0@ != final(self).namespaces@[i as int].0@,
            final(self).namespaces@.len() == old(self).namespaces@.len(),
            final(self).namespaces@[i as int].0@ == old(self).namespaces@[i as int].0@,
    {
        let ghost s = self.namespaces@;
        let (name, _old) = self.namespaces.remove(i);
        self.namespaces.insert(i, (name, ns));
        proof {
            assert(self.namespaces@ =~= s.update(i as int, (s[i as int].0, ns)));
            assert forall|m: Seq<char>| #[trigger] self.stored(m) == if m == s[i as int].0@ {
                Some(ns@)
            } else {
                old(self).stored(m)
            } by {
                lemma_namespace_update(s, i as int, ns, m);
            }
        }
    }

    /// Make `pairs`, stored in order, the contents of the namespace `n`.
    pub fn load(&mut self, n: String, pairs: Vec<(String, String)>)
        ensures
            final(self).stored(n@) == Some(pairs_map(pairs@)),
            forall|m: Seq<char>| m != n@ ==> #[trigger] final(self).stored(m) == old(self).stored(m),
            final(self).dirty_set() == old(self).dirty_set(),
    {
        let mut ns: StorageNamespace = StorageNamespace::new();
        let mut rest: Vec<(String, String)> = pairs;
        let ghost all = rest@;
        let total: usize = rest.len();
        let mut k: usize = 0;
        while rest.len() > 0
            invariant
                total == all.len(),
                k <= all.len(),
                rest@ == all.subrange(k as int, all.len() as int),
                ns@ == pairs_map(all.subrange(0, k as int)),
            decreases rest@.len(),
        {
            let (key, value): (String, String) = rest.remove(0);
            proof {
                assert(all[k as int] == (key, value));
                assert(all.subrange(0, k + 1).drop_last() =~= all.subrange(0, k as int));
            }
            ns.set(key, value);
            k = k + 1;
            proof {
                assert(rest@ =~= all.subrange(k as int, all.len() as int));
            }
        }
        assert(all.subrange(0, all.len() as int) =~= all);
        match self.slot(n.as_str()) {
            Some(i) => self.replace_at(i, ns),
            None => {
                let ghost s = self.namespaces@;
                self.namespaces.push((n, ns));
                assert(self.namespaces@.drop_last() =~= s);
            },
        }
    }

    /// The JSON text stored under `key` in the namespace `n`.
    pub fn get(&self, n: &str, key: &str) -> (r: Option<String>)
        ensures
            match self.stored(n@) {
                Some(m) => match r {
                    Some(v) => m.contains_key(key@) && m[key@] == v@,
                    None => !m.contains_key(key@),
                },
                None => r is None,
            },
    {
        match self.slot(n) {
            Some(i) => {
                proof {
                    lemma_namespace_update(self.namespaces@, i as int, self.namespaces@[i as int].1, n@);
                    assert(self.namespaces@.update(i as int, (self.namespaces@[i as int].0, self.namespaces@[i as int].1)) =~= self.namespaces@);
                }
                self.namespaces[i].1.get(key)
            },
            None => None,
        }
    }

    /// The keys of the namespace `n`, ascending (none when it is not loaded).
    pub fn keys(&self, n: &str) -> (r: Vec<String>)
        ensures
            strings_ascending(r@),
            forall|k: Seq<char>|
                (self.stored(n@) matches Some(m) && m.contains_key(k)) <==> #[trigger] listed(r@, k),
    {
        match self.slot(n) {
            Some(i) => {
                proof {
                    lemma_namespace_update(self.namespaces@, i as int, self.namespaces@[i as int].1, n@);
                    assert(self.namespaces@.update(i as int, (self.namespaces@[i as int].0, self.namespaces@[i as int].1)) =~= self.namespaces@);
                }
                self.namespaces[i].1.keys()
            },
            None => Vec::new(),
        }
    }

    /// The entries of the namespace `n`, keys ascending, once it is loaded.
    pub fn entries_of(&self, n: &str) -> (r: Option<Vec<(String, String)>>)
        ensures
            match self.stored(n@) {
                Some(m) => r matches Some(v) && keys_ascending(v@) && entries_map(v@) == m,
                None => r is None,
            },
    {
        match self.slot(n) {
            Some(i) => {
                proof {
                    lemma_namespace_update(self.namespaces@, i as int, self.namespaces@[i as int].1, n@);
                    assert(self.namespaces@.update(i as int, (self.namespaces@[i as int].0, self.namespaces@[i as int].1)) =~= self.namespaces@);
                }
                Some(self.namespaces[i].1.entries())
            },
            None => None,
        }
    }

    /// `storage_set`: store `value` under `key` in the namespace `n`
    /// (creating it), or drop `key` when `value` is `None`; either way the
    /// namespace counts as changed.
    pub fn set(&mut self, n: String, key: String, value: Option<String>)
        ensures
            final(self).stored(n@) == match value {
                None => match old(self).stored(n@) {
                    Some(m) => Some(m.remove(key@)),
                    None => None,
                },
                Some(v) => Some(
                    match old(self).stored(n@) {
                        Some(m) => m,
                        None => Map::empty(),
                    }.insert(key@, v@),
                ),
            },
            forall|m: Seq<char>| m != n@ ==> #[trigger] final(self).stored(m) == old(self).stored(m),
            final(self).dirty_set() == old(self).dirty_set().insert(n@),
    {
        let slot: Option<usize> = self.slot(n.as_str());
        match value {
            None => {
                if let Some(i) = slot {
                    let mut ns: StorageNamespace = self.take_at(i);
                    ns.remove(key.as_str());
                    self.replace_at(i, ns);
                }
            },
            Some(v) => match slot {
                Some(i) => {
                    let mut ns: StorageNamespace = self.take_at(i);
                    ns.set(key, v);
                    self.replace_at(i, ns);
                },
                None => {
                    let mut ns: StorageNamespace = StorageNamespace::new();
                    ns.set(key, v);
                    let ghost s = self.namespaces@;
                    self.namespaces.push((n.clone(), ns));
                    assert(self.namespaces@.drop_last() =~= s);
                },
            },
        }
        self.mark_dirty(n);
    }

    /// `storage_remove`: drop `key` from the namespace `n`; the namespace
    /// counts as changed only when the key was there.
    pub fn remove(&mut self, n: &str, key: &str) -> (removed: bool)
        ensures
            removed == (old(self).stored(n@) matches Some(m) && m.contains_key(key@)),
            final(self).stored(n@) == match old(self).stored(n@) {
                Some(m) => Some(m.remove(key@)),
                None => None,
            },
            forall|m: Seq<char>| m != n@ ==> #[trigger] final(self).stored(m) == old(self).stored(m),
            final(self).dirty_set() == if removed {
                old(self).dirty_set().insert(n@)
            } else {
                old(self).dirty_set()
            },
    {
        match self.slot(n) {
            Some(i) => {
                let mut ns: StorageNamespace = self.take_at(i);
                let removed: bool = ns.remove(key);
                self.replace_at(i, ns);
                if removed {
                    self.mark_dirty(crate::text::owned(n));
                }
                removed
            },
            None => false,
        }
    }

    /// The namespaces changed since the last call; afterwards
    /// none counts as changed.
    pub fn take_dirty(&mut self) -> (r: Vec<String>)
        ensures
            forall|m: Seq<char>| #[trigger] final(self).stored(m) == old(self).stored(m),
            final(self).dirty_set() == Set::<Seq<char>>::empty(),
            forall|m: Seq<char>| old(self).dirty_set().contains(m) <==> #[trigger] listed(r@, m),
    {
        let mut r: Vec<String> = Vec::new();
        core::mem::swap(&mut r, &mut self.dirty);
        assert(self.dirty_set() =~= Set::<Seq<char>>::empty());
        r
    }

    /// Load the namespace `n` from the text of its storage file (`None` when
    /// there is no file); a file that is not a JSON object gives an empty
    /// namespace and the reason.
    pub fn load_file(&mut self, n: String, text: Option<&str>) -> (issue: Option<StorageFileIssue>)
        ensures
            exists|entries: Seq<(String, String)>|
                {
                    &&& final(self).stored(n@) == Some(pairs_map(entries))
                    &&& match text {
                        None => entries.len() == 0 && issue is None,
                        Some(t) => loaded_from(
                            json_object_parse(t@),
                            entries.map_values(|e: (String, String)| (e.0@, e.1@)),
                            issue,
                        ),
                    }
                },
            forall|m: Seq<char>| m != n@ ==> #[trigger] final(self).stored(m) == old(self).stored(m),
            final(self).dirty_set() == old(self).dirty_set(),
    {
        let (entries, issue) = namespace_from_file(text);
        let ghost e = entries@;
        self.load(n, entries);
        issue
    }
}

} // verus!
