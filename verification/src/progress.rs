//! The progress report that ffmpeg writes to stdout as `key=value` lines.
use vstd::prelude::*;

use crate::text::{is_white_space, leading_ws, str_eq, trailing_ws, trim_spec};

verus! {

/// The position of the first `=` in `s`, if there is one.
pub open spec fn first_eq(s: Seq<char>) -> Option<int>
    decreases s.len(),
{
    if s.len() == 0 {
        None
    } else if s[0] == '=' {
        Some(0)
    } else {
        match first_eq(s.drop_first()) {
            Some(i) => Some(i + 1),
            None => None,
        }
    }
}

/// The key of a progress line: everything before the first `=`.
pub open spec fn line_key(line: Seq<char>) -> Seq<char> {
    line.take(first_eq(line)->0)
}

/// The value of a progress line: what stands between the first and the second `=`
/// (or the end of the line), without surrounding white space.
pub open spec fn line_value(line: Seq<char>) -> Seq<char> {
    let rest = line.skip(first_eq(line)->0 + 1);
    match first_eq(rest) {
        Some(j) => trim_spec(rest.take(j)),
        None => trim_spec(rest),
    }
}

proof fn lemma_first_eq(s: Seq<char>, i: int)
    requires
        0 <= i <= s.len(),
        forall|k: int| 0 <= k < i ==> s[k] != '=',
    ensures
        first_eq(s) == (match first_eq(s.skip(i)) {
            Some(j) => Some(j + i),
            None => None::<int>,
        }),
    decreases i,
{
    if i > 0 {
        assert(s.skip(1).skip(i - 1) =~= s.skip(i));
        lemma_first_eq(s.skip(1), i - 1);
        assert(s.drop_first() =~= s.skip(1));
    } else {
        assert(s.skip(0) =~= s);
    }
}

proof fn lemma_first_eq_range(s: Seq<char>)
    ensures
        first_eq(s) matches Some(i) ==> 0 <= i < s.len() && s[i] == '=' && forall|k: int|
            0 <= k < i ==> s[k] != '=',
        first_eq(s) is None ==> forall|k: int| 0 <= k < s.len() ==> s[k] != '=',
    decreases s.len(),
{
    if s.len() > 0 && s[0] != '=' {
        lemma_first_eq_range(s.drop_first());
        assert forall|k: int| 0 < k < s.len() implies s[k] == s.drop_first()[k - 1] by {}
    }
}

/// The position of the first `=` in `s` from `from` on, if there is one.
fn find_eq(s: &str, from: usize) -> (r: Option<usize>)
    requires
        from <= s@.len(),
    ensures
        match r {
            Some(i) => from <= i < s@.len() && first_eq(s@.skip(from as int)) == Some(i - from),
            None => first_eq(s@.skip(from as int)) is None,
        },
{
    let len = s.unicode_len();
    let mut i = from;
    while i < len
        invariant
            from <= i <= len,
            len == s@.len(),
            forall|k: int| from <= k < i ==> s@[k] != '=',
        decreases len - i,
    {
        if s.get_char(i) == '=' {
            proof {
                let t = s@.skip(from as int);
                lemma_first_eq(t, i - from);
                assert(t.skip(i - from) =~= s@.skip(i as int));
            }
            return Some(i);
        }
        i = i + 1;
    }
    proof {
        let t = s@.skip(from as int);
        lemma_first_eq(t, i - from);
        assert(t.skip(i - from).len() == 0);
    }
    None
}

/// `s[from..to]` without surrounding white space.
fn trimmed(s: &str, from: usize, to: usize) -> (r: String)
    requires
        from <= to <= s@.len(),
    ensures
        r@ == trim_spec(s@.subrange(from as int, to as int)),
{
    let ghost t = s@.subrange(from as int, to as int);
    let mut a = from;
    while a < to && is_ws(s.get_char(a))
        invariant
            from <= a <= to,
            to <= s@.len(),
            t == s@.subrange(from as int, to as int),
            leading_ws(t) == (a - from) + leading_ws(s@.subrange(a as int, to as int)),
        decreases to - a,
    {
        proof {
            let u = s@.subrange(a as int, to as int);
            assert(u.drop_first() =~= s@.subrange(a + 1, to as int));
        }
        a = a + 1;
    }
    proof {
        let u = s@.subrange(a as int, to as int);
        if a < to {
            assert(u[0] == s@[a as int]);
        }
        assert(leading_ws(u) == 0);
        assert(t.skip(leading_ws(t) as int) =~= u);
    }
    let ghost u = s@.subrange(a as int, to as int);
    let mut b = to;
    while b > a && is_ws(s.get_char(b - 1))
        invariant
            a <= b <= to,
            to <= s@.len(),
            u == s@.subrange(a as int, to as int),
            trailing_ws(u) == (to - b) + trailing_ws(s@.subrange(a as int, b as int)),
        decreases b - a,
    {
        proof {
            let w = s@.subrange(a as int, b as int);
            assert(w.drop_last() =~= s@.subrange(a as int, b - 1));
        }
        b = b - 1;
    }
    proof {
        let w = s@.subrange(a as int, b as int);
        if b > a {
            assert(w.last() == s@[b - 1]);
        }
        assert(trailing_ws(w) == 0);
        assert(u.take(u.len() - trailing_ws(u)) =~= w);
    }
    String::from_str(s.substring_char(a, b))
}

/// Whether `c` is white space, as `char::is_whitespace` says.
fn is_ws(c: char) -> (r: bool)
    ensures
        r == is_white_space(c),
{
    c == '\t' || c == '\n' || c == '\x0B' || c == '\x0C' || c == '\r' || c == ' ' || c == '\u{85}'
        || c == '\u{A0}' || c == '\u{1680}' || ('\u{2000}' <= c && c <= '\u{200A}') || c == '\u{2028}'
        || c == '\u{2029}' || c == '\u{202F}' || c == '\u{205F}' || c == '\u{3000}'
}

/// Splits a progress line `key=value` into its key and its trimmed value.
pub fn parse_progress_line(line: &str) -> (r: (String, String))
    requires
        first_eq(line@) is Some,
    ensures
        r.0@ == line_key(line@),
        r.1@ == line_value(line@),
{
    assert(line@.skip(0) =~= line@);
    let eq = match find_eq(line, 0) {
        Some(i) => i,
        None => 0,
    };
    let key = String::from_str(line.substring_char(0, eq));
    assert(line@.subrange(0, eq as int) =~= line@.take(eq as int));
    let len = line.unicode_len();
    let value = match find_eq(line, eq + 1) {
        Some(j) => {
            proof {
                let rest = line@.skip(eq + 1);
                assert(rest.take(j - eq - 1) =~= line@.subrange(eq + 1, j as int));
            }
            trimmed(line, eq + 1, j)
        },
        None => {
            assert(line@.skip(eq + 1) =~= line@.subrange(eq + 1, len as int));
            trimmed(line, eq + 1, len)
        },
    };
    (key, value)
}

/// The key/value pairs of an ffmpeg progress report, each key once.
#[derive(Debug)]
pub struct ProgressMap {
    entries: Vec<(String, String)>,
}

/// The keys of a list of entries.
pub open spec fn entry_keys(s: Seq<(String, String)>) -> Seq<Seq<char>> {
    s.map_values(|e: (String, String)| e.0@)
}

impl ProgressMap {
    /// No key occurs twice.
    #[verifier::type_invariant]
    closed spec fn keys_unique(self) -> bool {
        entry_keys(self.entries@).no_duplicates()
    }

    /// The map from keys to values.
    pub closed spec fn as_map(self) -> Map<Seq<char>, Seq<char>> {
        Map::new(
            |k: Seq<char>| entry_keys(self.entries@).contains(k),
            |k: Seq<char>| {
                let i = choose|i: int| 0 <= i < self.entries@.len() && self.entries@[i].0@ == k;
                self.entries@[i].1@
            },
        )
    }

    /// An empty report.
    pub fn new() -> (r: Self)
        ensures
            r.as_map() == Map::<Seq<char>, Seq<char>>::empty(),
    {
        let r = ProgressMap { entries: Vec::new() };
        assert(entry_keys(r.entries@) =~= Seq::<Seq<char>>::empty());
        assert(r.as_map() =~= Map::<Seq<char>, Seq<char>>::empty());
        r
    }

    /// Where `key` is stored.
    fn position(&self, key: &str) -> (r: Option<usize>)
        ensures
            match r {
                Some(i) => i < self.entries@.len() && self.entries@[i as int].0@ == key@,
                None => !entry_keys(self.entries@).contains(key@),
            },
    {
        let mut i: usize = 0;
        while i < self.entries.len()
            invariant
                i <= self.entries@.len(),
                forall|k: int| 0 <= k < i ==> self.entries@[k].0@ != key@,
            decreases self.entries.len() - i,
        {
            if str_eq(self.entries[i].0.as_str(), key) {
                return Some(i);
            }
            i = i + 1;
        }
        proof {
            if entry_keys(self.entries@).contains(key@) {
                let k = choose|k: int| 0 <= k < entry_keys(self.entries@).len() && entry_keys(self.entries@)[k] == key@;
                assert(self.entries@[k].0@ == key@);
            }
        }
        None
    }

    /// The value of `key`.
    pub fn get(&self, key: &str) -> (r: Option<String>)
        ensures
            match r {
                Some(v) => self.as_map().dom().contains(key@) && v@ == self.as_map()[key@],
                None => !self.as_map().dom().contains(key@),
            },
    {
        proof { use_type_invariant(self); }
        match self.position(key) {
            Some(i) => {
                proof {
                    let es = self.entries@;
                    assert(entry_keys(es)[i as int] == key@);
                    let j = choose|j: int| 0 <= j < es.len() && es[j].0@ == key@;
                    assert(entry_keys(es)[j] == key@);
                    assert(i == j);
                }
                Some(self.entries[i].1.clone())
            },
            None => None,
        }
    }

    /// Sets `key` to `value`, replacing an earlier value.
    pub fn insert(&mut self, key: String, value: String)
        ensures
            final(self).as_map() == old(self).as_map().insert(key@, value@),
    {
        proof { use_type_invariant(&*self); }
        let ghost old_map = self.as_map();
        let ghost old_entries = self.entries@;
        let ghost kv = key@;
        let ghost vv = value@;
        match self.position(key.as_str()) {
            Some(i) => {
                let mut entries: Vec<(String, String)> = Vec::new();
                std::mem::swap(&mut entries, &mut self.entries);
                entries.set(i, (key, value));
                proof {
                    assert(entry_keys(entries@) =~= entry_keys(old_entries));
                }
                self.entries = entries;
                proof {
                    let es = self.entries@;
                    assert forall|k: Seq<char>| #![auto] self.as_map().dom().contains(k) == old_map.insert(kv, vv).dom().contains(k) by {
                        assert(entry_keys(es) == entry_keys(old_entries));
                        if k == kv {
                            assert(entry_keys(old_entries)[i as int] == kv);
                        }
                    }
                    assert forall|k: Seq<char>| #![auto] self.as_map().dom().contains(k) implies self.as_map()[k] == old_map.insert(kv, vv)[k] by {
                        let j = choose|j: int| 0 <= j < es.len() && es[j].0@ == k;
                        assert(entry_keys(es)[j] == k);
                        if k == kv {
                            assert(entry_keys(es)[i as int] == kv);
                            assert(i == j);
                        } else {
                            let j0 = choose|j0: int| 0 <= j0 < old_entries.len() && old_entries[j0].0@ == k;
                            assert(entry_keys(old_entries)[j0] == k);
                            assert(j0 == j);
                        }
                    }
                    assert(self.as_map() =~= old_map.insert(kv, vv));
                }
            },
            None => {
                let mut entries: Vec<(String, String)> = Vec::new();
                std::mem::swap(&mut entries, &mut self.entries);
                entries.push((key, value));
                proof {
                    assert(entry_keys(entries@) =~= entry_keys(old_entries).push(kv));
                }
                self.entries = entries;
                proof {
                    let es = self.entries@;
                    assert forall|k: Seq<char>| #![auto] self.as_map().dom().contains(k) == old_map.insert(kv, vv).dom().contains(k) by {
                        assert(entry_keys(es) == entry_keys(old_entries).push(kv));
                        if entry_keys(es).contains(k) && k != kv {
                            let j = choose|j: int| 0 <= j < entry_keys(es).len() && entry_keys(es)[j] == k;
                            assert(entry_keys(old_entries)[j] == k);
                        }
                        if k == kv {
                            assert(entry_keys(es)[old_entries.len() as int] == kv);
                        }
                        if entry_keys(old_entries).contains(k) {
                            let j = choose|j: int| 0 <= j < entry_keys(old_entries).len() && entry_keys(old_entries)[j] == k;
                            assert(entry_keys(es)[j] == k);
                        }
                    }
                    assert forall|k: Seq<char>| #![auto] self.as_map().dom().contains(k) implies self.as_map()[k] == old_map.insert(kv, vv)[k] by {
                        let j = choose|j: int| 0 <= j < es.len() && es[j].0@ == k;
                        assert(entry_keys(es)[j] == k);
                        if k == kv {
                            assert(entry_keys(es)[old_entries.len() as int] == kv);
                            assert(j == old_entries.len());
                        } else {
                            let j0 = choose|j0: int| 0 <= j0 < old_entries.len() && old_entries[j0].0@ == k;
                            assert(entry_keys(old_entries)[j0] == k);
                            assert(entry_keys(es)[j0] == k);
                            assert(j0 == j);
                        }
                    }
                    assert(self.as_map() =~= old_map.insert(kv, vv));
                }
            },
        }
    }
}

/// What is read back is what was last written for that key, and writing one key leaves
/// the others unchanged.
pub proof fn lemma_progress_insert_get(before: ProgressMap, after: ProgressMap, k: Seq<char>, v: Seq<char>, other: Seq<char>)
    requires
        after.as_map() == before.as_map().insert(k, v),
        other != k,
    ensures
        after.as_map().dom().contains(k),
        after.as_map()[k] == v,
        after.as_map().dom().contains(other) == before.as_map().dom().contains(other),
        before.as_map().dom().contains(other) ==> after.as_map()[other] == before.as_map()[other],
{
}

} // verus!
