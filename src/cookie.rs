//! The `Cookie` header: a caller's raw cookie string laid over the built-in
//! defaults, last writer wins, written out in a fixed order.
use vstd::prelude::*;

verus! {

/// The Unicode `White_Space` property: U+0009..=U+000D, U+0020, U+0085,
/// U+00A0, U+1680, U+2000..=U+200A, U+2028, U+2029, U+202F, U+205F, U+3000.
pub open spec fn is_space(c: char) -> bool {
    let n = c as u32;
    (0x09 <= n && n <= 0x0D) || n == 0x20 || n == 0x85 || n == 0xA0 || n == 0x1680
        || (0x2000 <= n && n <= 0x200A) || n == 0x2028 || n == 0x2029 || n == 0x202F
        || n == 0x205F || n == 0x3000
}

#[verifier::external_body]
fn whitespace(c: char) -> (r: bool)
    ensures
        r == is_space(c),
{
    c.is_whitespace()
}

pub open spec fn trim_start(s: Seq<char>) -> Seq<char>
    decreases s.len(),
{
    if s.len() > 0 && is_space(s[0]) {
        trim_start(s.drop_first())
    } else {
        s
    }
}

pub open spec fn trim_end(s: Seq<char>) -> Seq<char>
    decreases s.len(),
{
    if s.len() > 0 && is_space(s.last()) {
        trim_end(s.drop_last())
    } else {
        s
    }
}

/// A text without its leading and trailing whitespace.
pub open spec fn trim(s: Seq<char>) -> Seq<char> {
    trim_end(trim_start(s))
}

/// The bounds, within `from..to` of `s`, of that range without its leading
/// and trailing whitespace.
fn trim_range(s: &str, from: usize, to: usize) -> (r: (usize, usize))
    requires
        from <= to <= s@.len(),
    ensures
        from <= r.0 <= r.1 <= to,
        s@.subrange(r.0 as int, r.1 as int) == trim(s@.subrange(from as int, to as int)),
{
    let mut a: usize = from;
    while a < to && whitespace(s.get_char(a))
        invariant
            from <= a <= to <= s@.len(),
            trim_start(s@.subrange(from as int, to as int)) == trim_start(s@.subrange(a as int, to as int)),
        decreases to - a,
    {
        proof {
            assert(s@.subrange(a as int, to as int).drop_first() =~= s@.subrange(a + 1, to as int));
        }
        a = a + 1;
    }
    let mut b: usize = to;
    while b > a && whitespace(s.get_char(b - 1))
        invariant
            from <= a <= b <= to <= s@.len(),
            trim_end(s@.subrange(a as int, to as int)) == trim_end(s@.subrange(a as int, b as int)),
        decreases b - a,
    {
        proof {
            assert(s@.subrange(a as int, b as int).drop_last() =~= s@.subrange(a as int, b - 1));
        }
        b = b - 1;
    }
    (a, b)
}

/// The parts of a text between `;` separators, as `str::split(';')` gives
/// them: `n` separators make `n + 1` parts.
pub open spec fn split_semi(s: Seq<char>) -> Seq<Seq<char>>
    decreases s.len(),
{
    if s.len() == 0 {
        seq![Seq::empty()]
    } else {
        let init = split_semi(s.drop_last());
        if s.last() == ';' {
            init.push(Seq::empty())
        } else {
            init.update(init.len() - 1, init.last().push(s.last()))
        }
    }
}

proof fn lemma_split_semi_len(s: Seq<char>)
    ensures
        split_semi(s).len() >= 1,
    decreases s.len(),
{
    if s.len() > 0 {
        lemma_split_semi_len(s.drop_last());
    }
}

/// `k` is the position of the first `=` in `t`.
pub open spec fn first_eq(t: Seq<char>, k: int) -> bool {
    0 <= k < t.len() && t[k] == '=' && forall|j: int| 0 <= j < k ==> t[j] != '='
}

/// The key and value that one part sets: both sides of its first `=`, each
/// trimmed, once the part itself is trimmed; nothing for a part without `=`.
pub open spec fn cookie_pair(part: Seq<char>) -> Option<(Seq<char>, Seq<char>)> {
    let t = trim(part);
    if exists|k: int| first_eq(t, k) {
        let k = choose|k: int| first_eq(t, k);
        Some((trim(t.subrange(0, k)), trim(t.subrange(k + 1, t.len() as int))))
    } else {
        None
    }
}

pub type Entries = Seq<(Seq<char>, Seq<char>)>;

pub open spec fn has_key_at(e: Entries, k: Seq<char>, i: int) -> bool {
    0 <= i < e.len() && e[i].0 == k
}

/// Sets `k` to `v`: in place where `k` is present, else at the end.
pub open spec fn jar_set(e: Entries, k: Seq<char>, v: Seq<char>) -> Entries {
    if exists|i: int| has_key_at(e, k, i) {
        e.update(choose|i: int| has_key_at(e, k, i), (k, v))
    } else {
        e.push((k, v))
    }
}

pub open spec fn apply_part(e: Entries, part: Seq<char>) -> Entries {
    match cookie_pair(part) {
        Some((k, v)) => jar_set(e, k, v),
        None => e,
    }
}

/// The entries after applying each part in turn.
pub open spec fn merge_parts(e: Entries, parts: Seq<Seq<char>>) -> Entries
    decreases parts.len(),
{
    if parts.len() == 0 {
        e
    } else {
        apply_part(merge_parts(e, parts.drop_last()), parts.last())
    }
}

/// The built-in entry `nw=1`, which admits galleries flagged as restricted.
pub open spec fn default_entries() -> Entries {
    seq![(seq!['n', 'w'], seq!['1'])]
}

/// The cookie that a request carries for a raw cookie string.
pub open spec fn merged_cookie(raw: Seq<char>) -> Entries {
    merge_parts(default_entries(), split_semi(raw))
}

pub open spec fn pair_text(p: (Seq<char>, Seq<char>)) -> Seq<char> {
    p.0 + seq!['='] + p.1
}

/// `k=v` for each entry, joined by `; `.
pub open spec fn cookie_line(e: Entries) -> Seq<char>
    decreases e.len(),
{
    if e.len() == 0 {
        Seq::empty()
    } else if e.len() == 1 {
        pair_text(e[0])
    } else {
        cookie_line(e.drop_last()) + seq![';', ' '] + pair_text(e.last())
    }
}

pub open spec fn keys_unique(e: Entries) -> bool {
    forall|i: int, j: int| 0 <= i < j < e.len() ==> e[i].0 != e[j].0
}

/// Cookie entries in the order their keys were first set.
#[derive(Debug, Clone)]
pub struct CookieJar {
    entries: Vec<(String, String)>,
}

impl View for CookieJar {
    type V = Entries;

    closed spec fn view(&self) -> Entries {
        self.entries@.map_values(|p: (String, String)| (p.0@, p.1@))
    }
}

impl CookieJar {
    /// No key appears twice.
    pub open spec fn wf(&self) -> bool {
        keys_unique(self@)
    }

    /// A jar that holds the built-in entries.
    pub fn with_defaults() -> (r: CookieJar)
        ensures
            r.wf(),
            r@ == default_entries(),
    {
        let mut entries: Vec<(String, String)> = Vec::new();
        entries.push((String::from_str("nw"), String::from_str("1")));
        let r = CookieJar { entries };
        proof {
            reveal_strlit("nw");
            reveal_strlit("1");
            assert("nw"@ =~= seq!['n', 'w']);
            assert("1"@ =~= seq!['1']);
            assert(r@ =~= default_entries());
        }
        r
    }

    /// Sets `key` to `value`, keeping the place of a key already present.
    pub fn set(&mut self, key: String, value: String)
        requires
            old(self).wf(),
        ensures
            final(self).wf(),
            final(self)@ == jar_set(old(self)@, key@, value@),
    {
        let ghost e = self@;
        let ghost k = key@;
        let ghost v = value@;
        let mut i: usize = 0;
        let mut found = false;
        while i < self.entries.len() && !found
            invariant
                e == self@,
                k == key@,
                keys_unique(e),
                i <= e.len(),
                found ==> i < e.len() && e[i as int].0 == k,
                !found ==> forall|j: int| 0 <= j < i ==> e[j].0 != k,
            decreases e.len() - i + (if found { 0int } else { 1int }),
        {
            proof {
                assert(e[i as int].0 == self.entries@[i as int].0@);
            }
            if self.entries[i].0 == key {
                found = true;
            } else {
                i = i + 1;
            }
        }
        if found {
            proof {
                assert(has_key_at(e, k, i as int));
                let c = choose|c: int| has_key_at(e, k, c);
                assert(c == i);
            }
            self.entries.set(i, (key, value));
            proof {
                assert(self@ =~= e.update(i as int, (k, v)));
            }
        } else {
            self.entries.push((key, value));
            proof {
                assert(!exists|c: int| has_key_at(e, k, c));
                assert(self@ =~= e.push((k, v)));
            }
        }
    }

    /// Applies the part `from..to` of `raw`.
    fn apply_range(&mut self, raw: &str, from: usize, to: usize)
        requires
            old(self).wf(),
            from <= to <= raw@.len(),
        ensures
            final(self).wf(),
            final(self)@ == apply_part(old(self)@, raw@.subrange(from as int, to as int)),
    {
        let (a, b) = trim_range(raw, from, to);
        let ghost t = raw@.subrange(a as int, b as int);
        let mut k: usize = a;
        while k < b && raw.get_char(k) != '='
            invariant
                a <= k <= b <= raw@.len(),
                forall|j: int| a <= j < k ==> raw@[j] != '=',
            decreases b - k,
        {
            k = k + 1;
        }
        if k == b {
            proof {
                assert forall|x: int| !first_eq(t, x) by {
                    if 0 <= x < t.len() {
                        assert(t[x] == raw@[a + x]);
                    }
                }
            }
            return;
        }
        proof {
            let x = (k - a) as int;
            assert forall|j: int| 0 <= j < x implies t[j] != '=' by {
                assert(t[j] == raw@[a + j]);
            }
            assert(first_eq(t, x));
            let c = choose|c: int| first_eq(t, c);
            if c < x {
                assert(t[c] == '=');
            }
            assert(c == x);
            assert(t.subrange(0, x) =~= raw@.subrange(a as int, k as int));
            assert(t.subrange(x + 1, t.len() as int) =~= raw@.subrange(k + 1, b as int));
        }
        let (ka, kb) = trim_range(raw, a, k);
        let (va, vb) = trim_range(raw, k + 1, b);
        let key = String::from_str(raw.substring_char(ka, kb));
        let value = String::from_str(raw.substring_char(va, vb));
        self.set(key, value);
    }

    /// Lays the `;`-separated `key=value` parts of `raw` over the entries,
    /// in order; parts without `=` are ignored.
    pub fn merge_raw(&mut self, raw: &str)
        requires
            old(self).wf(),
        ensures
            final(self).wf(),
            final(self)@ == merge_parts(old(self)@, split_semi(raw@)),
    {
        let ghost e0 = self@;
        let n = raw.unicode_len();
        let mut start: usize = 0;
        let mut i: usize = 0;
        proof {
            assert(raw@.subrange(0, 0) =~= Seq::<char>::empty());
            assert(split_semi(Seq::<char>::empty()).drop_last() =~= Seq::<Seq<char>>::empty());
        }
        while i < n
            invariant
                n == raw@.len(),
                start <= i <= n,
                self.wf(),
                split_semi(raw@.subrange(0, i as int)).len() >= 1,
                self@ == merge_parts(e0, split_semi(raw@.subrange(0, i as int)).drop_last()),
                split_semi(raw@.subrange(0, i as int)).last() == raw@.subrange(start as int, i as int),
            decreases n - i,
        {
            let ghost init = split_semi(raw@.subrange(0, i as int));
            proof {
                assert(raw@.subrange(0, i + 1).drop_last() =~= raw@.subrange(0, i as int));
            }
            if raw.get_char(i) == ';' {
                self.apply_range(raw, start, i);
                proof {
                    let next = split_semi(raw@.subrange(0, i + 1));
                    assert(next == init.push(Seq::empty()));
                    assert(next.drop_last() =~= init);
                    assert(init.drop_last().push(init.last()) =~= init);
                    assert(raw@.subrange(i + 1, i + 1) =~= Seq::<char>::empty());
                }
                start = i + 1;
            } else {
                proof {
                    let next = split_semi(raw@.subrange(0, i + 1));
                    assert(next.drop_last() =~= init.drop_last());
                    assert(next.last() =~= raw@.subrange(start as int, i + 1));
                }
            }
            i = i + 1;
        }
        self.apply_range(raw, start, n);
        proof {
            assert(raw@.subrange(0, n as int) =~= raw@);
            lemma_split_semi_len(raw@);
        }
    }

    /// The header value: `k=v` for each entry, joined by `; `.
    pub fn header(&self) -> (r: String)
        ensures
            r@ == cookie_line(self@),
    {
        let mut out = String::new();
        let mut i: usize = 0;
        proof {
            reveal_strlit("; ");
            reveal_strlit("=");
            assert(self@.subrange(0, 0) =~= Seq::<(Seq<char>, Seq<char>)>::empty());
        }
        while i < self.entries.len()
            invariant
                i <= self@.len(),
                self@.len() == self.entries@.len(),
                out@ == cookie_line(self@.subrange(0, i as int)),
                "; "@ == seq![';', ' '],
                "="@ == seq!['='],
            decreases self@.len() - i,
        {
            let ghost before = out@;
            if i > 0 {
                out.append("; ");
            }
            out.append(self.entries[i].0.as_str());
            out.append("=");
            out.append(self.entries[i].1.as_str());
            proof {
                let sub = self@.subrange(0, i + 1);
                assert(sub.drop_last() =~= self@.subrange(0, i as int));
                assert(sub.last() == (self.entries@[i as int].0@, self.entries@[i as int].1@));
                if i == 0 {
                    assert(out@ =~= pair_text(sub[0]));
                } else {
                    assert(out@ =~= before + seq![';', ' '] + pair_text(sub.last()));
                }
            }
            i = i + 1;
        }
        proof {
            assert(self@.subrange(0, i as int) =~= self@);
        }
        out
    }
}

/// The `Cookie` header for a raw cookie string: the built-in `nw=1` with the
/// raw string's `key=value` parts laid over it, last writer wins.
pub fn build_cookie(raw: &str) -> (r: String)
    ensures
        r@ == cookie_line(merged_cookie(raw@)),
{
    let mut jar = CookieJar::with_defaults();
    jar.merge_raw(raw);
    jar.header()
}

} // verus!
