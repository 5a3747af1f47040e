//! Case-insensitive substring search over the track list, scanning cyclically
//! from the track after the selected one.
use vstd::prelude::*;
use vstd::string::StrSliceExecFns;
use vstd::arithmetic::div_mod::{lemma_add_mod_noop, lemma_small_mod, lemma_mod_bound, lemma_mod_self_0};

verus! {

/// The lower-case form of a string, as `str::to_lowercase` computes it.
pub uninterp spec fn lower_of(s: Seq<char>) -> Seq<char>;

/// Relies on `str::to_lowercase`: the result depends on the characters alone,
/// and the empty string stays empty.
#[verifier::external_body]
pub(crate) fn lowercase(s: &str) -> (r: String)
    ensures
        r@ == lower_of(s@),
        s@.len() == 0 ==> r@.len() == 0,
{
    s.to_lowercase()
}

/// `needle` occurs in `hay` as a contiguous run.
pub open spec fn contains_seq(hay: Seq<char>, needle: Seq<char>) -> bool {
    exists|k: int|
        0 <= k && k + needle.len() <= hay.len() && #[trigger] hay.subrange(k, k + needle.len())
            == needle
}

/// The first index, among the `n - k` that follow index `after` cyclically
/// starting with the `k`-th of them, whose entry contains `q`.
pub open spec fn scan_from(entries: Seq<Seq<char>>, after: int, q: Seq<char>, k: nat) -> Option<int>
    decreases entries.len() - k,
{
    if k >= entries.len() {
        None
    } else {
        let j = (after + 1 + k) % (entries.len() as int);
        if contains_seq(entries[j], q) {
            Some(j)
        } else {
            scan_from(entries, after, q, k + 1)
        }
    }
}

/// The first entry containing `q`, scanning cyclically from the one after
/// index `after`; `after` itself comes last. `None` when no entry contains `q`.
pub open spec fn first_match_after(entries: Seq<Seq<char>>, after: int, q: Seq<char>) -> Option<int> {
    scan_from(entries, after, q, 0)
}

/// The characters of `s`, one per element.
pub fn chars_of(s: &str) -> (r: Vec<char>)
    ensures
        r@ == s@,
{
    let n = s.unicode_len();
    let mut r: Vec<char> = Vec::new();
    let mut i: usize = 0;
    while i < n
        invariant
            n == s@.len(),
            i <= n,
            r@ == s@.subrange(0, i as int),
        decreases n - i,
    {
        r.push(s.get_char(i));
        i = i + 1;
        assert(r@ =~= s@.subrange(0, i as int));
    }
    assert(s@.subrange(0, n as int) =~= s@);
    r
}

/// Decides whether `needle` occurs in `hay`.
pub fn contains_chars(hay: &Vec<char>, needle: &Vec<char>) -> (r: bool)
    ensures
        r == contains_seq(hay@, needle@),
{
    let m = needle.len();
    if m > hay.len() {
        return false;
    }
    let last = hay.len() - m;
    let mut k: usize = 0;
    while k <= last
        invariant
            m == needle@.len(),
            last + m == hay@.len(),
            k <= last,
            hay@.len() <= usize::MAX,
            forall|k2: int| 0 <= k2 < k ==> #[trigger] hay@.subrange(k2, k2 + m) != needle@,
        decreases last - k,
    {
        let mut t: usize = 0;
        while t < m
            invariant
                m == needle@.len(),
                last + m == hay@.len(),
                k <= last,
                t <= m,
                hay@.len() <= usize::MAX,
                forall|t2: int| 0 <= t2 < t ==> hay@[k + t2] == needle@[t2],
            ensures
                t <= m,
                forall|t2: int| 0 <= t2 < t ==> hay@[k + t2] == needle@[t2],
                t < m ==> hay@[k + t] != needle@[t as int],
            decreases m - t,
        {
            if hay[k + t] != needle[t] {
                break;
            }
            t = t + 1;
        }
        if t == m {
            assert(hay@.subrange(k as int, k + m) =~= needle@);
            return true;
        }
        assert(hay@.subrange(k as int, k + m)[t as int] != needle@[t as int]);
        if k == last {
            assert forall|k2: int| 0 <= k2 && k2 + needle@.len() <= hay@.len() implies #[trigger] hay@.subrange(k2, k2 + needle@.len()) != needle@ by {
                if k2 < k {
                    assert(hay@.subrange(k2, k2 + m) != needle@);
                }
            }
            return false;
        }
        k = k + 1;
    }
    false
}

/// Finds the first entry of `entries` that contains `q`, scanning cyclically
/// from the one after index `after`.
pub fn find_match(entries: &Vec<Vec<char>>, after: usize, q: &Vec<char>) -> (r: Option<usize>)
    requires
        after < entries@.len(),
    ensures
        r == (match first_match_after(entries@.map_values(|e: Vec<char>| e@), after as int, q@) {
            Some(j) => Some(j as usize),
            None => None::<usize>,
        }),
        r matches Some(j) ==> j < entries@.len(),
{
    let ghost es = entries@.map_values(|e: Vec<char>| e@);
    let n = entries.len();
    let mut j: usize = if after + 1 == n { 0 } else { after + 1 };
    proof {
        if after + 1 == n {
            lemma_mod_self_0(n as int);
        } else {
            lemma_small_mod((after + 1) as nat, n as nat);
        }
    }
    let mut k: usize = 0;
    while k < n
        invariant
            n == entries@.len(),
            es == entries@.map_values(|e: Vec<char>| e@),
            after < n,
            k <= n,
            j < n,
            j == (after + 1 + k) % (n as int),
            first_match_after(es, after as int, q@) == scan_from(es, after as int, q@, k as nat),
        decreases n - k,
    {
        if contains_chars(&entries[j], q) {
            return Some(j);
        }
        proof {
            lemma_add_mod_noop(after + 1 + k, 1, n as int);
            if n > 1 {
                lemma_small_mod(1, n as nat);
            }
            if j + 1 < n {
                lemma_small_mod((j + 1) as nat, n as nat);
            } else {
                lemma_mod_self_0(n as int);
            }
        }
        j = if j + 1 == n { 0 } else { j + 1 };
        k = k + 1;
    }
    None
}

/// Every entry contains the empty query, so a search for it selects the entry
/// right after index `after`, cyclically.
pub proof fn lemma_empty_query_selects_next(entries: Seq<Seq<char>>, after: int, q: Seq<char>)
    requires
        0 <= after < entries.len(),
        q.len() == 0,
    ensures
        first_match_after(entries, after, q) == Some((after + 1) % (entries.len() as int)),
{
    let j = (after + 1) % (entries.len() as int);
    lemma_mod_bound(after + 1, entries.len() as int);
    assert(entries[j].subrange(0int, 0int + q.len()) =~= q);
}

} // verus!
