//! The track list: the paths of a directory listing, sorted once when the
//! session starts and fixed from then on.
use vstd::prelude::*;
use vstd::string::StrSliceExecFns;
use vstd::seq_lib::{to_multiset_build, to_multiset_insert};
use vstd::string::StringExecFns;
use crate::search::{chars_of, find_match, first_match_after, lower_of, lowercase};

verus! {

/// Lexicographic order on character sequences: `a` comes no later than `b`
/// when it is a prefix of `b`, or when at the first position where they differ
/// the character of `a` is the smaller one. On strings this is the order of
/// their UTF-8 bytes.
pub open spec fn lex_le(a: Seq<char>, b: Seq<char>) -> bool
    decreases a.len(),
{
    if a.len() == 0 {
        true
    } else if b.len() == 0 {
        false
    } else if a[0] != b[0] {
        a[0] < b[0]
    } else {
        lex_le(a.drop_first(), b.drop_first())
    }
}

/// The URI under which the playback engine knows the file at `path`.
pub open spec fn uri_of(path: Seq<char>) -> Seq<char> {
    seq!['f', 'i', 'l', 'e', ':', '/', '/'] + path
}

/// The lower-case forms of the entries of `t`.
pub open spec fn folded(t: Seq<Seq<char>>) -> Seq<Seq<char>> {
    t.map_values(|p: Seq<char>| lower_of(p))
}

/// The first index in `t` whose URI is `uri`, if any.
pub open spec fn index_of_uri(t: Seq<Seq<char>>, uri: Seq<char>) -> Option<int> {
    if exists|i: int| 0 <= i < t.len() && uri_of(#[trigger] t[i]) == uri {
        Some(choose|i: int| 0 <= i < t.len() && uri_of(#[trigger] t[i]) == uri
            && forall|k: int| 0 <= k < i ==> uri_of(#[trigger] t[k]) != uri)
    } else {
        None
    }
}

/// Every element comes no later than the ones after it.
pub open spec fn sorted(s: Seq<Seq<char>>) -> bool {
    forall|i: int, j: int| 0 <= i < j < s.len() ==> lex_le(#[trigger] s[i], #[trigger] s[j])
}

/// The character sequences of a sequence of strings.
pub open spec fn views(v: Seq<String>) -> Seq<Seq<char>> {
    v.map_values(|s: String| s@)
}

/// Any two sequences are ordered one way or the other.
pub proof fn lemma_lex_total(a: Seq<char>, b: Seq<char>)
    ensures
        lex_le(a, b) || lex_le(b, a),
    decreases a.len(),
{
    if a.len() > 0 && b.len() > 0 && a[0] == b[0] {
        lemma_lex_total(a.drop_first(), b.drop_first());
    }
}

/// The order is transitive.
pub proof fn lemma_lex_trans(a: Seq<char>, b: Seq<char>, c: Seq<char>)
    requires
        lex_le(a, b),
        lex_le(b, c),
    ensures
        lex_le(a, c),
    decreases a.len(),
{
    if a.len() > 0 && b.len() > 0 && c.len() > 0 && a[0] == b[0] && b[0] == c[0] {
        lemma_lex_trans(a.drop_first(), b.drop_first(), c.drop_first());
    }
}

/// Decides `lex_le(a@, b@)`.
pub fn path_le(a: &String, b: &String) -> (r: bool)
    ensures
        r == lex_le(a@, b@),
{
    let la = a.as_str().unicode_len();
    let lb = b.as_str().unicode_len();
    let mut i: usize = 0;
    assert(a@.subrange(0, la as int) =~= a@);
    assert(b@.subrange(0, lb as int) =~= b@);
    while i < la && i < lb
        invariant
            la == a@.len(),
            lb == b@.len(),
            i <= la,
            i <= lb,
            lex_le(a@, b@) == lex_le(a@.subrange(i as int, la as int), b@.subrange(i as int, lb as int)),
        decreases la - i,
    {
        let ca = a.as_str().get_char(i);
        let cb = b.as_str().get_char(i);
        let ghost sa = a@.subrange(i as int, la as int);
        let ghost sb = b@.subrange(i as int, lb as int);
        assert(sa[0] == ca && sb[0] == cb);
        if ca != cb {
            return ca < cb;
        }
        assert(sa.drop_first() =~= a@.subrange(i + 1, la as int));
        assert(sb.drop_first() =~= b@.subrange(i + 1, lb as int));
        i = i + 1;
    }
    i == la
}

/// Sorts a directory listing into lexicographic order of the paths.
pub fn sort_paths(listing: Vec<String>) -> (r: Vec<String>)
    ensures
        sorted(views(r@)),
        views(r@).to_multiset() == views(listing@).to_multiset(),
{
    let mut r: Vec<String> = Vec::new();
    let mut i: usize = 0;
    assert(views(r@) =~= views(listing@.subrange(0, 0)));
    while i < listing.len()
        invariant
            i <= listing@.len(),
            sorted(views(r@)),
            views(r@).to_multiset() == views(listing@.subrange(0, i as int)).to_multiset(),
        decreases listing@.len() - i,
    {
        let x = listing[i].clone();
        let mut p: usize = 0;
        while p < r.len() && path_le(&r[p], &x)
            invariant
                p <= r@.len(),
                forall|k: int| 0 <= k < p ==> lex_le(#[trigger] r@[k]@, x@),
            decreases r@.len() - p,
        {
            p = p + 1;
        }
        let ghost old_r = r@;
        proof {
            if p < r@.len() {
                lemma_lex_total(r@[p as int]@, x@);
                assert forall|k: int| p <= k < old_r.len() implies lex_le(x@, #[trigger] old_r[k]@) by {
                    if k > p {
                        assert(lex_le(views(old_r)[p as int], views(old_r)[k]));
                        lemma_lex_trans(x@, old_r[p as int]@, old_r[k]@);
                    }
                }
            }
        }
        r.insert(p, x);
        proof {
            assert(views(r@) =~= views(old_r).insert(p as int, x@));
            to_multiset_insert(views(old_r), p as int, x@);
            assert(views(listing@.subrange(0, i + 1)) =~= views(listing@.subrange(0, i as int)).push(x@));
            to_multiset_build(views(listing@.subrange(0, i as int)), x@);
            assert forall|a: int, b: int| 0 <= a < b < r@.len() implies lex_le(
                #[trigger] views(r@)[a],
                #[trigger] views(r@)[b],
            ) by {
                if b < p {
                    assert(lex_le(views(old_r)[a], views(old_r)[b]));
                } else if b == p {
                } else if a < p {
                    assert(lex_le(old_r[a]@, x@));
                    assert(lex_le(x@, old_r[b - 1]@));
                    lemma_lex_trans(old_r[a]@, x@, old_r[b - 1]@);
                } else if a == p {
                } else {
                    assert(lex_le(views(old_r)[a - 1], views(old_r)[b - 1]));
                }
            }
        }
        i = i + 1;
    }
    assert(listing@.subrange(0, i as int) =~= listing@);
    r
}

/// Builds the URI of the file at `path`.
pub fn file_uri(path: &str) -> (r: String)
    ensures
        r@ == uri_of(path@),
{
    let mut r = String::from_str("file://");
    proof {
        reveal_strlit("file://");
    }
    r.append(path);
    assert(r@ =~= uri_of(path@));
    r
}

/// The tracks of a session: paths in lexicographic order, each beside its
/// lower-case form for searching.
pub struct TrackList {
    paths: Vec<String>,
    lowered: Vec<Vec<char>>,
}

impl View for TrackList {
    type V = Seq<Seq<char>>;

    closed spec fn view(&self) -> Seq<Seq<char>> {
        views(self.paths@)
    }
}

impl TrackList {
    /// Each path is stored beside its lower-case form.
    pub closed spec fn wf(&self) -> bool {
        &&& self.lowered@.len() == self.paths@.len()
        &&& forall|i: int| 0 <= i < self.paths@.len() ==> #[trigger] self.lowered@[i]@ == lower_of(self.paths@[i]@)
    }

    /// The track list of a directory listing: its paths, sorted.
    pub fn from_listing(listing: Vec<String>) -> (r: TrackList)
        ensures
            r.wf(),
            sorted(r@),
            r@.to_multiset() == views(listing@).to_multiset(),
    {
        let paths = sort_paths(listing);
        let mut lowered: Vec<Vec<char>> = Vec::new();
        let mut i: usize = 0;
        while i < paths.len()
            invariant
                i <= paths@.len(),
                lowered@.len() == i,
                forall|k: int| 0 <= k < i ==> #[trigger] lowered@[k]@ == lower_of(paths@[k]@),
            decreases paths@.len() - i,
        {
            let low = lowercase(paths[i].as_str());
            lowered.push(chars_of(low.as_str()));
            i = i + 1;
        }
        TrackList { paths, lowered }
    }

    /// The number of tracks.
    pub fn len(&self) -> (r: usize)
        ensures
            r == self@.len(),
    {
        self.paths.len()
    }

    /// The path of track `i`.
    pub fn path(&self, i: usize) -> (r: &String)
        requires
            i < self@.len(),
        ensures
            r@ == self@[i as int],
    {
        &self.paths[i]
    }

    /// The URI of track `i`.
    pub fn uri(&self, i: usize) -> (r: String)
        requires
            i < self@.len(),
        ensures
            r@ == uri_of(self@[i as int]),
    {
        file_uri(self.paths[i].as_str())
    }

    /// The first track whose URI is `uri`, if any.
    pub fn position_of_uri(&self, uri: &String) -> (r: Option<usize>)
        ensures
            index_of_uri(self@, uri@) == (match r {
                Some(i) => Some(i as int),
                None => None::<int>,
            }),
            r matches Some(i) ==> i < self@.len() && uri_of(self@[i as int]) == uri@,
    {
        let mut i: usize = 0;
        while i < self.paths.len()
            invariant
                i <= self@.len(),
                self@.len() == self.paths@.len(),
                forall|k: int| 0 <= k < i ==> uri_of(#[trigger] self@[k]) != uri@,
            decreases self@.len() - i,
        {
            let u = self.uri(i);
            if u == *uri {
                proof {
                    let t = self@;
                    assert(0 <= i < t.len() && uri_of(t[i as int]) == uri@);
                    let c = choose|c: int| 0 <= c < t.len() && uri_of(#[trigger] t[c]) == uri@
                        && forall|k: int| 0 <= k < c ==> uri_of(#[trigger] t[k]) != uri@;
                    if c < i {
                    } else if c > i {
                        assert(uri_of(t[i as int]) != uri@);
                    }
                }
                return Some(i);
            }
            i = i + 1;
        }
        None
    }

    /// The first track after track `after`, cyclically, whose path contains
    /// `query` when both are taken in lower case; `after` itself comes last.
    pub fn next_match(&self, after: usize, query: &String) -> (r: Option<usize>)
        requires
            self.wf(),
            after < self@.len(),
        ensures
            r == (match first_match_after(folded(self@), after as int, lower_of(query@)) {
                Some(j) => Some(j as usize),
                None => None::<usize>,
            }),
            r matches Some(j) ==> j < self@.len(),
            query@.len() == 0 ==> r == Some(((after + 1) % (self@.len() as int)) as usize),
    {
        let low = lowercase(query.as_str());
        let q = chars_of(low.as_str());
        let r = find_match(&self.lowered, after, &q);
        proof {
            assert(self.lowered@.map_values(|e: Vec<char>| e@) =~= folded(self@));
            if query@.len() == 0 {
                crate::search::lemma_empty_query_selects_next(folded(self@), after as int, q@);
            }
        }
        r
    }
}

} // verus!
