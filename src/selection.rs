//! Moving the selection cursor over a list of `n` tracks.
//!
//! A cursor is `None` only while nothing has been selected; every function
//! here leaves it alone on an empty list, and otherwise returns an index below
//! `n`.
use vstd::prelude::*;
use vstd::arithmetic::div_mod::{lemma_add_mod_noop, lemma_small_mod, lemma_mod_bound};

verus! {

/// How many positions a page step moves the cursor.
pub const PAGE: usize = 5;

/// `sel` is either unset or an index into a list of `n` tracks.
pub open spec fn cursor_ok(sel: Option<usize>, n: usize) -> bool {
    sel matches Some(i) ==> i < n
}

/// One step down, wrapping from the last track to the first.
pub open spec fn forward_spec(sel: Option<usize>, n: usize) -> Option<usize> {
    if n == 0 {
        sel
    } else {
        match sel {
            Some(i) => Some(((i + 1) % (n as int)) as usize),
            None => Some(0),
        }
    }
}

/// One step up, wrapping from the first track to the last.
pub open spec fn back_spec(sel: Option<usize>, n: usize) -> Option<usize> {
    if n == 0 {
        sel
    } else {
        match sel {
            Some(i) => Some(((i + n - 1) % (n as int)) as usize),
            None => Some((n - 1) as usize),
        }
    }
}

/// A page down: `PAGE` positions on, modulo `n`; only on lists longer than
/// a page.
pub open spec fn page_forward_spec(sel: Option<usize>, n: usize) -> Option<usize> {
    if n <= PAGE {
        sel
    } else {
        match sel {
            Some(i) => Some(((i + PAGE) % (n as int)) as usize),
            None => Some(0),
        }
    }
}

/// A page up: `PAGE` positions back, or to the last track when fewer than
/// `PAGE` tracks lie above; only on lists longer than a page.
pub open spec fn page_back_spec(sel: Option<usize>, n: usize) -> Option<usize> {
    if n <= PAGE {
        sel
    } else {
        match sel {
            Some(i) => if i >= PAGE {
                Some((i - PAGE) as usize)
            } else {
                Some((n - 1) as usize)
            },
            None => Some((n - 1) as usize),
        }
    }
}

/// The first track, if there is one.
pub open spec fn first_spec(sel: Option<usize>, n: usize) -> Option<usize> {
    if n == 0 { sel } else { Some(0) }
}

/// The last track, if there is one.
pub open spec fn last_spec(sel: Option<usize>, n: usize) -> Option<usize> {
    if n == 0 { sel } else { Some((n - 1) as usize) }
}

/// The track that a random number `draw` picks: `draw` modulo `n`.
pub open spec fn pick_spec(sel: Option<usize>, n: usize, draw: usize) -> Option<usize> {
    if n == 0 { sel } else { Some((draw % n) as usize) }
}

/// `k` steps down from `sel`.
pub open spec fn forward_times(sel: Option<usize>, n: usize, k: nat) -> Option<usize>
    decreases k,
{
    if k == 0 {
        sel
    } else {
        forward_spec(forward_times(sel, n, (k - 1) as nat), n)
    }
}

/// Moves the cursor one track down.
pub fn select_next(sel: Option<usize>, n: usize) -> (r: Option<usize>)
    requires
        cursor_ok(sel, n),
    ensures
        r == forward_spec(sel, n),
        cursor_ok(r, n),
{
    if n == 0 {
        sel
    } else {
        match sel {
            Some(i) => Some((i + 1) % n),
            None => Some(0),
        }
    }
}

/// Moves the cursor one track up.
pub fn select_prev(sel: Option<usize>, n: usize) -> (r: Option<usize>)
    requires
        cursor_ok(sel, n),
    ensures
        r == back_spec(sel, n),
        cursor_ok(r, n),
{
    if n == 0 {
        sel
    } else {
        match sel {
            Some(i) => if i == 0 {
                proof {
                    lemma_small_mod((n - 1) as nat, n as nat);
                }
                Some(n - 1)
            } else {
                proof {
                    lemma_small_mod((i - 1) as nat, n as nat);
                    assert((i + n - 1) % (n as int) == ((i - 1) + n) % (n as int));
                    vstd::arithmetic::div_mod::lemma_mod_add_multiples_vanish((i - 1) as int, n as int);
                }
                Some(i - 1)
            },
            None => Some(n - 1),
        }
    }
}

/// Moves the cursor a page down.
pub fn page_down(sel: Option<usize>, n: usize) -> (r: Option<usize>)
    requires
        cursor_ok(sel, n),
    ensures
        r == page_forward_spec(sel, n),
        cursor_ok(r, n),
{
    if n <= PAGE {
        sel
    } else {
        match sel {
            Some(i) => if i < n - PAGE {
                proof {
                    lemma_small_mod((i + PAGE) as nat, n as nat);
                }
                Some(i + PAGE)
            } else {
                proof {
                    let j = i + PAGE - n;
                    lemma_small_mod(j as nat, n as nat);
                    vstd::arithmetic::div_mod::lemma_mod_add_multiples_vanish(j as int, n as int);
                }
                Some(i - (n - PAGE))
            },
            None => Some(0),
        }
    }
}

/// Moves the cursor a page up.
pub fn page_up(sel: Option<usize>, n: usize) -> (r: Option<usize>)
    requires
        cursor_ok(sel, n),
    ensures
        r == page_back_spec(sel, n),
        cursor_ok(r, n),
{
    if n <= PAGE {
        sel
    } else {
        match sel {
            Some(i) => if i >= PAGE {
                Some(i - PAGE)
            } else {
                Some(n - 1)
            },
            None => Some(n - 1),
        }
    }
}

/// Moves the cursor to the first track.
pub fn select_first(sel: Option<usize>, n: usize) -> (r: Option<usize>)
    requires
        cursor_ok(sel, n),
    ensures
        r == first_spec(sel, n),
        cursor_ok(r, n),
{
    if n == 0 { sel } else { Some(0) }
}

/// Moves the cursor to the last track.
pub fn select_last(sel: Option<usize>, n: usize) -> (r: Option<usize>)
    requires
        cursor_ok(sel, n),
    ensures
        r == last_spec(sel, n),
        cursor_ok(r, n),
{
    if n == 0 { sel } else { Some(n - 1) }
}

/// Moves the cursor to the track that the random number `draw` picks.
pub fn select_drawn(sel: Option<usize>, n: usize, draw: usize) -> (r: Option<usize>)
    requires
        cursor_ok(sel, n),
    ensures
        r == pick_spec(sel, n, draw),
        cursor_ok(r, n),
{
    if n == 0 { sel } else { Some(draw % n) }
}

/// Relies on `rand::random::<usize>`: a number from the thread-local generator,
/// of which nothing is known.
#[verifier::external_body]
pub(crate) fn random_draw() -> (r: usize) {
    rand::random::<usize>()
}

/// `k` steps down from track `i` reach track `(i + k) mod n`.
pub proof fn lemma_forward_times(i: usize, n: usize, k: nat)
    requires
        i < n,
    ensures
        forward_times(Some(i), n, k) == Some(((i + k) % (n as int)) as usize),
    decreases k,
{
    if k == 0 {
        lemma_small_mod(i as nat, n as nat);
    } else {
        lemma_forward_times(i, n, (k - 1) as nat);
        let j = (i + k - 1) % (n as int);
        lemma_mod_bound((i + k - 1) as int, n as int);
        lemma_add_mod_noop((i + k - 1) as int, 1, n as int);
        if n > 1 {
            lemma_small_mod(1, n as nat);
        } else {
            assert(j == 0);
            assert(((i + k) % (n as int)) == 0);
        }
        assert((j + 1) % (n as int) == (i + k) % (n as int));
    }
}

/// On a list of `n >= 1` tracks, `n` steps down from any track come back to it.
pub proof fn lemma_forward_full_cycle(i: usize, n: usize)
    requires
        i < n,
    ensures
        forward_times(Some(i), n, n as nat) == Some(i),
{
    lemma_forward_times(i, n, n as nat);
    vstd::arithmetic::div_mod::lemma_mod_add_multiples_vanish(i as int, n as int);
    lemma_small_mod(i as nat, n as nat);
}

/// A step up followed by a step down leaves a valid cursor where it was.
pub proof fn lemma_back_then_forward(i: usize, n: usize)
    requires
        i < n,
    ensures
        forward_spec(back_spec(Some(i), n), n) == Some(i),
{
    let j = (i + n - 1) % (n as int);
    lemma_mod_bound((i + n - 1) as int, n as int);
    if i == 0 {
        lemma_small_mod((n - 1) as nat, n as nat);
        vstd::arithmetic::div_mod::lemma_mod_self_0(n as int);
    } else {
        vstd::arithmetic::div_mod::lemma_mod_add_multiples_vanish((i - 1) as int, n as int);
        lemma_small_mod((i - 1) as nat, n as nat);
        lemma_small_mod(i as nat, n as nat);
    }
}

} // verus!
