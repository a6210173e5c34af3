//! Which smart-card readers to watch, and when a card counts as a new tap.
use vstd::prelude::*;
use crate::text::equal;

verus! {

/// `needle` occurs in `haystack` at index `i`.
pub open spec fn occurs_at(haystack: Seq<char>, needle: Seq<char>, i: int) -> bool {
    0 <= i && i + needle.len() <= haystack.len() && haystack.subrange(i, i + needle.len()) == needle
}

pub open spec fn contains_text(haystack: Seq<char>, needle: Seq<char>) -> bool {
    exists|i: int| occurs_at(haystack, needle, i)
}

/// Whether `needle` occurs in `haystack`.
pub fn contains(haystack: &str, needle: &str) -> (res: bool)
    ensures
        res == contains_text(haystack@, needle@),
{
    let n = haystack.unicode_len();
    let m = needle.unicode_len();
    if m > n {
        assert forall|i: int| !occurs_at(haystack@, needle@, i) by {}
        return false;
    }
    let mut i: usize = 0;
    while i <= n - m
        invariant
            n == haystack@.len(),
            m == needle@.len(),
            m <= n,
            i <= n - m + 1,
            forall|j: int| 0 <= j < i ==> !occurs_at(haystack@, needle@, j),
        decreases n - i,
    {
        let mut k: usize = 0;
        let mut same = true;
        while k < m
            invariant
                n == haystack@.len(),
                m == needle@.len(),
                i + m <= n,
                k <= m,
                same == (forall|q: int| 0 <= q < k ==> haystack@[i + q] == needle@[q]),
            decreases m - k,
        {
            if haystack.get_char(i + k) != needle.get_char(k) {
                same = false;
            }
            k = k + 1;
        }
        if same {
            assert(haystack@.subrange(i as int, i + m) =~= needle@);
            assert(occurs_at(haystack@, needle@, i as int));
            return true;
        }
        assert(!occurs_at(haystack@, needle@, i as int)) by {
            if occurs_at(haystack@, needle@, i as int) {
                let q = choose|q: int| 0 <= q < m && haystack@[i + q] != needle@[q];
                assert(haystack@.subrange(i as int, i + m)[q] == haystack@[i + q]);
            }
        }
        i = i + 1;
    }
    assert forall|j: int| !occurs_at(haystack@, needle@, j) by {
        if 0 <= j && j + m <= n {
            assert(j < i);
        }
    }
    false
}

/// Whether a reader that has appeared is to be watched: it is not watched
/// yet and is not the pseudo reader that Windows Hello creates.
pub fn should_watch(watched: &Vec<String>, name: &str) -> (res: bool)
    ensures
        res == (!watched@.map_values(|w: String| w@).contains(name@)
            && !contains_text(name@, "Windows Hello"@)),
{
    let ghost wv = watched@.map_values(|w: String| w@);
    let mut i: usize = 0;
    while i < watched.len()
        invariant
            i <= watched@.len(),
            wv == watched@.map_values(|w: String| w@),
            forall|j: int| 0 <= j < i ==> wv[j] != name@,
        decreases watched@.len() - i,
    {
        if equal(watched[i].as_str(), name) {
            assert(wv[i as int] == name@);
            return false;
        }
        i = i + 1;
    }
    !contains(name, "Windows Hello")
}

/// A reader's event: whether a card is now present, and (if not) whether
/// the reader is empty; with the reader's last known state (`None` when it
/// has none). The result says whether this is a new tap, and the state to
/// remember: a present card taps only if it was not present before.
pub open spec fn card_event_result(last: Option<bool>, present: bool, empty: bool) -> (bool, Option<bool>) {
    if present {
        (last != Some(true), Some(true))
    } else if empty {
        (false, Some(false))
    } else {
        (false, last)
    }
}

pub fn card_event(last: Option<bool>, present: bool, empty: bool) -> (res: (bool, Option<bool>))
    ensures
        res == card_event_result(last, present, empty),
{
    if present {
        let was_present = match last {
            Some(b) => b,
            None => false,
        };
        (!was_present, Some(true))
    } else if empty {
        (false, Some(false))
    } else {
        (false, last)
    }
}

/// A card left on a reader taps once: while it stays, later events are not
/// taps; once the reader has been empty, the next card taps again.
pub proof fn lemma_card_taps_once(last: Option<bool>, empty: bool, empty2: bool)
    ensures
        !card_event_result(card_event_result(last, true, empty).1, true, empty2).0,
        card_event_result(card_event_result(last, false, true).1, true, empty2).0,
{
}

} // verus!
