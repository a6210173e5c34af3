//! String helpers shared by the other modules.
use vstd::prelude::*;

verus! {

/// `String::push` appends one character.
pub assume_specification[ std::string::String::push ](s: &mut String, ch: char)
    ensures
        final(s)@ == old(s)@.push(ch),
;

/// The pieces of `s` between the occurrences of `sep`, as `str::split`
/// yields them (there is always at least one piece, possibly empty).
pub open spec fn split_all(s: Seq<char>, sep: char) -> Seq<Seq<char>>
    decreases s.len(),
{
    if s.len() == 0 {
        seq![Seq::<char>::empty()]
    } else {
        let r = split_all(s.drop_last(), sep);
        if s.last() == sep {
            r.push(Seq::<char>::empty())
        } else {
            r.update(r.len() - 1, r.last().push(s.last()))
        }
    }
}

/// `c` does not occur in `s`.
pub open spec fn lacks(s: Seq<char>, c: char) -> bool {
    forall|i: int| 0 <= i < s.len() ==> s[i] != c
}

pub proof fn lemma_split_all_nonempty(s: Seq<char>, sep: char)
    ensures
        split_all(s, sep).len() >= 1,
    decreases s.len(),
{
    if s.len() > 0 {
        lemma_split_all_nonempty(s.drop_last(), sep);
    }
}

/// Text without the separator extends the last piece.
pub proof fn lemma_split_all_extend(a: Seq<char>, b: Seq<char>, sep: char)
    requires
        lacks(b, sep),
    ensures
        split_all(a + b, sep).len() == split_all(a, sep).len(),
        split_all(a + b, sep) == split_all(a, sep).update(
            split_all(a, sep).len() - 1,
            split_all(a, sep).last() + b,
        ),
    decreases b.len(),
{
    lemma_split_all_nonempty(a, sep);
    if b.len() == 0 {
        assert(a + b == a);
        assert(split_all(a, sep).last() + b == split_all(a, sep).last());
        assert(split_all(a, sep).update(split_all(a, sep).len() - 1, split_all(a, sep).last())
            == split_all(a, sep));
    } else {
        let b0 = b.drop_last();
        assert(lacks(b0, sep));
        lemma_split_all_extend(a, b0, sep);
        assert((a + b).drop_last() == a + b0);
        assert((a + b).last() == b.last());
        assert(b.last() == b[b.len() - 1]);
        assert(b.last() != sep);
        let sa = split_all(a, sep);
        let r = split_all(a + b0, sep);
        assert(r.last() == sa.last() + b0);
        assert(sa.last() + b0 + seq![b.last()] =~= sa.last() + b);
        assert(split_all(a + b, sep) == r.update(r.len() - 1, r.last().push(b.last())));
        assert(r.last().push(b.last()) =~= sa.last() + b);
        assert(split_all(a + b, sep) =~= sa.update(sa.len() - 1, sa.last() + b));
    }
}

/// A separator starts a new piece.
pub proof fn lemma_split_all_sep(a: Seq<char>, sep: char)
    ensures
        split_all(a.push(sep), sep) == split_all(a, sep).push(Seq::<char>::empty()),
{
    assert(a.push(sep).drop_last() == a);
}

/// Text without the separator is a single piece.
pub proof fn lemma_split_all_single(b: Seq<char>, sep: char)
    requires
        lacks(b, sep),
    ensures
        split_all(b, sep) == seq![b],
{
    lemma_split_all_extend(Seq::<char>::empty(), b, sep);
    assert(Seq::<char>::empty() + b == b);
    assert(split_all(Seq::<char>::empty(), sep) == seq![Seq::<char>::empty()]);
}

/// Two pieces joined by one separator split back into those pieces.
pub proof fn lemma_split_all_two(a: Seq<char>, b: Seq<char>, sep: char)
    requires
        lacks(a, sep),
        lacks(b, sep),
    ensures
        split_all(a + seq![sep] + b, sep) == seq![a, b],
{
    lemma_split_all_single(a, sep);
    lemma_split_all_sep(a, sep);
    assert(a + seq![sep] == a.push(sep));
    lemma_split_all_extend(a.push(sep), b, sep);
    assert(seq![a].push(Seq::<char>::empty()) == seq![a, Seq::<char>::empty()]);
    assert(Seq::<char>::empty() + b == b);
    assert(seq![a, Seq::<char>::empty()].update(1, b) == seq![a, b]);
}

/// The pieces of `s` between the occurrences of `sep`, in order.
pub fn split(s: &str, sep: char) -> (res: Vec<String>)
    ensures
        res@.map_values(|p: String| p@) == split_all(s@, sep),
{
    let n = s.unicode_len();
    let mut done: Vec<String> = Vec::new();
    let mut cur = String::new();
    let mut i: usize = 0;
    while i < n
        invariant
            n == s@.len(),
            i <= n,
            done@.map_values(|p: String| p@).push(cur@) == split_all(s@.take(i as int), sep),
        decreases n - i,
    {
        let c = s.get_char(i);
        let ghost before = done@.map_values(|p: String| p@).push(cur@);
        assert(s@.take(i + 1).drop_last() == s@.take(i as int));
        assert(s@.take(i + 1).last() == c);
        if c == sep {
            let piece = cur;
            done.push(piece);
            cur = String::new();
            assert(done@.map_values(|p: String| p@) == before);
        } else {
            cur.push(c);
            assert(done@.map_values(|p: String| p@).push(cur@) == before.update(before.len() - 1, before.last().push(c)));
        }
        i = i + 1;
    }
    done.push(cur);
    assert(s@.take(n as int) == s@);
    done
}

/// ASCII lower case of a character; others are unchanged.
pub open spec fn ascii_lower(c: char) -> char {
    if 'A' <= c && c <= 'Z' {
        ((c as int) + 32) as char
    } else {
        c
    }
}

/// Equality ignoring ASCII case, as `str::eq_ignore_ascii_case`.
pub open spec fn eq_ignore_ascii_case(a: Seq<char>, b: Seq<char>) -> bool {
    a.len() == b.len() && forall|i: int| 0 <= i < a.len() ==> ascii_lower(a[i]) == ascii_lower(b[i])
}

fn lower_char(c: char) -> (res: char)
    ensures
        res == ascii_lower(c),
{
    if 'A' <= c && c <= 'Z' {
        let v = (c as u32) + 32;
        assert(v < 0xD800);
        char_from_ascii_value(v)
    } else {
        c
    }
}

fn char_from_ascii_value(v: u32) -> (res: char)
    requires
        v < 128,
    ensures
        res as u32 == v,
{
    let b = v as u8;
    b as char
}

/// Whether two strings are equal ignoring ASCII case.
pub fn equal_ignoring_ascii_case(a: &str, b: &str) -> (res: bool)
    ensures
        res == eq_ignore_ascii_case(a@, b@),
{
    let n = a.unicode_len();
    if n != b.unicode_len() {
        return false;
    }
    let mut i: usize = 0;
    while i < n
        invariant
            n == a@.len(),
            n == b@.len(),
            i <= n,
            forall|j: int| 0 <= j < i ==> ascii_lower(a@[j]) == ascii_lower(b@[j]),
        decreases n - i,
    {
        if lower_char(a.get_char(i)) != lower_char(b.get_char(i)) {
            return false;
        }
        i = i + 1;
    }
    true
}

/// Whether two strings are equal.
pub fn equal(a: &str, b: &str) -> (res: bool)
    ensures
        res == (a@ == b@),
{
    let n = a.unicode_len();
    if n != b.unicode_len() {
        return false;
    }
    let mut i: usize = 0;
    while i < n
        invariant
            n == a@.len(),
            n == b@.len(),
            i <= n,
            forall|j: int| 0 <= j < i ==> a@[j] == b@[j],
        decreases n - i,
    {
        if a.get_char(i) != b.get_char(i) {
            return false;
        }
        i = i + 1;
    }
    assert(a@ =~= b@);
    true
}

pub fn push_str(s: &mut String, t: &str)
    ensures
        final(s)@ == old(s)@ + t@,
{
    s.append(t);
}

} // verus!
