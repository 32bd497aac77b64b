use vstd::prelude::*;
use vstd::string::*;

verus! {

/// Character-wise equality of two strings.
pub fn same_text(a: &str, b: &str) -> (r: bool)
    ensures
        r == (a@ == b@),
{
    let n = a.unicode_len();
    if n != b.unicode_len() {
        return false;
    }
    let mut i: usize = 0;
    while i < n
        invariant
            n == a@.len(),
            n == b@.len(),
            i <= n,
            forall|j: int| 0 <= j < i ==> a@[j] == b@[j],
        decreases n - i,
    {
        if a.get_char(i) != b.get_char(i) {
            return false;
        }
        i = i + 1;
    }
    assert(a@ =~= b@);
    true
}


/// Whether `a` ends with `b`.
pub open spec fn ends_with(a: Seq<char>, b: Seq<char>) -> bool {
    b.len() <= a.len() && a.subrange(a.len() - b.len(), a.len() as int) == b
}

/// Character-wise suffix test.
pub fn ends_with_text(a: &str, b: &str) -> (r: bool)
    ensures
        r == ends_with(a@, b@),
{
    let n = a.unicode_len();
    let m = b.unicode_len();
    if m > n {
        return false;
    }
    let d = n - m;
    let mut i: usize = 0;
    while i < m
        invariant
            n == a@.len(),
            m == b@.len(),
            d + m == n,
            i <= m,
            forall|j: int| 0 <= j < i ==> a@[d + j] == b@[j],
        decreases m - i,
    {
        if a.get_char(d + i) != b.get_char(i) {
            assert(a@.subrange(d as int, n as int)[i as int] != b@[i as int]);
            return false;
        }
        i = i + 1;
    }
    assert(a@.subrange(d as int, n as int) =~= b@);
    true
}

/// Characters that separate the entries of an access list.
pub open spec fn is_separator(c: char) -> bool {
    c == ' ' || c == '\t' || c == '\n' || c == '\r' || c == ','
}

/// The entries of a list text: its maximal runs of non-separator characters,
/// in order.
pub open spec fn entries(s: Seq<char>) -> Seq<Seq<char>>
    decreases s.len(),
{
    if s.len() == 0 {
        Seq::empty()
    } else {
        let prev = entries(s.drop_last());
        let c = s.last();
        if is_separator(c) {
            prev
        } else if s.len() >= 2 && !is_separator(s[s.len() - 2]) {
            prev.update(prev.len() - 1, prev.last().push(c))
        } else {
            prev.push(seq![c])
        }
    }
}

/// Splits a list text into its entries.
pub fn split_entries(s: &str) -> (r: Vec<String>)
    ensures
        r@.map_values(|e: String| e@) == entries(s@),
{
    let n = s.unicode_len();
    let mut out: Vec<String> = Vec::new();
    let mut start: usize = 0;
    let mut in_entry = false;
    let mut i: usize = 0;
    while i < n
        invariant
            n == s@.len(),
            i <= n,
            !in_entry ==> out@.map_values(|e: String| e@) == entries(s@.take(i as int)),
            !in_entry ==> (i == 0 || is_separator(s@[i - 1])),
            in_entry ==> start < i,
            in_entry ==> !is_separator(s@[i - 1]),
            in_entry ==> out@.map_values(|e: String| e@).push(s@.subrange(start as int, i as int))
                == entries(s@.take(i as int)),
        decreases n - i,
    {
        let c = s.get_char(i);
        let ghost before = out@.map_values(|e: String| e@);
        proof {
            assert(s@.take(i + 1).drop_last() =~= s@.take(i as int));
            assert(s@.take(i + 1).last() == c);
            if i > 0 {
                assert(s@.take(i + 1)[i - 1] == s@[i - 1]);
            }
        }
        if c == ' ' || c == '\t' || c == '\n' || c == '\r' || c == ',' {
            if in_entry {
                let e = String::from_str(s.substring_char(start, i));
                out.push(e);
                assert(out@.map_values(|e: String| e@) =~= before.push(
                    s@.subrange(start as int, i as int),
                ));
            }
            in_entry = false;
        } else {
            if in_entry {
                assert(s@.subrange(start as int, i as int).push(c) =~= s@.subrange(
                    start as int,
                    i + 1,
                ));
                assert(before.push(s@.subrange(start as int, i as int)).update(
                    before.len() as int,
                    s@.subrange(start as int, i + 1),
                ) =~= before.push(s@.subrange(start as int, i + 1)));
            } else {
                start = i;
                in_entry = true;
                assert(s@.subrange(start as int, i + 1) =~= seq![c]);
            }
        }
        i = i + 1;
    }
    assert(s@.take(n as int) =~= s@);
    if in_entry {
        let ghost before = out@.map_values(|e: String| e@);
        let e = String::from_str(s.substring_char(start, n));
        out.push(e);
        assert(out@.map_values(|e: String| e@) =~= before.push(
            s@.subrange(start as int, n as int),
        ));
    }
    out
}

} // verus!
