use vstd::prelude::*;
use vstd::string::*;

verus! {

/// The index of the first `c` in `s`, if any.
pub open spec fn find_first(s: Seq<char>, c: char) -> Option<int>
    decreases s.len(),
{
    if s.len() == 0 {
        None
    } else {
        match find_first(s.drop_last(), c) {
            Some(i) => Some(i),
            None => if s.last() == c {
                Some(s.len() - 1)
            } else {
                None
            },
        }
    }
}

/// The index of the last `c` in `s`, if any.
pub open spec fn find_last(s: Seq<char>, c: char) -> Option<int>
    decreases s.len(),
{
    if s.len() == 0 {
        None
    } else if s.last() == c {
        Some(s.len() - 1)
    } else {
        find_last(s.drop_last(), c)
    }
}

/// A first occurrence in a prefix is the first occurrence in the whole sequence.
pub proof fn lemma_find_first_prefix(s: Seq<char>, k: int, c: char)
    requires
        0 <= k <= s.len(),
        find_first(s.subrange(0, k), c) is Some,
    ensures
        find_first(s, c) == find_first(s.subrange(0, k), c),
    decreases s.len() - k,
{
    if k == s.len() {
        assert(s.subrange(0, k) =~= s);
    } else {
        let t = s.drop_last();
        assert(t.subrange(0, k) =~= s.subrange(0, k));
        lemma_find_first_prefix(t, k, c);
    }
}

/// What `find_first` says of the indices it returns.
pub proof fn lemma_find_first_props(s: Seq<char>, c: char)
    ensures
        match find_first(s, c) {
            Some(i) => 0 <= i < s.len() && s[i] == c && forall|j: int| 0 <= j < i ==> s[j] != c,
            None => forall|j: int| 0 <= j < s.len() ==> s[j] != c,
        },
    decreases s.len(),
{
    if s.len() > 0 {
        let t = s.drop_last();
        lemma_find_first_props(t, c);
        assert forall|j: int| 0 <= j < t.len() implies t[j] == s[j] by {}
        match find_first(t, c) {
            Some(i) => {
                assert(t[i] == s[i]);
                assert forall|j: int| 0 <= j < i implies s[j] != c by {
                    assert(t[j] == s[j]);
                }
            },
            None => {
                assert forall|j: int| 0 <= j < s.len() - 1 implies s[j] != c by {
                    assert(t[j] == s[j]);
                }
            },
        }
    }
}

/// What `find_last` says of the indices it returns.
pub proof fn lemma_find_last_props(s: Seq<char>, c: char)
    ensures
        match find_last(s, c) {
            Some(i) => 0 <= i < s.len() && s[i] == c && forall|j: int| i < j < s.len() ==> s[j]
                != c,
            None => forall|j: int| 0 <= j < s.len() ==> s[j] != c,
        },
    decreases s.len(),
{
    if s.len() > 0 {
        let t = s.drop_last();
        lemma_find_last_props(t, c);
        if s.last() != c {
            match find_last(t, c) {
                Some(i) => {
                    assert(t[i] == s[i]);
                    assert forall|j: int| i < j < s.len() implies s[j] != c by {
                        if j < t.len() {
                            assert(t[j] == s[j]);
                        }
                    }
                },
                None => {
                    assert forall|j: int| 0 <= j < s.len() implies s[j] != c by {
                        if j < t.len() {
                            assert(t[j] == s[j]);
                        }
                    }
                },
            }
        }
    }
}

/// The index of the first `c` in `s`, counted in characters.
pub fn first_char_index(s: &str, c: char) -> (r: Option<usize>)
    ensures
        match r {
            Some(i) => find_first(s@, c) == Some(i as int),
            None => find_first(s@, c) is None,
        },
{
    let n = s.unicode_len();
    let mut i: usize = 0;
    while i < n
        invariant
            i <= n,
            n == s@.len(),
            find_first(s@.subrange(0, i as int), c) is None,
        decreases n - i,
    {
        assert(s@.subrange(0, i + 1).drop_last() =~= s@.subrange(0, i as int));
        if s.get_char(i) == c {
            proof {
                lemma_find_first_prefix(s@, i + 1, c);
            }
            return Some(i);
        }
        i = i + 1;
    }
    assert(s@.subrange(0, n as int) =~= s@);
    None
}

/// The index of the last `c` in `s`, counted in characters.
pub fn last_char_index(s: &str, c: char) -> (r: Option<usize>)
    ensures
        match r {
            Some(i) => find_last(s@, c) == Some(i as int),
            None => find_last(s@, c) is None,
        },
{
    let n = s.unicode_len();
    let mut i: usize = 0;
    let mut last: Option<usize> = None;
    while i < n
        invariant
            i <= n,
            n == s@.len(),
            match last {
                Some(j) => find_last(s@.subrange(0, i as int), c) == Some(j as int),
                None => find_last(s@.subrange(0, i as int), c) is None,
            },
        decreases n - i,
    {
        assert(s@.subrange(0, i + 1).drop_last() =~= s@.subrange(0, i as int));
        if s.get_char(i) == c {
            last = Some(i);
        }
        i = i + 1;
    }
    assert(s@.subrange(0, n as int) =~= s@);
    last
}

/// The pieces of `s` between the separators `c`, in order.
pub open spec fn split_on(s: Seq<char>, c: char) -> Seq<Seq<char>>
    decreases s.len(),
{
    match find_first(s, c) {
        Some(i) => if 0 <= i < s.len() {
            seq![s.subrange(0, i)] + split_on(s.subrange(i + 1, s.len() as int), c)
        } else {
            seq![s]
        },
        None => seq![s],
    }
}

/// Splits `s` at each `c`.
pub fn split_char(s: &str, c: char) -> (r: Vec<String>)
    ensures
        r@.map_values(|p: String| p@) == split_on(s@, c),
{
    let n = s.unicode_len();
    let mut out: Vec<String> = Vec::new();
    let mut start: usize = 0;
    assert(s@.subrange(0, n as int) =~= s@);
    assert(out@.map_values(|p: String| p@) + split_on(s@, c) =~= split_on(s@, c));
    loop
        invariant
            start <= n,
            n == s@.len(),
            out@.map_values(|p: String| p@) + split_on(s@.subrange(start as int, n as int), c)
                == split_on(s@, c),
        decreases n - start,
    {
        let rest = s.substring_char(start, n);
        match first_char_index(rest, c) {
            Some(i) => {
                proof {
                    lemma_find_first_props(rest@, c);
                    assert(rest@.subrange(i + 1, rest@.len() as int) =~= s@.subrange(
                        start + i + 1,
                        n as int,
                    ));
                }
                let piece = rest.substring_char(0, i).to_owned();
                let ghost before = out@.map_values(|p: String| p@);
                out.push(piece);
                assert(out@.map_values(|p: String| p@) =~= before.push(piece@));
                assert(before.push(piece@) + split_on(s@.subrange(start + i + 1, n as int), c)
                    =~= before + split_on(rest@, c));
                start = start + i + 1;
            },
            None => {
                let ghost before = out@.map_values(|p: String| p@);
                out.push(rest.to_owned());
                assert(out@.map_values(|p: String| p@) =~= before + split_on(rest@, c));
                return out;
            },
        }
    }
}

/// Whether two strings hold the same characters.
pub fn same_text(a: &str, b: &str) -> (r: bool)
    ensures
        r == (a@ == b@),
{
    let n = a.unicode_len();
    if n != b.unicode_len() {
        return false;
    }
    let mut i: usize = 0;
    while i < n
        invariant
            i <= n,
            n == a@.len(),
            n == b@.len(),
            forall|j: int| 0 <= j < i ==> a@[j] == b@[j],
        decreases n - i,
    {
        if a.get_char(i) != b.get_char(i) {
            return false;
        }
        i = i + 1;
    }
    assert(a@ =~= b@);
    true
}

} // verus!
