use vstd::prelude::*;

verus! {

/// The index of the last occurrence of `sep` in `s`, or -1 when there is
/// none.
pub open spec fn last_sep(s: Seq<u8>, sep: u8) -> int
    decreases s.len(),
{
    if s.len() == 0 {
        -1
    } else if s.last() == sep {
        s.len() - 1
    } else {
        last_sep(s.drop_last(), sep)
    }
}

/// The file name of a path: what follows the last separator, or the empty
/// string when the path holds no separator at all.
pub open spec fn basename_spec(s: Seq<u8>, sep: u8) -> Seq<u8> {
    if last_sep(s, sep) >= 0 {
        s.subrange(last_sep(s, sep) + 1, s.len() as int)
    } else {
        Seq::empty()
    }
}

/// The directory of a path: what precedes the last separator, or the
/// empty string when the path holds no separator at all.
pub open spec fn dir_prefix_spec(s: Seq<u8>, sep: u8) -> Seq<u8> {
    if last_sep(s, sep) >= 0 {
        s.subrange(0, last_sep(s, sep))
    } else {
        Seq::empty()
    }
}

proof fn lemma_last_sep_at(s: Seq<u8>, sep: u8, i: int)
    requires
        0 <= i < s.len(),
        s[i] == sep,
        forall|k: int| i < k < s.len() ==> s[k] != sep,
    ensures
        last_sep(s, sep) == i,
    decreases s.len(),
{
    if i < s.len() - 1 {
        assert(s.last() != sep);
        let t = s.drop_last();
        assert(forall|k: int| 0 <= k < t.len() ==> t[k] == s[k]);
        lemma_last_sep_at(t, sep, i);
    }
}

proof fn lemma_no_sep(s: Seq<u8>, sep: u8)
    requires
        forall|k: int| 0 <= k < s.len() ==> s[k] != sep,
    ensures
        last_sep(s, sep) == -1,
    decreases s.len(),
{
    if s.len() > 0 {
        let t = s.drop_last();
        assert(forall|k: int| 0 <= k < t.len() ==> t[k] == s[k]);
        lemma_no_sep(t, sep);
    }
}

fn scan_last_sep(path: &Vec<u8>, sep: u8) -> (r: Option<usize>)
    ensures
        r matches Some(i) ==> i < path@.len() && i == last_sep(path@, sep),
        r is None ==> last_sep(path@, sep) == -1,
{
    let mut j: usize = path.len();
    while j > 0
        invariant
            j <= path@.len(),
            forall|k: int| j <= k < path@.len() ==> path@[k] != sep,
        decreases j,
    {
        if path[j - 1] == sep {
            proof {
                lemma_last_sep_at(path@, sep, j - 1);
            }
            return Some(j - 1);
        }
        j = j - 1;
    }
    proof {
        lemma_no_sep(path@, sep);
    }
    None
}

fn copy_range(v: &Vec<u8>, from: usize, to: usize) -> (r: Vec<u8>)
    requires
        from <= to <= v@.len(),
    ensures
        r@ == v@.subrange(from as int, to as int),
{
    let mut r: Vec<u8> = Vec::new();
    let mut i: usize = from;
    while i < to
        invariant
            from <= i <= to <= v@.len(),
            r@ == v@.subrange(from as int, i as int),
        decreases to - i,
    {
        r.push(v[i]);
        proof {
            assert(r@ =~= v@.subrange(from as int, i + 1));
        }
        i = i + 1;
    }
    r
}

/// The file name of `path`: the bytes after the last `sep`, or empty when
/// `path` holds no separator.
pub fn basename(path: &Vec<u8>, sep: u8) -> (r: Vec<u8>)
    ensures
        r@ == basename_spec(path@, sep),
{
    match scan_last_sep(path, sep) {
        None => Vec::new(),
        Some(i) => {
            let n = path.len();
            copy_range(path, i + 1, n)
        },
    }
}

/// The directory of `path`: the bytes before the last `sep`, or empty
/// when `path` holds no separator.
pub fn dir_prefix(path: &Vec<u8>, sep: u8) -> (r: Vec<u8>)
    ensures
        r@ == dir_prefix_spec(path@, sep),
{
    match scan_last_sep(path, sep) {
        None => Vec::new(),
        Some(i) => copy_range(path, 0, i),
    }
}

} // verus!
