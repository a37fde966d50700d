//! Small verified helpers over strings and sequences of strings.

use vstd::prelude::*;

verus! {

/// The views of a sequence of strings: each `String` replaced by its
/// `Seq<char>` view.
pub open spec fn views_of(v: Seq<String>) -> Seq<Seq<char>> {
    v.map_values(|s: String| s@)
}

/// String equality over views.
pub fn str_eq(a: &str, b: &str) -> (r: bool)
    ensures
        r == (a@ == b@),
{
    let x = a.to_owned();
    let y = b.to_owned();
    x == y
}

/// `n` occurs in `h` starting at position `i`.
pub open spec fn is_sub_at(h: Seq<char>, n: Seq<char>, i: int) -> bool {
    0 <= i && i + n.len() <= h.len() && h.subrange(i, i + n.len() as int) == n
}

/// `n` occurs somewhere in `h`.
pub open spec fn contains_sub(h: Seq<char>, n: Seq<char>) -> bool {
    exists|i: int| is_sub_at(h, n, i)
}

/// Substring search: does `h` contain `n`?
pub fn str_contains_sub(h: &str, n: &str) -> (r: bool)
    ensures
        r == contains_sub(h@, n@),
{
    let hl = h.unicode_len();
    let nl = n.unicode_len();
    if nl > hl {
        assert(forall|i: int| !is_sub_at(h@, n@, i));
        return false;
    }
    if nl == 0 {
        proof {
            assert(h@.subrange(0, 0) =~= n@);
            assert(is_sub_at(h@, n@, 0));
        }
        return true;
    }
    let mut i: usize = 0;
    while i <= hl - nl
        invariant
            1 <= nl <= hl,
            hl == h@.len(),
            nl == n@.len(),
            i <= hl - nl + 1,
            forall|k: int| 0 <= k < i ==> !is_sub_at(h@, n@, k),
        decreases hl - nl + 1 - i,
    {
        let mut j: usize = 0;
        let mut mismatch = false;
        while j < nl
            invariant
                nl <= hl,
                hl == h@.len(),
                nl == n@.len(),
                i + nl <= hl,
                j <= nl,
                !mismatch ==> forall|k: int| 0 <= k < j ==> h@[i + k] == n@[k],
                mismatch ==> !is_sub_at(h@, n@, i as int),
            decreases nl - j,
        {
            if !mismatch {
                let hc = h.get_char(i + j);
                let nc = n.get_char(j);
                if hc != nc {
                    proof {
                        if is_sub_at(h@, n@, i as int) {
                            assert(h@.subrange(i as int, i + n@.len() as int)[j as int]
                                == n@[j as int]);
                        }
                    }
                    mismatch = true;
                }
            }
            j = j + 1;
        }
        if !mismatch {
            proof {
                assert(h@.subrange(i as int, i + n@.len() as int) =~= n@);
                assert(is_sub_at(h@, n@, i as int));
            }
            return true;
        }
        i = i + 1;
    }
    proof {
        assert forall|k: int| !is_sub_at(h@, n@, k) by {
            if 0 <= k && k + n@.len() <= h@.len() {
                assert(k < i);
            }
        }
    }
    false
}

/// Clones a vector of strings, preserving the views of all elements.
pub fn clone_strings(v: &Vec<String>) -> (r: Vec<String>)
    ensures
        views_of(r@) == views_of(v@),
        r@.len() == v@.len(),
{
    let mut r: Vec<String> = Vec::new();
    let mut i: usize = 0;
    while i < v.len()
        invariant
            i <= v@.len(),
            r@.len() == i,
            forall|k: int| 0 <= k < i ==> r@[k]@ == v@[k]@,
        decreases v@.len() - i,
    {
        r.push(v[i].clone());
        i = i + 1;
    }
    proof {
        assert(views_of(r@) =~= views_of(v@));
    }
    r
}

/// Equality of two string vectors, compared by content.
pub fn vec_str_eq(a: &Vec<String>, b: &Vec<String>) -> (r: bool)
    ensures
        r == (views_of(a@) == views_of(b@)),
{
    if a.len() != b.len() {
        proof {
            assert(views_of(a@).len() != views_of(b@).len());
        }
        return false;
    }
    let mut i: usize = 0;
    while i < a.len()
        invariant
            a@.len() == b@.len(),
            i <= a@.len(),
            forall|k: int| 0 <= k < i ==> a@[k]@ == b@[k]@,
        decreases a@.len() - i,
    {
        if !str_eq(a[i].as_str(), b[i].as_str()) {
            proof {
                assert(views_of(a@)[i as int] != views_of(b@)[i as int]);
            }
            return false;
        }
        i = i + 1;
    }
    proof {
        assert(views_of(a@) =~= views_of(b@));
    }
    true
}

/// Equality of two optional strings, compared by content.
pub fn opt_str_eq(a: &Option<String>, b: &Option<String>) -> (r: bool)
    ensures
        r == (views_of_opt_str(*a) == views_of_opt_str(*b)),
{
    match (a, b) {
        (None, None) => true,
        (Some(x), Some(y)) => str_eq(x.as_str(), y.as_str()),
        _ => false,
    }
}

/// The view of an optional string.
pub open spec fn views_of_opt_str(a: Option<String>) -> Option<Seq<char>> {
    match a {
        None => None,
        Some(s) => Some(s@),
    }
}

/// The view of an optional vector of strings.
pub open spec fn views_of_opt_vec(a: Option<Vec<String>>) -> Option<Seq<Seq<char>>> {
    match a {
        None => None,
        Some(v) => Some(views_of(v@)),
    }
}

/// Clones an optional string, preserving the view.
pub fn clone_opt_string(v: &Option<String>) -> (r: Option<String>)
    ensures
        views_of_opt_str(r) == views_of_opt_str(*v),
{
    match v {
        None => None,
        Some(s) => Some(s.clone()),
    }
}

/// Clones an optional vector of strings, preserving the views.
pub fn clone_opt_strings(v: &Option<Vec<String>>) -> (r: Option<Vec<String>>)
    ensures
        views_of_opt_vec(r) == views_of_opt_vec(*v),
{
    match v {
        None => None,
        Some(s) => Some(clone_strings(s)),
    }
}

/// Equality of two optional small integers.
pub fn opt_u8_eq(a: &Option<u8>, b: &Option<u8>) -> (r: bool)
    ensures
        r == (*a == *b),
{
    match (a, b) {
        (None, None) => true,
        (Some(x), Some(y)) => x == y,
        _ => false,
    }
}

/// Equality of two optional string vectors, compared by content.
pub fn opt_vec_str_eq(a: &Option<Vec<String>>, b: &Option<Vec<String>>) -> (r: bool)
    ensures
        r == (views_of_opt_vec(*a) == views_of_opt_vec(*b)),
{
    match (a, b) {
        (None, None) => true,
        (Some(x), Some(y)) => vec_str_eq(x, y),
        _ => false,
    }
}

} // verus!
