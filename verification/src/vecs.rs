//! Small helpers over parameter vectors.

use vstd::prelude::*;
use crate::fixed::{canon, sat, FIX_MIN};

verus! {

/// An element-wise copy of a scalar vector.
pub fn copy_vec(v: &Vec<i64>) -> (r: Vec<i64>)
    ensures
        r@ == v@,
{
    let mut r: Vec<i64> = Vec::new();
    let mut i: usize = 0;
    while i < v.len()
        invariant
            i <= v.len(),
            r@ == v@.subrange(0, i as int),
        decreases v.len() - i,
    {
        r.push(v[i]);
        i = i + 1;
    }
    proof {
        assert(v@.subrange(0, v@.len() as int) == v@);
    }
    r
}

/// A vector of `n` zeros.
pub fn zeros(n: usize) -> (r: Vec<i64>)
    ensures
        r@.len() == n,
        forall|i: int| 0 <= i < n ==> r@[i] == 0i64,
{
    let mut r: Vec<i64> = Vec::new();
    let mut i: usize = 0;
    while i < n
        invariant
            i <= n,
            r@.len() == i,
            forall|j: int| 0 <= j < i ==> r@[j] == 0i64,
        decreases n - i,
    {
        r.push(0);
        i = i + 1;
    }
    r
}

/// Whether every element of a vector lies in the scalar range.
pub open spec fn all_canon(s: Seq<i64>) -> bool {
    forall|i: int| 0 <= i < s.len() ==> FIX_MIN <= #[trigger] s[i]
}

/// Bring every element of a vector into the scalar range.
pub fn canon_vec(v: &Vec<i64>) -> (r: Vec<i64>)
    ensures
        r@.len() == v@.len(),
        all_canon(r@),
        forall|i: int| 0 <= i < v@.len() ==> #[trigger] r@[i] as int == sat(v@[i] as int),
        all_canon(v@) ==> r@ == v@,
{
    let mut r: Vec<i64> = Vec::new();
    let mut i: usize = 0;
    while i < v.len()
        invariant
            i <= v.len(),
            r@.len() == i,
            forall|j: int| 0 <= j < i ==> FIX_MIN <= #[trigger] r@[j],
            forall|j: int| 0 <= j < i ==> #[trigger] r@[j] as int == sat(v@[j] as int),
        decreases v.len() - i,
    {
        r.push(canon(v[i]));
        i = i + 1;
    }
    proof {
        if all_canon(v@) {
            assert(r@ =~= v@);
        }
    }
    r
}

/// An element-wise copy of a name vector.
pub fn copy_names(v: &Vec<String>) -> (r: Vec<String>)
    ensures
        r@.len() == v@.len(),
{
    let mut r: Vec<String> = Vec::new();
    let mut i: usize = 0;
    while i < v.len()
        invariant
            i <= v.len(),
            r@.len() == i,
        decreases v.len() - i,
    {
        r.push(v[i].clone());
        i = i + 1;
    }
    r
}

} // verus!
