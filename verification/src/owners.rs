//! Owner lists: unordered, possibly repeated lists of user identifiers with
//! set semantics. Comparisons and membership go by the set of views.

use vstd::prelude::*;
use crate::value::{Value, ValueModel};
use crate::wire::{vec_of_value, vec_to_value, wire_seq, Wire};

verus! {

/// Two string lists carry the same set of strings.
pub open spec fn str_set_eq(a: Seq<Seq<char>>, b: Seq<Seq<char>>) -> bool {
    forall|x: Seq<char>| a.contains(x) <==> b.contains(x)
}

/// Some two entries differ, so the list names at least two users.
pub open spec fn two_distinct(s: Seq<Seq<char>>) -> bool {
    exists|i: int, j: int| 0 <= i < s.len() && 0 <= j < s.len() && s[i] != s[j]
}

/// Whether `x` occurs in `xs`.
pub fn vec_contains_str(xs: &Vec<String>, x: &String) -> (r: bool)
    ensures
        r == xs.deep_view().contains(x@),
{
    let ghost dv = xs.deep_view();
    let mut i: usize = 0;
    while i < xs.len()
        invariant
            0 <= i <= xs.len(),
            dv == xs.deep_view(),
            dv.len() == xs.len(),
            forall|j: int| 0 <= j < i ==> dv[j] != x@,
        decreases xs.len() - i,
    {
        if xs[i] == *x {
            proof {
                assert(dv[i as int] == x@);
            }
            return true;
        }
        i += 1;
    }
    proof {
        if dv.contains(x@) {
            let j = choose|j: int| 0 <= j < dv.len() && dv[j] == x@;
            assert(dv[j] == x@);
        }
    }
    false
}

/// Whether `a` and `b` hold the same set of strings.
pub fn str_set_equal(a: &Vec<String>, b: &Vec<String>) -> (r: bool)
    ensures
        r == str_set_eq(a.deep_view(), b.deep_view()),
{
    let ghost adv = a.deep_view();
    let ghost bdv = b.deep_view();
    let mut i: usize = 0;
    while i < a.len()
        invariant
            0 <= i <= a.len(),
            adv == a.deep_view(),
            bdv == b.deep_view(),
            adv.len() == a.len(),
            forall|j: int| 0 <= j < i ==> bdv.contains(adv[j]),
        decreases a.len() - i,
    {
        if !vec_contains_str(b, &a[i]) {
            proof {
                assert(adv.contains(adv[i as int]));
            }
            return false;
        }
        i += 1;
    }
    let mut j: usize = 0;
    while j < b.len()
        invariant
            0 <= j <= b.len(),
            adv == a.deep_view(),
            bdv == b.deep_view(),
            bdv.len() == b.len(),
            forall|t: int| 0 <= t < adv.len() ==> bdv.contains(adv[t]),
            forall|t: int| 0 <= t < j ==> adv.contains(bdv[t]),
        decreases b.len() - j,
    {
        if !vec_contains_str(a, &b[j]) {
            proof {
                assert(bdv.contains(bdv[j as int]));
            }
            return false;
        }
        j += 1;
    }
    proof {
        assert forall|x: Seq<char>| adv.contains(x) implies bdv.contains(x) by {
            let t = choose|t: int| 0 <= t < adv.len() && adv[t] == x;
            assert(bdv.contains(adv[t]));
        }
        assert forall|x: Seq<char>| bdv.contains(x) implies adv.contains(x) by {
            let t = choose|t: int| 0 <= t < bdv.len() && bdv[t] == x;
            assert(adv.contains(bdv[t]));
        }
    }
    true
}

/// Whether the list names at least two distinct users.
pub fn has_two_distinct(xs: &Vec<String>) -> (r: bool)
    ensures
        r == two_distinct(xs.deep_view()),
{
    let ghost dv = xs.deep_view();
    if xs.len() == 0 {
        return false;
    }
    let mut i: usize = 1;
    while i < xs.len()
        invariant
            1 <= i <= xs.len() || xs.len() == 0,
            0 < xs.len(),
            dv == xs.deep_view(),
            dv.len() == xs.len(),
            forall|j: int| 0 <= j < i ==> #[trigger] dv[j] == dv[0],
        decreases xs.len() - i,
    {
        if !(xs[i] == xs[0]) {
            proof {
                assert(dv[i as int] != dv[0]);
            }
            return true;
        }
        i += 1;
    }
    proof {
        if two_distinct(dv) {
            let (i, j) = choose|i: int, j: int|
                0 <= i < dv.len() && 0 <= j < dv.len() && dv[i] != dv[j];
            assert(dv[i] == dv[0]);
            assert(dv[j] == dv[0]);
        }
    }
    false
}

/// Appends every entry of `src` to `dst`.
pub fn extend_strings(dst: &mut Vec<String>, src: &Vec<String>)
    ensures
        final(dst).deep_view() == old(dst).deep_view() + src.deep_view(),
{
    let ghost base = dst.deep_view();
    let ghost sdv = src.deep_view();
    proof {
        assert(base + sdv.subrange(0, 0) =~= base);
    }
    let mut i: usize = 0;
    while i < src.len()
        invariant
            0 <= i <= src.len(),
            sdv == src.deep_view(),
            sdv.len() == src.len(),
            dst.deep_view() == base + sdv.subrange(0, i as int),
        decreases src.len() - i,
    {
        let ghost prev = dst.deep_view();
        dst.push(src[i].clone());
        proof {
            assert(dst.deep_view() =~= prev.push(sdv[i as int]));
            assert(dst.deep_view() =~= base + sdv.subrange(0, i as int + 1));
        }
        i += 1;
    }
    proof {
        assert(sdv.subrange(0, sdv.len() as int) =~= sdv);
    }
}

impl Wire for Vec<String> {
    open spec fn wire(m: Seq<Seq<char>>) -> ValueModel {
        wire_seq::<String>(m)
    }

    fn to_value(&self) -> (v: Value) {
        vec_to_value(self)
    }

    fn of_value(v: Value) -> (r: Option<Vec<String>>) {
        vec_of_value::<String>(v)
    }
}

} // verus!
