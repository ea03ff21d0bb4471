//! Small sequence facts shared by the emission and diffing proofs.

use vstd::prelude::*;

verus! {

pub proof fn lemma_add_singleton<T>(s: Seq<T>, e: T)
    ensures
        s + seq![e] == s.push(e),
{
    assert(s + seq![e] =~= s.push(e));
}

pub proof fn lemma_add_empty<T>(s: Seq<T>)
    ensures
        s + Seq::<T>::empty() == s,
{
    assert(s + Seq::<T>::empty() =~= s);
}

pub proof fn lemma_add_push<T>(a: Seq<T>, b: Seq<T>, e: T)
    ensures
        a + b.push(e) == (a + b).push(e),
{
    assert(a + b.push(e) =~= (a + b).push(e));
}

pub proof fn lemma_add_two<T>(s: Seq<T>, a: T, b: T)
    ensures
        s + seq![a, b] == s.push(a).push(b),
{
    assert(s + seq![a, b] =~= s.push(a).push(b));
}

pub proof fn lemma_add_assoc<T>(a: Seq<T>, b: Seq<T>, c: Seq<T>)
    ensures
        (a + b) + c == a + (b + c),
{
    assert((a + b) + c =~= a + (b + c));
}

pub proof fn lemma_take_succ<T>(s: Seq<T>, i: int)
    requires
        0 <= i < s.len(),
    ensures
        s.take(i + 1) == s.take(i).push(s[i]),
{
    assert(s.take(i + 1) =~= s.take(i).push(s[i]));
}

pub proof fn lemma_contains_left<T>(a: Seq<T>, b: Seq<T>, x: T)
    requires
        a.contains(x),
    ensures
        (a + b).contains(x),
{
    let i = choose|i: int| 0 <= i < a.len() && a[i] == x;
    assert((a + b)[i] == x);
}

pub proof fn lemma_contains_right<T>(a: Seq<T>, b: Seq<T>, x: T)
    requires
        b.contains(x),
    ensures
        (a + b).contains(x),
{
    let i = choose|i: int| 0 <= i < b.len() && b[i] == x;
    assert((a + b)[a.len() + i] == x);
}

pub proof fn lemma_take_step<T>(s: Seq<T>, i: int)
    requires
        0 <= i < s.len(),
    ensures
        s.take(i + 1).drop_last() == s.take(i),
        s.take(i + 1).last() == s[i],
{
    assert(s.take(i + 1).drop_last() =~= s.take(i));
}

pub proof fn lemma_take_all<T>(s: Seq<T>)
    ensures
        s.take(s.len() as int) == s,
{
    assert(s.take(s.len() as int) =~= s);
}

} // verus!
