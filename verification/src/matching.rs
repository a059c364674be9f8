//! A two-variant enum and a counting pass over a vector of its values.

use vstd::prelude::*;

verus! {

/// A closed choice between two named cases with no associated data;
/// equality is by variant identity alone.
#[derive(PartialEq, Eq, Structural)]
pub enum MyEnum {
    Foo,
    Bar,
}

/// How many elements of the sequence are the `Foo` variant.
pub open spec fn count_foo_spec(s: Seq<MyEnum>) -> nat
    decreases s.len(),
{
    if s.len() == 0 {
        0
    } else {
        count_foo_spec(s.drop_last()) + if s.last() is Foo {
            1nat
        } else {
            0nat
        }
    }
}

/// Walks the vector by reference and counts the elements equal to
/// `Foo`; returns exactly the number of `Foo` elements.
pub fn count_foo(v: &Vec<MyEnum>) -> (count: usize)
    ensures
        count == count_foo_spec(v@),
        count <= v.len(),
{
    let mut count: usize = 0;
    let mut i: usize = 0;
    while i < v.len()
        invariant
            i <= v.len(),
            count <= i,
            count == count_foo_spec(v@.take(i as int)),
        decreases v.len() - i,
    {
        if v[i] == MyEnum::Foo {
            count = count + 1;
        }
        i = i + 1;
        assert(v@.take(i as int).drop_last() =~= v@.take(i as int - 1));
    }
    assert(v@.take(v.len() as int) =~= v@);
    count
}

/// The empty sequence holds no `Foo` element.
pub proof fn lemma_count_foo_empty()
    ensures
        count_foo_spec(Seq::<MyEnum>::empty()) == 0,
{
}

/// A sequence whose elements are all `Foo` counts to its full length.
pub proof fn lemma_count_foo_all_foo(s: Seq<MyEnum>)
    requires
        forall|i: int| 0 <= i < s.len() ==> s[i] is Foo,
    ensures
        count_foo_spec(s) == s.len(),
    decreases s.len(),
{
    if s.len() > 0 {
        lemma_count_foo_all_foo(s.drop_last());
    }
}

/// A sequence with no `Foo` element counts to zero.
pub proof fn lemma_count_foo_none(s: Seq<MyEnum>)
    requires
        forall|i: int| 0 <= i < s.len() ==> s[i] is Bar,
    ensures
        count_foo_spec(s) == 0,
    decreases s.len(),
{
    if s.len() > 0 {
        lemma_count_foo_none(s.drop_last());
    }
}

} // verus!
