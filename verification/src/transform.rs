//! The in-place absolute-value transform over a [`CowSequence`].

use vstd::prelude::*;
use vstd::pervasive::unreached;
use vstd::pervasive::VecAdditionalExecFns;
use crate::container::CowSequence;

verus! {

/// The absolute value of `v`, as an `i32`.
///
/// `i32::MIN` has no `i32` absolute value; there the negation wraps back to
/// `i32::MIN`. The executable transform excludes that input by precondition.
pub open spec fn abs_val(v: i32) -> i32 {
    if v < 0 {
        (-(v as int)) as i32
    } else {
        v
    }
}

/// Element-wise absolute value over a sequence.
pub open spec fn abs_seq(s: Seq<i32>) -> Seq<i32> {
    s.map_values(|v: i32| abs_val(v))
}

/// Whether some element of `s` is negative.
pub open spec fn has_negative(s: Seq<i32>) -> bool {
    exists|i: int| 0 <= i < s.len() && s[i] < 0
}

/// Replaces each negative element of `container` by its absolute value,
/// in place.
///
/// Elements are inspected in ascending index order by read access; mutable
/// access is requested only for an element that actually needs changing, so
/// the container's single clone happens exactly when the first negative
/// element is found. A `Borrowed` container whose elements are all
/// non-negative stays `Borrowed`; once any element is negative, or the
/// container already owned its buffer, it ends `Owned`.
pub fn apply(container: &mut CowSequence<'_>)
    requires
        forall|i: int| 0 <= i < old(container)@.len() ==> old(container)@[i] > i32::MIN,
    ensures
        final(container)@ == abs_seq(old(container)@),
        final(container).owned() <==> old(container).owned() || has_negative(old(container)@),
{
    let ghost init: Seq<i32> = container@;
    let ghost init_owned: bool = container.owned();
    let n = container.len();
    for i in 0..n
        invariant
            n == init.len(),
            container@.len() == init.len(),
            forall|j: int| 0 <= j < init.len() ==> init[j] > i32::MIN,
            forall|j: int| 0 <= j < i ==> container@[j] == abs_val(init[j]),
            forall|j: int| i <= j < init.len() ==> container@[j] == init[j],
            container.owned() <==> init_owned || exists|j: int| 0 <= j < i && init[j] < 0,
    {
        let v = match container.get(i) {
            Ok(v) => v,
            Err(_) => unreached(),
        };
        proof {
            assert(v == init[i as int]);
        }
        if v < 0 {
            let m = container.to_mut();
            m.set(i, -v);
            proof {
                assert(exists|j: int| 0 <= j < i + 1 && init[j] < 0) by {
                    assert(0 <= i < i + 1 && init[i as int] < 0);
                }
            }
        }
    }
    assert(container@ =~= abs_seq(init));
}

/// The transform under the original calling shape: applies [`apply`] and
/// returns the same container reference, enabling call chaining.
pub fn abs_all<'a, 'b>(input: &'a mut CowSequence<'b>) -> (out: &'a mut CowSequence<'b>)
    requires
        forall|i: int| 0 <= i < old(input)@.len() ==> old(input)@[i] > i32::MIN,
    ensures
        (*out)@ == abs_seq(old(input)@),
        out.owned() <==> old(input).owned() || has_negative(old(input)@),
        *final(input) == *final(out),
{
    apply(input);
    input
}

/// When every element is non-negative, the transform leaves the values
/// unchanged: together with the state clause of [`apply`], a `Borrowed`
/// container of non-negative elements comes out of the transform
/// `Borrowed` and equal to its input.
pub proof fn lemma_abs_seq_nonneg_identity(s: Seq<i32>)
    requires
        forall|i: int| 0 <= i < s.len() ==> s[i] >= 0,
    ensures
        abs_seq(s) == s,
{
    assert(abs_seq(s) =~= s);
}

/// Idempotence: one pass leaves no element negative, so a second pass over
/// the result changes neither the values nor, by the state clause of
/// [`apply`], the ownership state.
pub proof fn lemma_abs_seq_idempotent(s: Seq<i32>)
    requires
        forall|i: int| 0 <= i < s.len() ==> s[i] > i32::MIN,
    ensures
        abs_seq(abs_seq(s)) == abs_seq(s),
        !has_negative(abs_seq(s)),
{
    assert forall|i: int| 0 <= i < abs_seq(s).len() implies abs_seq(s)[i] >= 0 by {
        assert(abs_seq(s)[i] == abs_val(s[i]));
    }
    lemma_abs_seq_nonneg_identity(abs_seq(s));
}

} // verus!
