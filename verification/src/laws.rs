//! Facts that hold of every type and type array.

use vstd::prelude::*;
use crate::tag::{ScalarKind, TypeTag};
use crate::types::{
    array_trace, array_wf, free_trace, members_trace, shapes, terminated, Freed, Shape, Type,
};

verus! {

/// The number of structures in a shape, itself included.
pub open spec fn structures(shape: Shape) -> nat
    decreases shape,
{
    match shape {
        Shape::Scalar(_) => 0,
        Shape::Struct(members) => 1 + structures_among(members, members.len()),
    }
}

/// The number of structures in the first `n` members.
pub open spec fn structures_among(members: Seq<Shape>, n: nat) -> nat
    decreases members, n,
{
    if n == 0 || n > members.len() {
        0
    } else {
        structures_among(members, (n - 1) as nat) + structures(members[n - 1])
    }
}

/// How many releases in a trace are of descriptors, where `descriptors` is
/// set, or of arrays, where it is not.
pub open spec fn occurrences(trace: Seq<Freed>, descriptors: bool) -> nat
    decreases trace.len(),
{
    if trace.len() == 0 {
        0
    } else {
        occurrences(trace.drop_last(), descriptors) + if (trace.last() is Descriptor)
            == descriptors {
            1nat
        } else {
            0nat
        }
    }
}

/// Occurrences add up over the concatenation of two traces.
pub proof fn lemma_occurrences_add(a: Seq<Freed>, b: Seq<Freed>, descriptors: bool)
    ensures
        occurrences(a + b, descriptors) == occurrences(a, descriptors) + occurrences(
            b,
            descriptors,
        ),
    decreases b.len(),
{
    if b.len() == 0 {
        assert(a + b =~= a);
    } else {
        assert((a + b).drop_last() =~= a + b.drop_last());
        assert((a + b).last() == b.last());
        lemma_occurrences_add(a, b.drop_last(), descriptors);
    }
}

/// In an array created from `elements`, slot `i` is element `i` itself, the
/// members describe what the elements describe, and a scan for the sentinel
/// stops at `elements.len()` and nowhere else.
pub proof fn created_array_has_length_of_elements(
    elements: Seq<Type>,
    slots: Seq<Option<Type>>,
    count: int,
)
    requires
        slots.len() == elements.len() + 1,
        forall|i: int| 0 <= i < elements.len() ==> (#[trigger] slots[i]) == Some(elements[i]),
        slots[elements.len() as int] is None,
        0 <= count < slots.len(),
        slots[count] is None,
        forall|i: int| 0 <= i < count ==> (#[trigger] slots[i]) is Some,
    ensures
        count == elements.len(),
        terminated(slots),
        shapes(slots).len() == elements.len(),
        forall|i: int| 0 <= i < elements.len() ==> (#[trigger] shapes(slots)[i]) == elements[i]@,
{
    if count < elements.len() {
        assert(slots[count] is Some);
    }
    if count > elements.len() {
        assert(slots[elements.len() as int] is Some);
    }
}

/// Destroying a scalar type releases nothing.
pub proof fn scalar_destroy_releases_nothing(kind: ScalarKind)
    ensures
        free_trace(Shape::Scalar(kind)) == Seq::<Freed>::empty(),
{
}

/// Destroying an array without members releases its one slot, the sentinel,
/// and no descriptor.
pub proof fn empty_array_releases_one_slot()
    ensures
        array_trace(Seq::<Shape>::empty()) == seq![Freed::Array(1)],
{
    assert(array_trace(Seq::<Shape>::empty()) =~= seq![Freed::Array(1)]);
}

/// Destroying the first `n` members of an array releases, for each structure
/// among them, its descriptor once and its array once.
pub proof fn members_released_once(members: Seq<Shape>, n: nat)
    requires
        n <= members.len(),
    ensures
        occurrences(members_trace(members, n), true) == structures_among(members, n),
        occurrences(members_trace(members, n), false) == structures_among(members, n),
    decreases members, n,
{
    if n > 0 {
        members_released_once(members, (n - 1) as nat);
        type_released_once(members[n - 1]);
        lemma_occurrences_add(
            members_trace(members, (n - 1) as nat),
            free_trace(members[n - 1]),
            true,
        );
        lemma_occurrences_add(
            members_trace(members, (n - 1) as nat),
            free_trace(members[n - 1]),
            false,
        );
    }
}

/// Destroying a type releases each structure descriptor in it exactly once
/// and each array exactly once: as many of either as there are structures.
pub proof fn type_released_once(shape: Shape)
    ensures
        occurrences(free_trace(shape), true) == structures(shape),
        occurrences(free_trace(shape), false) == structures(shape),
    decreases shape,
{
    match shape {
        Shape::Scalar(_) => {},
        Shape::Struct(members) => {
            array_released_once(members);
            let t = array_trace(members);
            assert(t.push(Freed::Descriptor).drop_last() =~= t);
        },
    }
}

/// Destroying an array releases its own storage once and, for each structure
/// among its members, that structure's descriptor once and its array once.
pub proof fn array_released_once(members: Seq<Shape>)
    ensures
        occurrences(array_trace(members), true) == structures_among(members, members.len()),
        occurrences(array_trace(members), false) == structures_among(members, members.len()) + 1,
    decreases members, members.len() + 1,
{
    members_released_once(members, members.len());
    let t = members_trace(members, members.len());
    assert(t.push(Freed::Array((members.len() + 1) as usize)).drop_last() =~= t);
}

/// A structure that absorbed an array releases the array's storage when it
/// is destroyed, as often as destroying the array itself would have, and its
/// own descriptor after everything else.
pub proof fn absorbed_array_released_with_structure(members: Seq<Shape>)
    ensures
        free_trace(Shape::Struct(members)) == array_trace(members).push(Freed::Descriptor),
        occurrences(free_trace(Shape::Struct(members)), false) == occurrences(
            array_trace(members),
            false,
        ),
        occurrences(free_trace(Shape::Struct(members)), true) == occurrences(
            array_trace(members),
            true,
        ) + 1,
{
    type_released_once(Shape::Struct(members));
    array_released_once(members);
}

/// A well-formed type that describes a structure owns a descriptor with
/// size and alignment zero and the structure tag, whose array holds one slot
/// for each member and the sentinel.
pub proof fn structure_owns_terminated_array(t: Type)
    requires
        t.wf(),
        t@ is Struct,
    ensures
        t.descriptor()->0.spec_size() == 0,
        t.descriptor()->0.spec_alignment() == 0,
        t.descriptor() is Some,
        t.descriptor()->0.spec_type() == TypeTag::Struct,
        array_wf(t.descriptor()->0.slots()),
        t.descriptor()->0.slots().len() == t@->Struct_0.len() + 1,
        shapes(t.descriptor()->0.slots()) == t@->Struct_0,
{
    t.lemma_descriptor();
    t.descriptor()->0.lemma_unfold();
}

} // verus!
