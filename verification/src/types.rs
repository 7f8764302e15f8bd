//! Representations of C types and arrays thereof.
//!
//! An array of types is a vector of slots that ends in one empty slot, the
//! sentinel; its length is never stored. A structure descriptor holds such a
//! vector directly, so an array that a structure absorbs is moved, not copied.

use vstd::prelude::*;
use crate::tag::{ScalarKind, TypeTag};

verus! {

/// What a type describes: a scalar of some kind, or a structure with an
/// ordered sequence of members.
pub enum Shape {
    Scalar(ScalarKind),
    Struct(Seq<Shape>),
}

/// One release of memory: of the backing storage of an array with the given
/// number of slots (the sentinel included), or of a structure descriptor.
#[derive(Clone, Copy, Debug, PartialEq, Eq, Structural)]
pub enum Freed {
    Array(usize),
    Descriptor,
}

/// A structure descriptor, laid out field by field as the foreign library
/// expects it.
#[derive(Debug)]
pub struct Descriptor {
    size: usize,
    alignment: u16,
    type_: TypeTag,
    elements: Vec<Option<Type>>,
}

#[derive(Debug)]
enum Node {
    Borrowed(ScalarKind),
    Owned(Box<Descriptor>),
}

/// Represents a single C type.
#[derive(Debug)]
pub struct Type {
    node: Node,
}

/// Represents a sequence of C types, which can be used to construct a
/// structure type or as the arguments of a call interface.
#[derive(Debug)]
pub struct TypeArray {
    slots: Vec<Option<Type>>,
}

/// What the raw-address accessor of a [`Type`] refers to.
#[derive(Debug)]
pub enum DescriptorRef<'a> {
    /// One of the process-wide scalar descriptors.
    Static(ScalarKind),
    /// A structure descriptor that the handle owns.
    Heap(&'a Descriptor),
}

/// What a slot holds: the shape of its type, or `void` for an empty slot.
pub open spec fn slot_shape(slot: Option<Type>) -> Shape {
    match slot {
        Some(t) => t@,
        None => Shape::Scalar(ScalarKind::Void),
    }
}

/// The shapes of the slots before the last one.
pub open spec fn shapes(slots: Seq<Option<Type>>) -> Seq<Shape> {
    if slots.len() >= 1 {
        Seq::new((slots.len() - 1) as nat, |i: int| slot_shape(slots[i]))
    } else {
        Seq::empty()
    }
}

/// Some slot is empty, so a scan for the sentinel ends.
pub open spec fn terminated(slots: Seq<Option<Type>>) -> bool {
    exists|n: int| 0 <= n < slots.len() && slots[n] is None
}

/// The last slot is the sentinel, the only empty slot, and every slot before
/// it holds a type.
pub open spec fn array_wf(slots: Seq<Option<Type>>) -> bool {
    &&& slots.len() >= 1
    &&& slots.last() is None
    &&& forall|i: int| 0 <= i < slots.len() - 1 ==> (#[trigger] slots[i]) is Some
}

/// The releases made while the first `n` members are destroyed, in order.
pub open spec fn members_trace(members: Seq<Shape>, n: nat) -> Seq<Freed>
    decreases members, n,
{
    if n == 0 || n > members.len() {
        Seq::empty()
    } else {
        members_trace(members, (n - 1) as nat) + free_trace(members[n - 1])
    }
}

/// The releases made while a type of this shape is destroyed: none for a
/// scalar; for a structure those of its array, then the descriptor.
pub open spec fn free_trace(shape: Shape) -> Seq<Freed>
    decreases shape,
{
    match shape {
        Shape::Scalar(_) => Seq::empty(),
        Shape::Struct(members) => array_trace(members).push(Freed::Descriptor),
    }
}

/// The releases made while an array with these members is destroyed: those
/// of each member in order, then the backing storage.
pub open spec fn array_trace(members: Seq<Shape>) -> Seq<Freed>
    decreases members, members.len() + 1,
{
    members_trace(members, members.len()).push(Freed::Array((members.len() + 1) as usize))
}

impl Descriptor {
    /// What holds of every structure descriptor that this library builds:
    /// size and alignment are not yet filled in, the tag is that of a
    /// structure, and the member array ends in its sentinel.
    #[verifier::type_invariant]
    pub closed spec fn wf(&self) -> bool {
        &&& self.size == 0
        &&& self.alignment == 0
        &&& self.type_ == TypeTag::Struct
        &&& array_wf(self.elements@)
    }

    /// The slots of the member array.
    pub closed spec fn slots(&self) -> Seq<Option<Type>> {
        self.elements@
    }

    /// The value of the size field.
    pub closed spec fn spec_size(&self) -> usize {
        self.size
    }

    /// The value of the alignment field.
    pub closed spec fn spec_alignment(&self) -> u16 {
        self.alignment
    }

    /// The value of the tag field.
    pub closed spec fn spec_type(&self) -> TypeTag {
        self.type_
    }

    /// The shapes of the members.
    pub closed spec fn members(&self) -> Seq<Shape>
        decreases self,
    {
        if self.elements.len() >= 1 {
            Seq::new(
                (self.elements.len() - 1) as nat,
                |i: int|
                    if 0 <= i < self.elements.len() && self.elements[i] is Some {
                        self.elements[i]->0.view()
                    } else {
                        Shape::Scalar(ScalarKind::Void)
                    },
            )
        } else {
            Seq::empty()
        }
    }
}

impl Type {
    /// The shape that this type describes.
    pub closed spec fn view(&self) -> Shape
        decreases self,
    {
        match self.node {
            Node::Borrowed(k) => Shape::Scalar(k),
            Node::Owned(d) => Shape::Struct(d.members()),
        }
    }

    /// The descriptor that this handle owns, if any, is well-formed. This
    /// holds of every handle that a program holds.
    pub open spec fn wf(&self) -> bool {
        match self.descriptor() {
            Some(d) => d.wf(),
            None => true,
        }
    }
}

impl Descriptor {
    /// The members of a descriptor are the shapes of its slots, and it is
    /// well-formed exactly when its size and alignment are zero, its tag is
    /// that of a structure and its array is well-formed.
    pub proof fn lemma_unfold(&self)
        ensures
            self.members() == shapes(self.slots()),
            self.wf() <==> self.spec_size() == 0 && self.spec_alignment() == 0 && self.spec_type()
                == TypeTag::Struct && array_wf(self.slots()),
    {
        assert(self.members().len() == shapes(self.slots()).len());
        assert forall|i: int| 0 <= i < self.members().len() implies self.members()[i] == shapes(
            self.slots(),
        )[i] by {
            assert(self.elements[i] == self.elements@[i]);
        }
        assert(self.members() =~= shapes(self.slots()));
    }
}

/// Computes the length of an array of slots by searching for the
/// sentinel.
pub fn ffi_type_array_len(array: &Vec<Option<Type>>) -> (count: usize)
    requires
        terminated(array@),
    ensures
        count < array@.len(),
        array@[count as int] is None,
        forall|i: int| 0 <= i < count ==> (#[trigger] array@[i]) is Some,
{
    let ghost end: int = choose|n: int| 0 <= n < array@.len() && array@[n] is None;
    let mut count: usize = 0;
    while array[count].is_some()
        invariant
            0 <= count <= end < array.len(),
            array@[end] is None,
            forall|i: int| 0 <= i < count ==> (#[trigger] array@[i]) is Some,
        decreases end - count,
    {
        assert(count != end);
        count += 1;
    }
    count
}

/// Creates an array for `len` members whose slots are all empty; the last of
/// them is the sentinel.
pub fn ffi_type_array_create_empty(len: usize) -> (array: Vec<Option<Type>>)
    ensures
        array@.len() == len + 1,
        forall|i: int| 0 <= i <= len ==> (#[trigger] array@[i]) is None,
{
    let mut array: Vec<Option<Type>> = Vec::new();
    let mut i: usize = 0;
    while i < len
        invariant
            i <= len,
            array@.len() == i,
            forall|j: int| 0 <= j < i ==> (#[trigger] array@[j]) is None,
        decreases len - i,
    {
        array.push(None);
        i += 1;
    }
    array.push(None);
    array
}

/// Creates a sentinel-terminated array of slots. Takes ownership of the
/// elements: slot `i` holds member `i` itself, moved and not copied.
pub fn ffi_type_array_create(elements: Vec<Type>) -> (array: Vec<Option<Type>>)
    ensures
        array@.len() == elements@.len() + 1,
        forall|i: int| 0 <= i < elements@.len() ==> (#[trigger] array@[i]) == Some(elements@[i]),
        array@[elements@.len() as int] is None,
        shapes(array@) == elements@.map_values(|t: Type| t@),
        array_wf(array@),
{
    let mut rest = elements;
    let size = rest.len();
    let mut new = ffi_type_array_create_empty(size);
    let mut i: usize = 0;
    while i < size
        invariant
            i <= size,
            size == elements@.len(),
            rest@.len() == size,
            new@.len() == size + 1,
            new@[size as int] is None,
            forall|j: int| 0 <= j < i ==> (#[trigger] new@[j]) == Some(elements@[j]),
            forall|j: int| i <= j < size ==> (#[trigger] rest@[j]) == elements@[j],
        decreases size - i,
    {
        let mut member = Type::void();
        rest.set_and_swap(i, &mut member);
        new.set(i, Some(member));
        i += 1;
    }
    assert(shapes(new@) =~= elements@.map_values(|t: Type| t@));
    new
}

/// Creates a structure type from an array of slots, which it absorbs. Size
/// and alignment of the new descriptor are zero.
pub fn ffi_type_struct_create_raw(elements: Vec<Option<Type>>) -> (new: Type)
    requires
        array_wf(elements@),
    ensures
        new.wf(),
        new@ == Shape::Struct(shapes(elements@)),
        new.descriptor() is Some,
        new.descriptor()->0.spec_size() == 0,
        new.descriptor()->0.spec_alignment() == 0,
        new.descriptor()->0.spec_type() == TypeTag::Struct,
        new.descriptor()->0.slots() == elements@,
{
    let new = Type {
        node: Node::Owned(
            Box::new(Descriptor { size: 0, alignment: 0, type_: TypeTag::Struct, elements }),
        ),
    };
    proof {
        new.descriptor()->0.lemma_unfold();
    }
    new
}

/// Creates a structure type with the given members. Takes ownership of the
/// members.
pub fn ffi_type_struct_create(elements: Vec<Type>) -> (new: Type)
    ensures
        new.wf(),
        new@ == Shape::Struct(elements@.map_values(|t: Type| t@)),
        new.descriptor() is Some,
        new.descriptor()->0.spec_size() == 0,
        new.descriptor()->0.spec_alignment() == 0,
        new.descriptor()->0.spec_type() == TypeTag::Struct,
        new.descriptor()->0.slots().len() == elements@.len() + 1,
        forall|i: int|
            0 <= i < elements@.len() ==> (#[trigger] new.descriptor()->0.slots()[i]) == Some(
                elements@[i],
            ),
{
    ffi_type_struct_create_raw(ffi_type_array_create(elements))
}

/// Makes a copy of an array: a new array of the same length whose slots hold
/// copies of the members.
pub fn ffi_type_array_clone(old_array: &Vec<Option<Type>>) -> (new: Vec<Option<Type>>)
    requires
        array_wf(old_array@),
    ensures
        array_wf(new@),
        new@.len() == old_array@.len(),
        shapes(new@) == shapes(old_array@),
    decreases old_array,
{
    let size = ffi_type_array_len(old_array);
    let mut new = ffi_type_array_create_empty(size);
    let mut i: usize = 0;
    while i < size
        invariant
            i <= size,
            size == old_array@.len() - 1,
            array_wf(old_array@),
            new@.len() == size + 1,
            new@[size as int] is None,
            forall|j: int|
                0 <= j < i ==> (#[trigger] new@[j]) is Some && new@[j]->0@ == old_array@[j]->0@,
        decreases size - i,
    {
        let member = ffi_type_clone(old_array[i].as_ref().unwrap());
        new.set(i, Some(member));
        i += 1;
    }
    assert(shapes(new@) =~= shapes(old_array@));
    new
}

/// Makes a copy of a type: a scalar is shared, a structure is copied with
/// everything below it.
pub fn ffi_type_clone(old_type: &Type) -> (new: Type)
    ensures
        new.wf(),
        new@ == old_type@,
        new.descriptor() is Some <==> old_type.descriptor() is Some,
    decreases old_type,
{
    match &old_type.node {
        Node::Borrowed(k) => Type { node: Node::Borrowed(*k) },
        Node::Owned(d) => {
            let descriptor: &Descriptor = &**d;
            proof {
                use_type_invariant(descriptor);
                descriptor.lemma_unfold();
            }
            ffi_type_struct_create_raw(ffi_type_array_clone(&descriptor.elements))
        },
    }
}

/// Destroys an array and all of its members: each member in slot order,
/// then the backing storage. Every release is appended to `log`.
pub fn ffi_type_array_destroy(victim: Vec<Option<Type>>, log: &mut Vec<Freed>)
    requires
        array_wf(victim@),
    ensures
        final(log)@ == old(log)@ + array_trace(shapes(victim@)),
    decreases victim,
{
    let ghost members = shapes(victim@);
    let ghost before = log@;
    let mut array = victim;
    let mut current: usize = 0;
    while array[current].is_some()
        invariant
            array_wf(victim@),
            members == shapes(victim@),
            array@.len() == victim@.len(),
            0 <= current < array.len(),
            forall|j: int| current <= j < array@.len() ==> (#[trigger] array@[j]) == victim@[j],
            log@ == before + members_trace(members, current as nat),
        decreases array@.len() - current,
    {
        let mut slot: Option<Type> = None;
        array.set_and_swap(current, &mut slot);
        let member = slot.unwrap();
        assert(member@ == members[current as int]);
        ffi_type_destroy(member, log);
        current += 1;
        assert(log@ =~= before + members_trace(members, current as nat));
    }
    assert(current == members.len());
    log.push(Freed::Array(array.len()));
    assert(log@ =~= before + array_trace(members));
}

/// Destroys a type if it was dynamically allocated: its array first, then
/// the descriptor. A scalar is left alone. Every release is appended to
/// `log`.
pub fn ffi_type_destroy(victim: Type, log: &mut Vec<Freed>)
    ensures
        final(log)@ == old(log)@ + free_trace(victim@),
    decreases victim,
{
    let ghost before = log@;
    match victim.node {
        Node::Borrowed(_) => {
            assert(log@ =~= before + free_trace(victim@));
        },
        Node::Owned(d) => {
            let descriptor = *d;
            proof {
                use_type_invariant(&descriptor);
                descriptor.lemma_unfold();
            }
            ffi_type_array_destroy(descriptor.elements, log);
            log.push(Freed::Descriptor);
            assert(log@ =~= before + free_trace(victim@));
        },
    }
}

impl Type {
    /// The structure descriptor that this handle owns, if it owns one.
    pub closed spec fn descriptor(&self) -> Option<Descriptor> {
        match self.node {
            Node::Borrowed(_) => None,
            Node::Owned(d) => Some(*d),
        }
    }

    /// Returns the representation of the C `void` type. This is only used for
    /// the return type of a call interface.
    pub fn void() -> (t: Self)
        ensures
            t@ == Shape::Scalar(ScalarKind::Void),
            t.wf(),
    {
        Type { node: Node::Borrowed(ScalarKind::Void) }
    }

    /// Returns the unsigned 8-bit numeric type.
    pub fn u8() -> (t: Self)
        ensures
            t@ == Shape::Scalar(ScalarKind::UInt8),
            t.wf(),
    {
        Type { node: Node::Borrowed(ScalarKind::UInt8) }
    }

    /// Returns the signed 8-bit numeric type.
    pub fn i8() -> (t: Self)
        ensures
            t@ == Shape::Scalar(ScalarKind::SInt8),
            t.wf(),
    {
        Type { node: Node::Borrowed(ScalarKind::SInt8) }
    }

    /// Returns the unsigned 16-bit numeric type.
    pub fn u16() -> (t: Self)
        ensures
            t@ == Shape::Scalar(ScalarKind::UInt16),
            t.wf(),
    {
        Type { node: Node::Borrowed(ScalarKind::UInt16) }
    }

    /// Returns the signed 16-bit numeric type.
    pub fn i16() -> (t: Self)
        ensures
            t@ == Shape::Scalar(ScalarKind::SInt16),
            t.wf(),
    {
        Type { node: Node::Borrowed(ScalarKind::SInt16) }
    }

    /// Returns the unsigned 32-bit numeric type.
    pub fn u32() -> (t: Self)
        ensures
            t@ == Shape::Scalar(ScalarKind::UInt32),
            t.wf(),
    {
        Type { node: Node::Borrowed(ScalarKind::UInt32) }
    }

    /// Returns the signed 32-bit numeric type.
    pub fn i32() -> (t: Self)
        ensures
            t@ == Shape::Scalar(ScalarKind::SInt32),
            t.wf(),
    {
        Type { node: Node::Borrowed(ScalarKind::SInt32) }
    }

    /// Returns the unsigned 64-bit numeric type.
    pub fn u64() -> (t: Self)
        ensures
            t@ == Shape::Scalar(ScalarKind::UInt64),
            t.wf(),
    {
        Type { node: Node::Borrowed(ScalarKind::UInt64) }
    }

    /// Returns the signed 64-bit numeric type.
    pub fn i64() -> (t: Self)
        ensures
            t@ == Shape::Scalar(ScalarKind::SInt64),
            t.wf(),
    {
        Type { node: Node::Borrowed(ScalarKind::SInt64) }
    }

    /// Returns the C `float` (32-bit floating point) type.
    pub fn float() -> (t: Self)
        ensures
            t@ == Shape::Scalar(ScalarKind::Float),
            t.wf(),
    {
        Type { node: Node::Borrowed(ScalarKind::Float) }
    }

    /// Returns the C `double` (64-bit floating point) type.
    pub fn double() -> (t: Self)
        ensures
            t@ == Shape::Scalar(ScalarKind::Double),
            t.wf(),
    {
        Type { node: Node::Borrowed(ScalarKind::Double) }
    }

    /// Returns the C `void*` type, for passing any kind of pointer.
    pub fn pointer() -> (t: Self)
        ensures
            t@ == Shape::Scalar(ScalarKind::Pointer),
            t.wf(),
    {
        Type { node: Node::Borrowed(ScalarKind::Pointer) }
    }

    /// Returns the C `long double` (extended-precision floating point) type.
    pub fn longdouble() -> (t: Self)
        ensures
            t@ == Shape::Scalar(ScalarKind::LongDouble),
            t.wf(),
    {
        Type { node: Node::Borrowed(ScalarKind::LongDouble) }
    }

    /// Returns the C `_Complex float` type.
    pub fn c32() -> (t: Self)
        ensures
            t@ == Shape::Scalar(ScalarKind::ComplexFloat),
            t.wf(),
    {
        Type { node: Node::Borrowed(ScalarKind::ComplexFloat) }
    }

    /// Returns the C `_Complex double` type.
    pub fn c64() -> (t: Self)
        ensures
            t@ == Shape::Scalar(ScalarKind::ComplexDouble),
            t.wf(),
    {
        Type { node: Node::Borrowed(ScalarKind::ComplexDouble) }
    }

    /// Returns the C `_Complex long double` type.
    pub fn complex_longdouble() -> (t: Self)
        ensures
            t@ == Shape::Scalar(ScalarKind::ComplexLongDouble),
            t.wf(),
    {
        Type { node: Node::Borrowed(ScalarKind::ComplexLongDouble) }
    }

    /// Returns the C equivalent of Rust `usize`: the unsigned integer type as
    /// wide as an address on this target.
    pub fn usize() -> (t: Self)
        ensures
            t@ == Shape::Scalar(
                ScalarKind::pointer_sized_unsigned(vstd::layout::size_of::<usize>()),
            ),
            t.wf(),
    {
        let bytes: usize = core::mem::size_of::<usize>();
        if bytes == 2 {
            Self::u16()
        } else if bytes == 4 {
            Self::u32()
        } else {
            Self::u64()
        }
    }

    /// Returns the C equivalent of Rust `isize`: the signed integer type as
    /// wide as an address on this target.
    pub fn isize() -> (t: Self)
        ensures
            t@ == Shape::Scalar(ScalarKind::pointer_sized_signed(vstd::layout::size_of::<usize>())),
            t.wf(),
    {
        let bytes: usize = core::mem::size_of::<usize>();
        if bytes == 2 {
            Self::i16()
        } else if bytes == 4 {
            Self::i32()
        } else {
            Self::i64()
        }
    }

    /// Constructs a structure type whose fields have the given types. The
    /// fields are absorbed: slot `i` of the new descriptor holds field `i`
    /// itself.
    pub fn structure(fields: Vec<Type>) -> (t: Self)
        ensures
            t.wf(),
            t@ == Shape::Struct(fields@.map_values(|f: Type| f@)),
            t.descriptor() is Some,
            t.descriptor()->0.spec_size() == 0,
            t.descriptor()->0.spec_alignment() == 0,
            t.descriptor()->0.spec_type() == TypeTag::Struct,
            t.descriptor()->0.slots().len() == fields@.len() + 1,
            forall|i: int|
                0 <= i < fields@.len() ==> (#[trigger] t.descriptor()->0.slots()[i]) == Some(
                    fields@[i],
                ),
    {
        ffi_type_struct_create(fields)
    }

    /// Constructs a structure type whose fields have the given types. The
    /// array is absorbed as it is: its slots become those of the descriptor.
    pub fn structure_from_array(fields: TypeArray) -> (t: Self)
        ensures
            t.wf(),
            t@ == Shape::Struct(fields@),
            t.descriptor() is Some,
            t.descriptor()->0.spec_size() == 0,
            t.descriptor()->0.spec_alignment() == 0,
            t.descriptor()->0.spec_type() == TypeTag::Struct,
            t.descriptor()->0.slots() == fields.slots(),
    {
        proof {
            use_type_invariant(&fields);
        }
        ffi_type_struct_create_raw(fields.slots)
    }

    /// Gives access to the underlying descriptor without handing over
    /// ownership: the scalar's identity, or the structure descriptor that
    /// this handle owns.
    pub fn as_raw_ptr(&self) -> (r: DescriptorRef<'_>)
        ensures
            self.wf(),
            match r {
                DescriptorRef::Static(k) => self.descriptor() is None && self@ == Shape::Scalar(k),
                DescriptorRef::Heap(d) => self.descriptor() == Some(*d) && self@ == Shape::Struct(
                    shapes(d.slots()),
                ),
            },
    {
        match &self.node {
            Node::Borrowed(k) => DescriptorRef::Static(*k),
            Node::Owned(d) => {
                let descriptor: &Descriptor = &**d;
                proof {
                    use_type_invariant(descriptor);
                    descriptor.lemma_unfold();
                }
                DescriptorRef::Heap(descriptor)
            },
        }
    }

    /// The tag of the underlying descriptor: the structure tag exactly for a
    /// structure.
    pub fn tag(&self) -> (t: TypeTag)
        ensures
            t == match self@ {
                Shape::Scalar(k) => k.spec_tag(),
                Shape::Struct(_) => TypeTag::Struct,
            },
    {
        match &self.node {
            Node::Borrowed(k) => k.tag(),
            Node::Owned(d) => {
                let descriptor: &Descriptor = &**d;
                proof {
                    use_type_invariant(descriptor);
                }
                descriptor.type_
            },
        }
    }

    /// Ends this handle's lifetime and returns the releases made, in order.
    pub fn destroy(self) -> (log: Vec<Freed>)
        ensures
            log@ == free_trace(self@),
    {
        let mut log: Vec<Freed> = Vec::new();
        ffi_type_destroy(self, &mut log);
        assert(log@ =~= free_trace(self@));
        log
    }

    /// A handle that owns a descriptor describes a structure whose members
    /// are the shapes of the descriptor's slots; one that owns none describes
    /// a scalar.
    pub proof fn lemma_descriptor(&self)
        ensures
            match self.descriptor() {
                Some(d) => self@ == Shape::Struct(shapes(d.slots())),
                None => self@ is Scalar,
            },
    {
        match self.node {
            Node::Borrowed(_) => {},
            Node::Owned(d) => {
                d.lemma_unfold();
            },
        }
    }
}

impl Descriptor {
    /// The size in bytes; zero until a call interface is prepared.
    pub fn size(&self) -> (n: usize)
        ensures
            n == self.spec_size(),
    {
        self.size
    }

    /// The alignment in bytes; zero until a call interface is prepared.
    pub fn alignment(&self) -> (n: u16)
        ensures
            n == self.spec_alignment(),
    {
        self.alignment
    }

    /// The tag; that of a structure in every well-formed descriptor.
    pub fn type_(&self) -> (t: TypeTag)
        ensures
            t == self.spec_type(),
    {
        self.type_
    }

    /// The sentinel-terminated array of member slots.
    pub fn elements(&self) -> (slots: &Vec<Option<Type>>)
        ensures
            slots@ == self.slots(),
            array_wf(slots@),
    {
        proof {
            use_type_invariant(self);
        }
        &self.elements
    }
}

impl TypeArray {
    /// The slots of the backing storage, the sentinel included.
    pub closed spec fn slots(&self) -> Seq<Option<Type>> {
        self.slots@
    }

    /// The shapes of the members, in order.
    pub open spec fn view(&self) -> Seq<Shape> {
        shapes(self.slots())
    }

    /// The array ends in its sentinel, its only empty slot. This holds of
    /// every array that a program holds.
    #[verifier::type_invariant]
    pub open spec fn wf(&self) -> bool {
        array_wf(self.slots())
    }

    /// Constructs an array of the given types, which it absorbs: slot `i`
    /// holds element `i` itself.
    pub fn new(elements: Vec<Type>) -> (a: Self)
        ensures
            a.wf(),
            a@ == elements@.map_values(|t: Type| t@),
            a@.len() == elements@.len(),
            a.slots().len() == elements@.len() + 1,
            forall|i: int|
                0 <= i < elements@.len() ==> (#[trigger] a.slots()[i]) == Some(elements@[i]),
    {
        TypeArray { slots: ffi_type_array_create(elements) }
    }

    /// The length of this array of types, found by a scan for the sentinel.
    pub fn len(&self) -> (n: usize)
        ensures
            n == self@.len(),
            n == self.slots().len() - 1,
    {
        proof {
            use_type_invariant(self);
        }
        ffi_type_array_len(&self.slots)
    }

    /// Gives access to the underlying sentinel-terminated slots without
    /// handing over ownership.
    pub fn as_raw_ptr(&self) -> (slots: &Vec<Option<Type>>)
        ensures
            slots@ == self.slots(),
            array_wf(slots@),
    {
        proof {
            use_type_invariant(self);
        }
        &self.slots
    }

    /// Ends this handle's lifetime and returns the releases made, in order.
    pub fn destroy(self) -> (log: Vec<Freed>)
        ensures
            log@ == array_trace(self@),
    {
        proof {
            use_type_invariant(&self);
        }
        let mut log: Vec<Freed> = Vec::new();
        ffi_type_array_destroy(self.slots, &mut log);
        assert(log@ =~= array_trace(self@));
        log
    }
}

impl Clone for Type {
    /// Makes a copy of this type that shares nothing owned with it: a scalar
    /// refers to the same descriptor, a structure is copied with everything
    /// below it.
    fn clone(&self) -> (t: Self)
        ensures
            t.wf(),
            t@ == self@,
            t.descriptor() is Some <==> self.descriptor() is Some,
    {
        ffi_type_clone(self)
    }
}

impl Clone for TypeArray {
    /// Makes a copy of this array that shares nothing owned with it.
    fn clone(&self) -> (a: Self)
        ensures
            a.wf(),
            a@ == self@,
            a.slots().len() == self.slots().len(),
    {
        proof {
            use_type_invariant(self);
        }
        TypeArray { slots: ffi_type_array_clone(&self.slots) }
    }
}

} // verus!
