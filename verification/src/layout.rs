//! Vertex-stream layouts: which attributes a stream carries, where each one
//! starts inside an element, and how far apart consecutive elements lie.

use vstd::prelude::*;

verus! {

/// The shape of one attribute as the vertex stage reads it.
#[derive(Clone, Copy, Debug, PartialEq, Eq, Structural)]
pub enum AttributeFormat {
    /// One 32-bit float.
    Float32,
    /// Two 32-bit floats.
    Float32x2,
}

impl AttributeFormat {
    /// Bytes that one attribute of this format occupies.
    pub open spec fn byte_size(self) -> nat {
        match self {
            AttributeFormat::Float32 => 4,
            AttributeFormat::Float32x2 => 8,
        }
    }
}

/// Whether a stream advances once per vertex or once per instance.
#[derive(Clone, Copy, Debug, PartialEq, Eq, Structural)]
pub enum StepMode {
    Vertex,
    Instance,
}

/// An attribute still to be placed: the shader location that reads it and its format.
#[derive(Clone, Copy, Debug, PartialEq, Eq, Structural)]
pub struct Slot {
    pub shader_location: u32,
    pub format: AttributeFormat,
}

/// A placed attribute: its format, its byte offset inside an element, and the
/// shader location that reads it.
#[derive(Clone, Copy, Debug, PartialEq, Eq, Structural)]
pub struct Attribute {
    pub format: AttributeFormat,
    pub offset: u64,
    pub shader_location: u32,
}

/// The layout of one vertex stream.
#[derive(Clone, Debug, PartialEq, Eq)]
pub struct BufferLayout {
    pub array_stride: u64,
    pub step_mode: StepMode,
    pub attributes: Vec<Attribute>,
}

/// A layout as a mathematical value.
pub struct LayoutView {
    pub array_stride: u64,
    pub step_mode: StepMode,
    pub attributes: Seq<Attribute>,
}

impl View for BufferLayout {
    type V = LayoutView;

    open spec fn view(&self) -> LayoutView {
        LayoutView {
            array_stride: self.array_stride,
            step_mode: self.step_mode,
            attributes: self.attributes@,
        }
    }
}

impl LayoutView {
    /// Whether the attributes fit the stride, keep clear of one another and
    /// feed different shader locations.
    pub open spec fn is_sound(self) -> bool {
        layout_is_sound(self.array_stride as nat, self.attributes)
    }
}

/// Bytes taken by the slots when laid out one after another without gaps.
pub open spec fn packed_size(slots: Seq<Slot>) -> nat
    decreases slots.len(),
{
    if slots.len() == 0 {
        0
    } else {
        packed_size(slots.drop_last()) + slots.last().format.byte_size()
    }
}

/// Slot `i` placed directly behind the slots before it.
pub open spec fn packed_attribute(slots: Seq<Slot>, i: int) -> Attribute {
    Attribute {
        format: slots[i].format,
        offset: packed_size(slots.take(i)) as u64,
        shader_location: slots[i].shader_location,
    }
}

/// All slots placed one after another, the first at offset 0.
pub open spec fn packed(slots: Seq<Slot>) -> Seq<Attribute> {
    Seq::new(slots.len(), |i: int| packed_attribute(slots, i))
}

/// Whether attribute `a` lies wholly before attribute `b`.
pub open spec fn lies_before(a: Attribute, b: Attribute) -> bool {
    a.offset + a.format.byte_size() <= b.offset
}

/// A layout is sound when every attribute fits inside one element, no two
/// attributes share a byte, and no shader location is fed twice.
pub open spec fn layout_is_sound(stride: nat, attributes: Seq<Attribute>) -> bool {
    &&& forall|i: int|
        0 <= i < attributes.len() ==> (#[trigger] attributes[i]).offset
            + attributes[i].format.byte_size() <= stride
    &&& forall|i: int, j: int|
        0 <= i < j < attributes.len() ==> lies_before(
            #[trigger] attributes[i],
            #[trigger] attributes[j],
        )
    &&& forall|i: int, j: int|
        0 <= i < j < attributes.len() ==> (#[trigger] attributes[i]).shader_location != (
        #[trigger] attributes[j]).shader_location
}

/// Whether some attribute is fed from shader location `location`.
pub open spec fn uses_location(attributes: Seq<Attribute>, location: u32) -> bool {
    exists|i: int| 0 <= i < attributes.len() && (#[trigger] attributes[i]).shader_location == location
}

/// Appending a slot grows the packed size by that slot's size.
pub proof fn lemma_packed_size_push(slots: Seq<Slot>, slot: Slot)
    ensures
        packed_size(slots.push(slot)) == packed_size(slots) + slot.format.byte_size(),
{
    assert(slots.push(slot).drop_last() =~= slots);
}

/// A prefix never takes more bytes than a longer prefix of the same slots.
pub proof fn lemma_packed_size_prefix(slots: Seq<Slot>, i: int, j: int)
    requires
        0 <= i <= j <= slots.len(),
    ensures
        packed_size(slots.take(i)) <= packed_size(slots.take(j)),
        j < slots.len() ==> packed_size(slots.take(j + 1)) == packed_size(slots.take(j))
            + slots[j].format.byte_size(),
        packed_size(slots.take(slots.len() as int)) == packed_size(slots),
    decreases j - i,
{
    assert(slots.take(slots.len() as int) =~= slots);
    if j < slots.len() {
        assert(slots.take(j + 1).drop_last() =~= slots.take(j));
    }
    if i < j {
        assert(slots.take(j).drop_last() =~= slots.take(j - 1));
        lemma_packed_size_prefix(slots, i, j - 1);
    }
}

/// Slots packed without gaps never overlap and all fit inside the packed size.
pub proof fn lemma_packed_is_disjoint(slots: Seq<Slot>)
    ensures
        forall|i: int|
            0 <= i < slots.len() ==> packed_size(slots.take(i)) + (#[trigger] slots[i]).format.byte_size()
                <= packed_size(slots),
        forall|i: int, j: int|
            0 <= i < j < slots.len() ==> packed_size(slots.take(i)) + (#[trigger] slots[i]).format.byte_size()
                <= packed_size(#[trigger] slots.take(j)),
{
    assert forall|i: int| 0 <= i < slots.len() implies packed_size(slots.take(i)) + (
    #[trigger] slots[i]).format.byte_size() <= packed_size(slots) by {
        lemma_packed_size_prefix(slots, i, i);
        lemma_packed_size_prefix(slots, i + 1, slots.len() as int);
    }
    assert forall|i: int, j: int| 0 <= i < j < slots.len() implies packed_size(slots.take(i)) + (
    #[trigger] slots[i]).format.byte_size() <= packed_size(#[trigger] slots.take(j)) by {
        lemma_packed_size_prefix(slots, i, i);
        lemma_packed_size_prefix(slots, i + 1, j);
    }
}

/// Whether no two slots name the same shader location.
pub open spec fn locations_distinct(slots: Seq<Slot>) -> bool {
    forall|i: int, j: int|
        0 <= i < j < slots.len() ==> (#[trigger] slots[i]).shader_location != (
        #[trigger] slots[j]).shader_location
}

/// Packing slots with distinct locations into a stride of their packed size
/// gives a sound layout.
pub proof fn lemma_packed_layout_is_sound(slots: Seq<Slot>)
    requires
        locations_distinct(slots),
        packed_size(slots) <= u64::MAX,
    ensures
        layout_is_sound(packed_size(slots), packed(slots)),
{
    lemma_packed_is_disjoint(slots);
    let attributes = packed(slots);
    assert forall|i: int| 0 <= i < attributes.len() implies (#[trigger] attributes[i]).offset
        + attributes[i].format.byte_size() <= packed_size(slots) by {
        assert(slots[i].format == attributes[i].format);
    }
    assert forall|i: int, j: int| 0 <= i < j < attributes.len() implies lies_before(
        #[trigger] attributes[i],
        #[trigger] attributes[j],
    ) by {
        assert(slots[i].format == attributes[i].format);
        assert(packed_size(slots.take(i)) + slots[i].format.byte_size() <= packed_size(
            slots.take(j),
        ));
        lemma_packed_size_prefix(slots, j, slots.len() as int);
    }
    assert forall|i: int, j: int| 0 <= i < j < attributes.len() implies (
    #[trigger] attributes[i]).shader_location != (#[trigger] attributes[j]).shader_location by {
        assert(slots[i].shader_location != slots[j].shader_location);
    }
}

/// Asks `wgpu::VertexFormat::size` for the byte size of the matching format.
/// Trusted: that it answers 4 for `Float32` and 8 for `Float32x2`.
#[verifier::external_body]
fn format_size(format: AttributeFormat) -> (size: u64)
    ensures
        size == format.byte_size(),
{
    let outside = match format {
        AttributeFormat::Float32 => wgpu::VertexFormat::Float32,
        AttributeFormat::Float32x2 => wgpu::VertexFormat::Float32x2,
    };
    outside.size()
}

/// Lays the slots out one after another, the first at offset 0, with the
/// stride equal to the bytes they take together.
pub fn packed_layout(slots: &Vec<Slot>, step_mode: StepMode) -> (layout: BufferLayout)
    requires
        packed_size(slots@) <= u64::MAX,
    ensures
        layout.step_mode == step_mode,
        layout.array_stride == packed_size(slots@),
        layout.attributes@ == packed(slots@),
{
    let mut attributes: Vec<Attribute> = Vec::new();
    let mut offset: u64 = 0;
    let mut i: usize = 0;
    while i < slots.len()
        invariant
            i <= slots@.len(),
            packed_size(slots@) <= u64::MAX,
            offset == packed_size(slots@.take(i as int)),
            attributes@.len() == i,
            forall|k: int| 0 <= k < i ==> (#[trigger] attributes@[k]) == packed_attribute(slots@, k),
        decreases slots@.len() - i,
    {
        let slot: Slot = slots[i];
        let size: u64 = format_size(slot.format);
        proof {
            lemma_packed_size_prefix(slots@, i as int, i as int);
            lemma_packed_size_prefix(slots@, i as int + 1, slots@.len() as int);
        }
        attributes.push(
            Attribute { format: slot.format, offset, shader_location: slot.shader_location },
        );
        offset = offset + size;
        i = i + 1;
    }
    proof {
        lemma_packed_size_prefix(slots@, 0, slots@.len() as int);
        assert(attributes@ =~= packed(slots@));
    }
    BufferLayout { array_stride: offset, step_mode, attributes }
}

} // verus!
