//! The per-star parameters: how many stars there are, from which range each
//! parameter is drawn, and how the parameters lie in the per-instance stream.

use vstd::prelude::*;
use crate::buffer::{BufferPlan, BufferUsage};
use crate::layout::{
    lemma_packed_size_push, packed_layout, Attribute, AttributeFormat, BufferLayout, LayoutView,
    Slot, StepMode,
};
use crate::platform::{Platform, RandomSource};

verus! {

/// Number of stars drawn.
pub const STAR_INSTANCE_COUNT: u32 = 500;

/// Bytes that one instance occupies in the per-instance stream.
pub const INSTANCE_STRIDE: u64 = 28;

/// Number of random draws that make one instance.
pub const DRAWS_PER_INSTANCE: usize = 7;

/// The parameters of one star, in the order in which they are drawn and stored.
#[derive(Clone, Copy, Debug, PartialEq, Eq, Structural)]
pub enum InstanceField {
    PositionX,
    PositionY,
    Scale,
    InitialRotation,
    SpeedX,
    SpeedY,
    RotationSpeed,
}

/// The unit in which the bounds of a range are counted.
#[derive(Clone, Copy, Debug, PartialEq, Eq, Structural)]
pub enum RangeUnit {
    /// One thousandth.
    Thousandth,
    /// One thousandth of a full turn, in radians.
    ThousandthOfTurn,
}

/// The range a parameter is drawn from, uniformly: `low` is included, `high`
/// is not.
#[derive(Clone, Copy, Debug, PartialEq, Eq, Structural)]
pub struct FieldRange {
    pub low: i32,
    pub high: i32,
    pub unit: RangeUnit,
}

impl InstanceField {
    /// Position within ±0.9, scale from 0.02 to 0.05, initial rotation within
    /// one full turn, speed within ±0.3, rotation speed from 0.5 to 2.
    pub open spec fn spec_range(self) -> FieldRange {
        match self {
            InstanceField::PositionX => FieldRange { low: (-900) as i32, high: 900, unit: RangeUnit::Thousandth },
            InstanceField::PositionY => FieldRange { low: (-900) as i32, high: 900, unit: RangeUnit::Thousandth },
            InstanceField::Scale => FieldRange { low: 20, high: 50, unit: RangeUnit::Thousandth },
            InstanceField::InitialRotation => FieldRange {
                low: 0,
                high: 1000,
                unit: RangeUnit::ThousandthOfTurn,
            },
            InstanceField::SpeedX => FieldRange { low: (-300) as i32, high: 300, unit: RangeUnit::Thousandth },
            InstanceField::SpeedY => FieldRange { low: (-300) as i32, high: 300, unit: RangeUnit::Thousandth },
            InstanceField::RotationSpeed => FieldRange {
                low: 500,
                high: 2000,
                unit: RangeUnit::Thousandth,
            },
        }
    }

    /// The range this parameter is drawn from.
    pub fn range(self) -> (range: FieldRange)
        ensures
            range == self.spec_range(),
            range.low < range.high,
    {
        match self {
            InstanceField::PositionX => FieldRange { low: -900, high: 900, unit: RangeUnit::Thousandth },
            InstanceField::PositionY => FieldRange { low: -900, high: 900, unit: RangeUnit::Thousandth },
            InstanceField::Scale => FieldRange { low: 20, high: 50, unit: RangeUnit::Thousandth },
            InstanceField::InitialRotation => FieldRange {
                low: 0,
                high: 1000,
                unit: RangeUnit::ThousandthOfTurn,
            },
            InstanceField::SpeedX => FieldRange { low: -300, high: 300, unit: RangeUnit::Thousandth },
            InstanceField::SpeedY => FieldRange { low: -300, high: 300, unit: RangeUnit::Thousandth },
            InstanceField::RotationSpeed => FieldRange {
                low: 500,
                high: 2000,
                unit: RangeUnit::Thousandth,
            },
        }
    }
}

/// The order in which the parameters of one instance are drawn and stored.
pub open spec fn draw_order_seq() -> Seq<InstanceField> {
    seq![
        InstanceField::PositionX,
        InstanceField::PositionY,
        InstanceField::Scale,
        InstanceField::InitialRotation,
        InstanceField::SpeedX,
        InstanceField::SpeedY,
        InstanceField::RotationSpeed,
    ]
}

/// The parameters of one instance in drawing order.
pub fn draw_order() -> (fields: Vec<InstanceField>)
    ensures
        fields@ == draw_order_seq(),
        fields@.len() == DRAWS_PER_INSTANCE,
        4 * fields@.len() == INSTANCE_STRIDE,
{
    let mut fields: Vec<InstanceField> = Vec::new();
    fields.push(InstanceField::PositionX);
    fields.push(InstanceField::PositionY);
    fields.push(InstanceField::Scale);
    fields.push(InstanceField::InitialRotation);
    fields.push(InstanceField::SpeedX);
    fields.push(InstanceField::SpeedY);
    fields.push(InstanceField::RotationSpeed);
    assert(fields@ =~= draw_order_seq());
    fields
}

/// How the instances are to be generated: how many, and from which source.
#[derive(Clone, Copy, Debug, PartialEq, Eq, Structural)]
pub struct InstancePlan {
    pub count: u32,
    pub source: RandomSource,
}

/// The plan for the star instances on `platform`: always 500 of them, from
/// the fixed seed on an embedded target and from fresh entropy on a native one.
pub fn instance_plan(platform: Platform) -> (plan: InstancePlan)
    ensures
        plan.count == STAR_INSTANCE_COUNT,
        plan.source == platform.spec_random_source(),
{
    InstancePlan { count: STAR_INSTANCE_COUNT, source: platform.random_source() }
}

/// The per-instance stream: advancing per instance, 28 bytes apart, carrying
/// position, scale, initial rotation, speed and rotation speed for shader
/// locations 2 to 6. Shader location 1 is left out.
pub open spec fn instance_layout() -> LayoutView {
    LayoutView {
        array_stride: INSTANCE_STRIDE,
        step_mode: StepMode::Instance,
        attributes: seq![
            Attribute { format: AttributeFormat::Float32x2, offset: 0, shader_location: 2 },
            Attribute { format: AttributeFormat::Float32, offset: 8, shader_location: 3 },
            Attribute { format: AttributeFormat::Float32, offset: 12, shader_location: 4 },
            Attribute { format: AttributeFormat::Float32x2, offset: 16, shader_location: 5 },
            Attribute { format: AttributeFormat::Float32, offset: 24, shader_location: 6 },
        ],
    }
}

/// Layout of the per-instance stream.
pub fn get_instance_buffer_layout() -> (layout: BufferLayout)
    ensures
        layout@ == instance_layout(),
{
    let mut slots: Vec<Slot> = Vec::new();
    slots.push(Slot { shader_location: 2, format: AttributeFormat::Float32x2 });
    slots.push(Slot { shader_location: 3, format: AttributeFormat::Float32 });
    slots.push(Slot { shader_location: 4, format: AttributeFormat::Float32 });
    slots.push(Slot { shader_location: 5, format: AttributeFormat::Float32x2 });
    slots.push(Slot { shader_location: 6, format: AttributeFormat::Float32 });
    proof {
        let s = slots@;
        let s0 = Seq::<Slot>::empty();
        let s1 = s0.push(s[0]);
        let s2 = s1.push(s[1]);
        let s3 = s2.push(s[2]);
        let s4 = s3.push(s[3]);
        let s5 = s4.push(s[4]);
        lemma_packed_size_push(s0, s[0]);
        lemma_packed_size_push(s1, s[1]);
        lemma_packed_size_push(s2, s[2]);
        lemma_packed_size_push(s3, s[3]);
        lemma_packed_size_push(s4, s[4]);
        assert(s.take(0) =~= s0);
        assert(s.take(1) =~= s1);
        assert(s.take(2) =~= s2);
        assert(s.take(3) =~= s3);
        assert(s.take(4) =~= s4);
        assert(s =~= s5);
    }
    let layout = packed_layout(&slots, StepMode::Instance);
    assert(layout.attributes@ =~= instance_layout().attributes);
    layout
}

/// What the buffer holding `count` instances must be: 28 bytes for each,
/// usable as a vertex buffer only.
pub fn get_instance_buffer(count: u32) -> (plan: BufferPlan)
    ensures
        plan.size == INSTANCE_STRIDE * count,
        plan.usage == BufferUsage::vertex_only(),
{
    let count: u64 = count as u64;
    BufferPlan { size: INSTANCE_STRIDE * count, usage: BufferUsage::vertex() }
}

} // verus!
