use starfield::instance::{get_instance_buffer, get_instance_buffer_layout};
use starfield::layout::{packed_layout, Attribute, AttributeFormat, Slot, StepMode};
use starfield::vertex::Vertex;

#[test]
fn vertex_stream_carries_one_position_at_location_zero() {
    let layout = Vertex::get_vertex_buffer_layout();
    assert_eq!(layout.array_stride, 8);
    assert_eq!(layout.step_mode, StepMode::Vertex);
    assert_eq!(
        layout.attributes,
        vec![Attribute { format: AttributeFormat::Float32x2, offset: 0, shader_location: 0 }]
    );
}

#[test]
fn instance_stream_carries_five_attributes_at_locations_two_to_six() {
    let layout = get_instance_buffer_layout();
    assert_eq!(layout.array_stride, 28);
    assert_eq!(layout.step_mode, StepMode::Instance);
    assert_eq!(
        layout.attributes,
        vec![
            Attribute { format: AttributeFormat::Float32x2, offset: 0, shader_location: 2 },
            Attribute { format: AttributeFormat::Float32, offset: 8, shader_location: 3 },
            Attribute { format: AttributeFormat::Float32, offset: 12, shader_location: 4 },
            Attribute { format: AttributeFormat::Float32x2, offset: 16, shader_location: 5 },
            Attribute { format: AttributeFormat::Float32, offset: 24, shader_location: 6 },
        ]
    );
}

#[test]
fn location_one_is_skipped_by_both_streams() {
    let vertex = Vertex::get_vertex_buffer_layout();
    let instance = get_instance_buffer_layout();
    let mut locations: Vec<u32> = Vec::new();
    for attribute in vertex.attributes.iter().chain(instance.attributes.iter()) {
        locations.push(attribute.shader_location);
    }
    assert_eq!(locations, vec![0, 2, 3, 4, 5, 6]);
    assert!(!locations.contains(&1));
}

#[test]
fn packed_attributes_follow_one_another_without_gaps() {
    let slots = vec![
        Slot { shader_location: 7, format: AttributeFormat::Float32 },
        Slot { shader_location: 9, format: AttributeFormat::Float32x2 },
        Slot { shader_location: 8, format: AttributeFormat::Float32x2 },
        Slot { shader_location: 1, format: AttributeFormat::Float32 },
    ];
    let layout = packed_layout(&slots, StepMode::Vertex);
    assert_eq!(layout.array_stride, 24);
    let offsets: Vec<u64> = layout.attributes.iter().map(|a| a.offset).collect();
    assert_eq!(offsets, vec![0, 4, 12, 20]);
    let locations: Vec<u32> = layout.attributes.iter().map(|a| a.shader_location).collect();
    assert_eq!(locations, vec![7, 9, 8, 1]);
}

#[test]
fn packing_no_slots_gives_an_empty_layout() {
    let slots: Vec<Slot> = Vec::new();
    let layout = packed_layout(&slots, StepMode::Instance);
    assert_eq!(layout.array_stride, 0);
    assert!(layout.attributes.is_empty());
    assert_eq!(layout.step_mode, StepMode::Instance);
}

#[test]
fn packed_sizes_agree_with_the_graphics_library() {
    let single = packed_layout(
        &vec![Slot { shader_location: 0, format: AttributeFormat::Float32 }],
        StepMode::Vertex,
    );
    let double = packed_layout(
        &vec![Slot { shader_location: 0, format: AttributeFormat::Float32x2 }],
        StepMode::Vertex,
    );
    assert_eq!(single.array_stride, wgpu::VertexFormat::Float32.size());
    assert_eq!(double.array_stride, wgpu::VertexFormat::Float32x2.size());
    assert_eq!(single.array_stride, 4);
    assert_eq!(double.array_stride, 8);
}

#[test]
fn instance_layout_matches_what_the_attribute_macro_of_the_graphics_library_lays_out() {
    let layout = get_instance_buffer_layout();
    let formats = [
        (2u32, wgpu::VertexFormat::Float32x2),
        (3, wgpu::VertexFormat::Float32),
        (4, wgpu::VertexFormat::Float32),
        (5, wgpu::VertexFormat::Float32x2),
        (6, wgpu::VertexFormat::Float32),
    ];
    let mut offset: u64 = 0;
    for (attribute, (location, format)) in layout.attributes.iter().zip(formats.iter()) {
        assert_eq!(attribute.shader_location, *location);
        assert_eq!(attribute.offset, offset);
        offset += format.size();
    }
    assert_eq!(layout.array_stride, offset);
}

#[test]
fn instance_buffer_takes_twenty_eight_bytes_per_instance() {
    assert_eq!(get_instance_buffer(500).size, 14000);
    assert_eq!(get_instance_buffer(0).size, 0);
    assert_eq!(get_instance_buffer(u32::MAX).size, 28 * u32::MAX as u64);
    assert!(get_instance_buffer(1).usage.vertex);
    assert!(!get_instance_buffer(1).usage.index);
}
