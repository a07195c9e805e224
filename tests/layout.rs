use shader_binding_generator::classify::{byte_size, classify, FormatId, LayoutError};
use shader_binding_generator::emit::{generate, render};
use shader_binding_generator::layout::{
    build, AttributeDescriptor, LayoutBuilder, LayoutResult, OffsetPolicy,
};
use shader_binding_generator::types::{
    Argument, Binding, BuiltIn, EntryPoint, ScalarKind, ShaderModule, TypeDescriptor, VectorSize,
};
use shader_binding_generator::walker::walk;

fn float_scalar() -> TypeDescriptor {
    TypeDescriptor::Scalar { kind: ScalarKind::Float, width: 4 }
}

fn float_vec(size: VectorSize) -> TypeDescriptor {
    TypeDescriptor::Vector { size, kind: ScalarKind::Float, width: 4 }
}

fn location(index: u32) -> Binding {
    Binding::Location { index, interpolation: None, sampling: None, second_blend_source: false }
}

fn arg(type_id: usize, binding: Binding) -> Argument {
    Argument { type_id, binding }
}

fn attr(location: u32, format: FormatId, offset: u32) -> AttributeDescriptor {
    AttributeDescriptor { location, format, offset }
}

fn two_float_locations() -> Vec<(Argument, TypeDescriptor)> {
    vec![
        (arg(0, location(0)), float_vec(VectorSize::Tri)),
        (arg(1, location(1)), float_vec(VectorSize::Bi)),
    ]
}

fn location_and_vertex_index() -> Vec<(Argument, TypeDescriptor)> {
    vec![
        (arg(0, location(0)), float_vec(VectorSize::Tri)),
        (arg(1, Binding::BuiltIn(BuiltIn::VertexIndex)), float_vec(VectorSize::Bi)),
    ]
}

#[test]
fn classify_float_formats() {
    assert_eq!(classify(float_scalar()), Ok(FormatId::R32Float));
    assert_eq!(classify(float_vec(VectorSize::Bi)), Ok(FormatId::R32G32Float));
    assert_eq!(classify(float_vec(VectorSize::Tri)), Ok(FormatId::R32G32B32Float));
    assert_eq!(classify(float_vec(VectorSize::Quad)), Ok(FormatId::R32G32B32A32Float));
}

#[test]
fn classify_rejects_other_types() {
    let others = vec![
        TypeDescriptor::Scalar { kind: ScalarKind::SignedInt, width: 4 },
        TypeDescriptor::Scalar { kind: ScalarKind::UnsignedInt, width: 4 },
        TypeDescriptor::Scalar { kind: ScalarKind::Float, width: 8 },
        TypeDescriptor::Scalar { kind: ScalarKind::Bool, width: 1 },
        TypeDescriptor::Vector { size: VectorSize::Quad, kind: ScalarKind::Float, width: 2 },
        TypeDescriptor::Vector { size: VectorSize::Bi, kind: ScalarKind::SignedInt, width: 4 },
        TypeDescriptor::Other,
    ];
    for t in others {
        assert_eq!(classify(t), Err(LayoutError::UnsupportedType(t)));
    }
}

#[test]
fn byte_size_of_scalars_and_vectors() {
    assert_eq!(byte_size(float_scalar()), Ok(4));
    assert_eq!(byte_size(float_vec(VectorSize::Bi)), Ok(8));
    assert_eq!(byte_size(float_vec(VectorSize::Tri)), Ok(12));
    assert_eq!(byte_size(float_vec(VectorSize::Quad)), Ok(16));
    assert_eq!(
        byte_size(TypeDescriptor::Vector { size: VectorSize::Tri, kind: ScalarKind::SignedInt, width: 2 }),
        Ok(6)
    );
    assert_eq!(byte_size(TypeDescriptor::Scalar { kind: ScalarKind::Float, width: 8 }), Ok(8));
    assert_eq!(
        byte_size(TypeDescriptor::Other),
        Err(LayoutError::UnsupportedType(TypeDescriptor::Other))
    );
}

#[test]
fn two_locations_layout() {
    for policy in [OffsetPolicy::BuiltinsConsumeOffset, OffsetPolicy::BuiltinsSkipOffset] {
        let layout = build(&two_float_locations(), policy).unwrap();
        assert_eq!(
            layout.attributes,
            vec![attr(0, FormatId::R32G32B32Float, 0), attr(1, FormatId::R32G32Float, 12)]
        );
        assert_eq!(layout.stride, 20);
    }
}

#[test]
fn location_and_vertex_indexuiltin_consumes_offset() {
    let layout = build(&location_and_vertex_index(), OffsetPolicy::BuiltinsConsumeOffset).unwrap();
    assert_eq!(layout.attributes, vec![attr(0, FormatId::R32G32B32Float, 0)]);
    assert_eq!(layout.stride, 20);
}

#[test]
fn location_and_vertex_indexuiltin_skips_offset() {
    let layout = build(&location_and_vertex_index(), OffsetPolicy::BuiltinsSkipOffset).unwrap();
    assert_eq!(layout.attributes, vec![attr(0, FormatId::R32G32B32Float, 0)]);
    assert_eq!(layout.stride, 12);
}

#[test]
fn builtin_before_location_shifts_offset_only_when_consumed() {
    let pairs = vec![
        (arg(0, Binding::BuiltIn(BuiltIn::InstanceIndex)), float_scalar()),
        (arg(1, location(3)), float_vec(VectorSize::Quad)),
        (arg(2, Binding::Unbound), float_vec(VectorSize::Bi)),
        (arg(0, location(1)), float_scalar()),
    ];
    let consumed = build(&pairs, OffsetPolicy::BuiltinsConsumeOffset).unwrap();
    assert_eq!(
        consumed.attributes,
        vec![attr(3, FormatId::R32G32B32A32Float, 4), attr(1, FormatId::R32Float, 28)]
    );
    assert_eq!(consumed.stride, 32);
    let skipped = build(&pairs, OffsetPolicy::BuiltinsSkipOffset).unwrap();
    assert_eq!(
        skipped.attributes,
        vec![attr(3, FormatId::R32G32B32A32Float, 0), attr(1, FormatId::R32Float, 16)]
    );
    assert_eq!(skipped.stride, 20);
}

#[test]
fn signed_int_location_fails_anywhere() {
    let sint = TypeDescriptor::Scalar { kind: ScalarKind::SignedInt, width: 4 };
    for position in 0..3 {
        let mut pairs = two_float_locations();
        pairs.insert(position, (arg(2, location(7)), sint));
        for policy in [OffsetPolicy::BuiltinsConsumeOffset, OffsetPolicy::BuiltinsSkipOffset] {
            assert_eq!(build(&pairs, policy).err(), Some(LayoutError::UnsupportedType(sint)));
        }
    }
}

#[test]
fn signed_int_builtin_is_sized_not_classified() {
    let sint = TypeDescriptor::Scalar { kind: ScalarKind::SignedInt, width: 4 };
    let pairs = vec![
        (arg(0, Binding::BuiltIn(BuiltIn::VertexIndex)), sint),
        (arg(1, location(0)), float_scalar()),
    ];
    let layout = build(&pairs, OffsetPolicy::BuiltinsConsumeOffset).unwrap();
    assert_eq!(layout.attributes, vec![attr(0, FormatId::R32Float, 4)]);
    assert_eq!(layout.stride, 8);
}

#[test]
fn other_type_fails_where_it_is_sized() {
    let pairs = vec![
        (arg(0, location(0)), float_scalar()),
        (arg(1, Binding::Unbound), TypeDescriptor::Other),
    ];
    assert_eq!(
        build(&pairs, OffsetPolicy::BuiltinsConsumeOffset).err(),
        Some(LayoutError::UnsupportedType(TypeDescriptor::Other))
    );
    let layout = build(&pairs, OffsetPolicy::BuiltinsSkipOffset).unwrap();
    assert_eq!(layout.attributes, vec![attr(0, FormatId::R32Float, 0)]);
    assert_eq!(layout.stride, 4);
}

#[test]
fn empty_interface_gives_empty_layout() {
    let layout = build(&Vec::new(), OffsetPolicy::BuiltinsConsumeOffset).unwrap();
    assert!(layout.attributes.is_empty());
    assert_eq!(layout.stride, 0);
}

#[test]
fn locations_keep_declaration_order_and_duplicates() {
    let pairs = vec![
        (arg(0, location(5)), float_scalar()),
        (arg(0, location(2)), float_vec(VectorSize::Bi)),
        (arg(0, location(5)), float_vec(VectorSize::Tri)),
        (arg(0, location(0)), float_vec(VectorSize::Quad)),
    ];
    let layout = build(&pairs, OffsetPolicy::BuiltinsSkipOffset).unwrap();
    assert_eq!(
        layout.attributes,
        vec![
            attr(5, FormatId::R32Float, 0),
            attr(2, FormatId::R32G32Float, 4),
            attr(5, FormatId::R32G32B32Float, 12),
            attr(0, FormatId::R32G32B32A32Float, 24),
        ]
    );
    assert_eq!(layout.stride, 40);
}

#[test]
fn offsets_accumulate_byte_sizes() {
    let types = [
        float_vec(VectorSize::Quad),
        float_scalar(),
        float_vec(VectorSize::Tri),
        float_vec(VectorSize::Bi),
        float_scalar(),
    ];
    let pairs: Vec<(Argument, TypeDescriptor)> =
        types.iter().enumerate().map(|(i, t)| (arg(0, location(i as u32)), *t)).collect();
    let layout = build(&pairs, OffsetPolicy::BuiltinsConsumeOffset).unwrap();
    assert_eq!(layout.attributes.len(), pairs.len());
    for i in 0..pairs.len() - 1 {
        let size = byte_size(pairs[i].1).unwrap();
        assert_eq!(layout.attributes[i + 1].offset, layout.attributes[i].offset + size);
    }
    let last = pairs.len() - 1;
    assert_eq!(layout.stride, layout.attributes[last].offset + byte_size(pairs[last].1).unwrap());
    assert_eq!(layout.stride, 44);
}

#[test]
fn offset_overflow_is_reported() {
    let wide = TypeDescriptor::Vector { size: VectorSize::Quad, kind: ScalarKind::Float, width: 255 };
    let mut builder = LayoutBuilder::new(OffsetPolicy::BuiltinsConsumeOffset);
    let unbound = arg(0, Binding::Unbound);
    let mut pushed: u64 = 0;
    while pushed + 1020 <= u32::MAX as u64 {
        builder.push(unbound, wide).unwrap();
        pushed += 1020;
    }
    assert_eq!(builder.offset() as u64, pushed);
    assert_eq!(builder.push(unbound, wide), Err(LayoutError::OffsetOverflow));
    assert_eq!(builder.offset() as u64, pushed);
    assert!(builder.attributes().is_empty());
}

#[test]
fn failed_push_leaves_builder_unchanged() {
    let mut builder = LayoutBuilder::new(OffsetPolicy::BuiltinsConsumeOffset);
    assert_eq!(builder.push(arg(0, location(0)), float_vec(VectorSize::Tri)), Ok(()));
    let sint = TypeDescriptor::Scalar { kind: ScalarKind::SignedInt, width: 4 };
    assert_eq!(builder.push(arg(1, location(1)), sint), Err(LayoutError::UnsupportedType(sint)));
    assert_eq!(
        builder.push(arg(1, Binding::Unbound), TypeDescriptor::Other),
        Err(LayoutError::UnsupportedType(TypeDescriptor::Other))
    );
    assert_eq!(builder.offset(), 12);
    assert_eq!(builder.attributes(), &vec![attr(0, FormatId::R32G32B32Float, 0)]);
    assert_eq!(builder.policy(), OffsetPolicy::BuiltinsConsumeOffset);
    let layout = builder.finish();
    assert_eq!(layout.stride, 12);
    assert_eq!(layout.attributes, vec![attr(0, FormatId::R32G32B32Float, 0)]);
}

fn two_entry_module() -> ShaderModule {
    ShaderModule {
        types: vec![float_vec(VectorSize::Tri), float_vec(VectorSize::Bi), float_scalar()],
        entry_points: vec![
            EntryPoint {
                arguments: vec![
                    arg(0, location(0)),
                    arg(2, Binding::BuiltIn(BuiltIn::VertexIndex)),
                ],
            },
            EntryPoint { arguments: vec![] },
            EntryPoint { arguments: vec![arg(1, location(1))] },
        ],
    }
}

#[test]
fn walk_flattens_entry_points_in_order() {
    let pairs = walk(&two_entry_module());
    assert_eq!(
        pairs,
        vec![
            (arg(0, location(0)), float_vec(VectorSize::Tri)),
            (arg(2, Binding::BuiltIn(BuiltIn::VertexIndex)), float_scalar()),
            (arg(1, location(1)), float_vec(VectorSize::Bi)),
        ]
    );
    assert_eq!(walk(&two_entry_module()), pairs);
}

#[test]
fn stride_spans_all_entry_points() {
    let layout = build(&walk(&two_entry_module()), OffsetPolicy::BuiltinsConsumeOffset).unwrap();
    assert_eq!(
        layout.attributes,
        vec![attr(0, FormatId::R32G32B32Float, 0), attr(1, FormatId::R32G32Float, 16)]
    );
    assert_eq!(layout.stride, 24);
}

const TWO_LOCATIONS_TEXT: &str = "VkVertexInputAttributeDescription vk_vertex_input_attribute_descriptions [] = {
    {
        .binding = 0,
        .location = 0,
        .format = VK_FORMAT_R32G32B32_SFLOAT,
        .offset = 0,
    },
    {
        .binding = 0,
        .location = 1,
        .format = VK_FORMAT_R32G32_SFLOAT,
        .offset = 12,
    },
};

VkVertexInputBindingDescription vk_vertex_input_binding_descriptions[] = {
    {
        .binding = 0,
        .stride = 20,
        .inputRate = VK_VERTEX_INPUT_RATE_VERTEX,
    }
};
";

#[test]
fn render_two_float_locations() {
    let layout = build(&two_float_locations(), OffsetPolicy::BuiltinsConsumeOffset).unwrap();
    assert_eq!(render(&layout, 0), TWO_LOCATIONS_TEXT);
}

#[test]
fn render_uses_binding_slot_and_large_numbers() {
    let layout = LayoutResult {
        attributes: vec![attr(4294967295, FormatId::R32G32B32A32Float, 1234567890)],
        stride: 100,
    };
    let text = render(&layout, 7);
    assert_eq!(
        text,
        "VkVertexInputAttributeDescription vk_vertex_input_attribute_descriptions [] = {
    {
        .binding = 7,
        .location = 4294967295,
        .format = VK_FORMAT_R32G32B32A32_SFLOAT,
        .offset = 1234567890,
    },
};

VkVertexInputBindingDescription vk_vertex_input_binding_descriptions[] = {
    {
        .binding = 7,
        .stride = 100,
        .inputRate = VK_VERTEX_INPUT_RATE_VERTEX,
    }
};
"
    );
}

#[test]
fn render_empty_layout() {
    let layout = LayoutResult { attributes: vec![], stride: 0 };
    assert_eq!(
        render(&layout, 0),
        "VkVertexInputAttributeDescription vk_vertex_input_attribute_descriptions [] = {
};

VkVertexInputBindingDescription vk_vertex_input_binding_descriptions[] = {
    {
        .binding = 0,
        .stride = 0,
        .inputRate = VK_VERTEX_INPUT_RATE_VERTEX,
    }
};
"
    );
}

#[test]
fn format_symbols() {
    assert_eq!(FormatId::R32Float.symbol(), "VK_FORMAT_R32_SFLOAT");
    assert_eq!(FormatId::R32G32Float.symbol(), "VK_FORMAT_R32G32_SFLOAT");
    assert_eq!(FormatId::R32G32B32Float.symbol(), "VK_FORMAT_R32G32B32_SFLOAT");
    assert_eq!(FormatId::R32G32B32A32Float.symbol(), "VK_FORMAT_R32G32B32A32_SFLOAT");
}

#[test]
fn generate_two_float_locations() {
    let module = ShaderModule {
        types: vec![float_vec(VectorSize::Tri), float_vec(VectorSize::Bi)],
        entry_points: vec![EntryPoint { arguments: vec![arg(0, location(0)), arg(1, location(1))] }],
    };
    assert_eq!(
        generate(&module, OffsetPolicy::BuiltinsConsumeOffset, 0),
        Ok(TWO_LOCATIONS_TEXT.to_string())
    );
}

#[test]
fn generate_produces_no_text_on_failure() {
    let sint = TypeDescriptor::Scalar { kind: ScalarKind::SignedInt, width: 4 };
    let module = ShaderModule {
        types: vec![float_vec(VectorSize::Tri), sint],
        entry_points: vec![EntryPoint { arguments: vec![arg(0, location(0)), arg(1, location(1))] }],
    };
    assert_eq!(
        generate(&module, OffsetPolicy::BuiltinsSkipOffset, 0),
        Err(LayoutError::UnsupportedType(sint))
    );
}
