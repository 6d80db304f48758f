use bytemuck::bytes_of;
use glam::{UVec3, Vec2, Vec3};
use hypatia::vertex::{
    ComponentCount, DataType, VertexAttribute, VertexBuildError, VertexBuilder, VertexComponent,
};

fn component(ty: DataType, count: ComponentCount) -> VertexComponent {
    VertexComponent {
        ty,
        count,
        normalized: false,
    }
}
fn f32_component() -> VertexComponent {
    component(DataType::Float, ComponentCount::_1)
}
fn vec2_component() -> VertexComponent {
    component(DataType::Float, ComponentCount::_2)
}
fn vec3_component() -> VertexComponent {
    component(DataType::Float, ComponentCount::_3)
}

#[test]
fn vertex_builder_basic() {
    let data = VertexBuilder::new(vec![vec3_component(), f32_component(), vec2_component()])
        .field(bytes_of(&Vec3::new(0.0, 1.0, 2.0)))
        .unwrap()
        .field(bytes_of(&9.9f32))
        .unwrap()
        .field(bytes_of(&Vec2::new(1.0, 1.0)))
        .unwrap()
        .build()
        .unwrap();

    assert_eq!(
        data.bytes,
        [
            0, 0, 0, 0, 0, 0, 128, 63, 0, 0, 0, 64, 102, 102, 30, 65, 0, 0, 128, 63, 0, 0, 128, 63
        ]
    );
}

#[test]
fn vertex_builder_pads_properly() {
    let data = VertexBuilder::new(vec![f32_component(), vec3_component()])
        .field(bytes_of(&1.0f32))
        .unwrap()
        .field(bytes_of(&Vec3::new(1.0, 1.0, 1.0)))
        .unwrap()
        .build()
        .unwrap();
    assert_eq!(
        data.bytes,
        [
            0, 0, 128, 63, 0, 0, 0, 0, 0, 0, 0, 0, 0, 0, 0, 0, 0, 0, 128, 63, 0, 0, 128, 63, 0, 0,
            128, 63
        ]
    );
    assert_eq!(
        data.components,
        vec![(f32_component(), 0), (vec3_component(), 16)]
    )
}

#[test]
fn vertex_builder_repeat() {
    let data = VertexBuilder::new(vec![f32_component(), vec3_component()])
        .field(bytes_of(&1.0f32))
        .unwrap()
        .field(bytes_of(&Vec3::new(1.0, 1.0, 1.0)))
        .unwrap()
        .field(bytes_of(&1.0f32))
        .unwrap()
        .field(bytes_of(&Vec3::new(1.0, 0.5, 1.0)))
        .unwrap()
        .build()
        .unwrap();
    assert_eq!(
        data.bytes,
        [
            0, 0, 128, 63, 0, 0, 0, 0, 0, 0, 0, 0, 0, 0, 0, 0, 0, 0, 128, 63, 0, 0, 128, 63, 0, 0,
            128, 63, 0, 0, 128, 63, 0, 0, 0, 0, 0, 0, 0, 0, 0, 0, 0, 0, 0, 0, 128, 63, 0, 0, 0, 63,
            0, 0, 128, 63
        ]
    );
}

#[test]
fn vertex_builder_not_enough_data() {
    let res = VertexBuilder::new(vec![f32_component(), vec3_component()])
        .field(bytes_of(&1.0f32))
        .unwrap()
        .build();
    match res {
        Ok(_) | Err(VertexBuildError::ComponentsDontMatch) => {
            panic!("Vertex builder should not have enough data")
        }
        Err(VertexBuildError::NotEnoughData) => (),
    }
}

#[test]
fn vertex_builder_repeat_not_enough_data() {
    let res = VertexBuilder::new(vec![f32_component(), vec3_component()])
        .field(bytes_of(&1.0f32))
        .unwrap()
        .field(bytes_of(&Vec3::new(1.0, 1.0, 1.0)))
        .unwrap()
        .field(bytes_of(&0.1f32))
        .unwrap()
        .build();
    match res {
        Ok(_) | Err(VertexBuildError::ComponentsDontMatch) => {
            panic!("Vertex builder should not have enough data")
        }
        Err(VertexBuildError::NotEnoughData) => (),
    }
}

#[test]
fn vertex_builder_repeat_not_enough_data_2() {
    let res = VertexBuilder::new(vec![f32_component(), vec3_component()])
        .field(bytes_of(&1.0f32))
        .unwrap()
        .field(bytes_of(&Vec3::new(1.0, 1.0, 1.0)))
        .unwrap()
        .field(bytes_of(&1.0f32))
        .unwrap()
        .field(bytes_of(&Vec3::new(1.0, 0.5, 1.0)))
        .unwrap()
        .field(bytes_of(&0.1f32))
        .unwrap()
        .build();
    match res {
        Ok(_) | Err(VertexBuildError::ComponentsDontMatch) => {
            panic!("Vertex builder should not have enough data")
        }
        Err(VertexBuildError::NotEnoughData) => (),
    }
}

#[test]
fn vertex_builder_invalid_field() {
    let res = VertexBuilder::new(vec![f32_component(), vec3_component()])
        .field(bytes_of(&1.0f32))
        .unwrap()
        .field(bytes_of(&1.0f32));
    match res {
        Ok(_) | Err(VertexBuildError::NotEnoughData) => {
            panic!("Vertex builder should have invalid components")
        }
        Err(VertexBuildError::ComponentsDontMatch) => (),
    }
}

#[test]
fn vertex_builder_weird() {
    let data = VertexBuilder::new(vec![f32_component(), vec3_component()])
        .field(bytes_of(&10000u32))
        .unwrap()
        .field(bytes_of(&UVec3::new(100, 2, 0)))
        .unwrap()
        .field(bytes_of(&1.0f32))
        .unwrap()
        .field(bytes_of(&Vec3::new(1.0, 0.5, 1.0)))
        .unwrap()
        .build()
        .unwrap();
    assert_eq!(
        data.bytes,
        [
            16, 39, 0, 0, 0, 0, 0, 0, 0, 0, 0, 0, 0, 0, 0, 0, 100, 0, 0, 0, 2, 0, 0, 0, 0, 0, 0,
            0, 0, 0, 128, 63, 0, 0, 0, 0, 0, 0, 0, 0, 0, 0, 0, 0, 0, 0, 128, 63, 0, 0, 0, 63, 0, 0,
            128, 63
        ]
    );
}

#[test]
fn vertex_component_sizes_and_alignments() {
    let u8x3 = component(DataType::UnsignedByte, ComponentCount::_3);
    assert_eq!(u8x3.size(), 3);
    assert_eq!(u8x3.align(), 4);
    let i16x2 = component(DataType::Short, ComponentCount::_2);
    assert_eq!(i16x2.size(), 4);
    assert_eq!(i16x2.align(), 4);
    assert_eq!(vec3_component().size(), 12);
    assert_eq!(vec3_component().align(), 16);
    let layout = vec2_component().layout();
    assert_eq!((layout.size(), layout.align()), (8, 8));
    assert_eq!(DataType::Float.gl_enum(), 0x1406);
    assert_eq!(ComponentCount::_4.count(), 4);
}

#[test]
fn vertex_builder_layout_offsets() {
    let b = VertexBuilder::new(vec![
        component(DataType::UnsignedByte, ComponentCount::_1),
        vec2_component(),
        component(DataType::Short, ComponentCount::_1),
    ])
    .field(&[7])
    .unwrap()
    .field(&[1; 8])
    .unwrap()
    .field(&[2, 3])
    .unwrap()
    .build()
    .unwrap();
    assert_eq!(b.vertex_size, 18);
    assert_eq!(b.components[1].1, 8);
    assert_eq!(b.components[2].1, 16);
    assert_eq!(b.bytes, [7, 0, 0, 0, 0, 0, 0, 0, 1, 1, 1, 1, 1, 1, 1, 1, 2, 3]);
}

#[test]
fn vertex_build_error_messages() {
    assert_eq!(
        VertexBuildError::NotEnoughData.message(),
        "Not enough data to make a vertex buffer"
    );
    assert_eq!(
        VertexBuildError::ComponentsDontMatch.message(),
        "Components don't match the layout previously specified"
    );
}

#[test]
fn vertex_attributes_follow_the_layout() {
    let data = VertexBuilder::new(vec![f32_component(), vec3_component()])
        .field(bytes_of(&1.0f32))
        .unwrap()
        .field(bytes_of(&Vec3::new(1.0, 1.0, 1.0)))
        .unwrap()
        .field(bytes_of(&2.0f32))
        .unwrap()
        .field(bytes_of(&Vec3::new(1.0, 0.5, 1.0)))
        .unwrap()
        .build()
        .unwrap();
    assert_eq!(data.vertex_count(), 2);
    assert_eq!(
        data.attributes(),
        vec![
            VertexAttribute {
                index: 0,
                count: 1,
                ty: 0x1406,
                normalized: false,
                stride: data.vertex_size,
                offset: 0,
            },
            VertexAttribute {
                index: 1,
                count: 3,
                ty: 0x1406,
                normalized: false,
                stride: data.vertex_size,
                offset: 16,
            },
        ]
    );
}
