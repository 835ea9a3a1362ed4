use webgl_vs_webgpu::vertex::{
    layout_attributes, PosColor, PosNormalUv, PosNormalUvIndex, PosOnly, ToolColor, Vertex,
    VertexAttribute, VertexEmpty, VertexFormat,
};

fn attr(format: VertexFormat, offset: u64, shader_location: u32) -> VertexAttribute {
    VertexAttribute { format, offset, shader_location }
}

#[test]
fn bit32_counts() {
    assert_eq!(VertexEmpty::bit32_count(), 0);
    assert_eq!(PosOnly::bit32_count(), 3);
    assert_eq!(PosColor::bit32_count(), 7);
    assert_eq!(PosNormalUv::bit32_count(), 8);
    assert_eq!(PosNormalUvIndex::bit32_count(), 9);
    assert_eq!(ToolColor::bit32_count(), 8);
}

#[test]
fn empty_vertex_has_no_attributes() {
    assert!(VertexEmpty::vertex_attributes(0).is_empty());
    assert!(VertexEmpty::vertex_attributes(u32::MAX).is_empty());
}

#[test]
fn pos_only_attributes() {
    assert_eq!(PosOnly::vertex_attributes(0), vec![attr(VertexFormat::Float32x3, 0, 0)]);
}

#[test]
fn pos_color_attributes() {
    assert_eq!(
        PosColor::vertex_attributes(2),
        vec![attr(VertexFormat::Float32x3, 0, 2), attr(VertexFormat::Float32x4, 12, 3)]
    );
}

#[test]
fn pos_normal_uv_attributes() {
    assert_eq!(
        PosNormalUv::vertex_attributes(0),
        vec![
            attr(VertexFormat::Float32x3, 0, 0),
            attr(VertexFormat::Float32x3, 12, 1),
            attr(VertexFormat::Float32x2, 24, 2),
        ]
    );
}

#[test]
fn pos_normal_uv_index_attributes() {
    assert_eq!(
        PosNormalUvIndex::vertex_attributes(5),
        vec![
            attr(VertexFormat::Float32x3, 0, 5),
            attr(VertexFormat::Float32x3, 12, 6),
            attr(VertexFormat::Float32x2, 24, 7),
            attr(VertexFormat::Uint32, 32, 8),
        ]
    );
}

#[test]
fn tool_color_attributes() {
    assert_eq!(
        ToolColor::vertex_attributes(1),
        vec![attr(VertexFormat::Float32x4, 0, 1), attr(VertexFormat::Float32x4, 16, 2)]
    );
}

#[test]
fn attributes_end_where_the_vertex_ends() {
    fn end<V: Vertex>() -> u64 {
        let attrs = V::vertex_attributes(0);
        match attrs.last() {
            Some(a) => a.offset + a.format.size(),
            None => 0,
        }
    }
    assert_eq!(end::<VertexEmpty>(), 4 * VertexEmpty::bit32_count() as u64);
    assert_eq!(end::<PosOnly>(), 4 * PosOnly::bit32_count() as u64);
    assert_eq!(end::<PosColor>(), 4 * PosColor::bit32_count() as u64);
    assert_eq!(end::<PosNormalUv>(), 4 * PosNormalUv::bit32_count() as u64);
    assert_eq!(end::<PosNormalUvIndex>(), 4 * PosNormalUvIndex::bit32_count() as u64);
    assert_eq!(end::<ToolColor>(), 4 * ToolColor::bit32_count() as u64);
}

#[test]
fn last_location_may_be_u32_max() {
    let attrs = PosOnly::vertex_attributes(u32::MAX);
    assert_eq!(attrs[0].shader_location, u32::MAX);
}

#[test]
fn format_sizes() {
    assert_eq!(VertexFormat::Float32x2.size(), 8);
    assert_eq!(VertexFormat::Float32x3.size(), 12);
    assert_eq!(VertexFormat::Float32x4.size(), 16);
    assert_eq!(VertexFormat::Uint32.size(), 4);
}

#[test]
fn layout_of_no_formats_is_empty() {
    assert!(layout_attributes(&vec![], 7).is_empty());
}

#[test]
fn layout_of_mixed_formats() {
    let formats = vec![VertexFormat::Uint32, VertexFormat::Float32x2, VertexFormat::Float32x4];
    assert_eq!(
        layout_attributes(&formats, 10),
        vec![
            attr(VertexFormat::Uint32, 0, 10),
            attr(VertexFormat::Float32x2, 4, 11),
            attr(VertexFormat::Float32x4, 12, 12),
        ]
    );
}

#[test]
fn shader_locations_are_distinct_and_consecutive() {
    let attrs = PosNormalUvIndex::vertex_attributes(3);
    let locs: Vec<u32> = attrs.iter().map(|a| a.shader_location).collect();
    assert_eq!(locs, vec![3, 4, 5, 6]);
}

#[test]
fn attribute_counts() {
    assert_eq!(VertexEmpty::attribute_count(), 0);
    assert_eq!(PosOnly::attribute_count(), 1);
    assert_eq!(PosColor::attribute_count(), 2);
    assert_eq!(PosNormalUv::attribute_count(), 3);
    assert_eq!(PosNormalUvIndex::attribute_count(), 4);
    assert_eq!(ToolColor::attribute_count(), 2);
}
