use gfx_sandbox::vertex::VertexAttribute;
use gfx_sandbox::vertex::VertexFormat;
use gfx_sandbox::vertex::VertexStepMode;
use gfx_sandbox::vertex::VertexType;

#[test]
fn color_vertex_layout_stride_and_attributes() {
    let d = VertexType::VertexColor.desc();
    assert_eq!(d.array_stride, 24);
    assert_eq!(d.step_mode, VertexStepMode::Vertex);
    assert_eq!(d.attributes.len(), 2);
    assert_eq!(
        d.attributes[0],
        VertexAttribute { offset: 0, shader_location: 0, format: VertexFormat::Float32x3 }
    );
    assert_eq!(
        d.attributes[1],
        VertexAttribute { offset: 12, shader_location: 1, format: VertexFormat::Float32x3 }
    );
}

#[test]
fn uv_vertex_layout_stride_and_attributes() {
    let d = VertexType::VertexUV.desc();
    assert_eq!(d.array_stride, 20);
    assert_eq!(d.step_mode, VertexStepMode::Vertex);
    assert_eq!(d.attributes.len(), 2);
    assert_eq!(
        d.attributes[0],
        VertexAttribute { offset: 0, shader_location: 0, format: VertexFormat::Float32x3 }
    );
    assert_eq!(
        d.attributes[1],
        VertexAttribute { offset: 12, shader_location: 1, format: VertexFormat::Float32x2 }
    );
}

#[test]
fn vertex_format_sizes() {
    assert_eq!(VertexFormat::Float32x3.size(), 12);
    assert_eq!(VertexFormat::Float32x2.size(), 8);
}

#[test]
fn strides_are_the_sum_of_the_attribute_sizes() {
    for t in [VertexType::VertexColor, VertexType::VertexUV] {
        let d = t.desc();
        let total: u64 = d.attributes.iter().map(|a| a.format.size()).sum();
        assert_eq!(d.array_stride, total);
    }
}
