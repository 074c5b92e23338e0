use gltut::glutil::vertex_buffer_byte_len;
use gltut::{GlBufUsage, GlShaderType};

#[test]
fn shader_type_values_match_the_api_enums() {
    assert_eq!(GlShaderType::Vertex.value(), 0x8B31);
    assert_eq!(GlShaderType::Fragment.value(), 0x8B30);
}

#[test]
fn shader_type_labels() {
    assert_eq!(GlShaderType::Vertex.label(), "vertex");
    assert_eq!(GlShaderType::Fragment.label(), "fragment");
}

#[test]
fn buf_usage_values_match_the_api_enums() {
    assert_eq!(GlBufUsage::StaticDraw.value(), 0x88E4);
    assert_eq!(GlBufUsage::StreamDraw.value(), 0x88E0);
}

#[test]
fn vertex_buffer_byte_len_counts_four_bytes_per_value() {
    assert_eq!(vertex_buffer_byte_len(0), Some(0));
    assert_eq!(vertex_buffer_byte_len(12), Some(48));
}

#[test]
fn vertex_buffer_byte_len_reports_overflow() {
    assert_eq!(vertex_buffer_byte_len(usize::MAX / 4 + 1), None);
}
