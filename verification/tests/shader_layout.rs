use learn_opengl::decimal::decimal_string;
use learn_opengl::layout::{
    index_buffer_size, instance_attributes, matrix_buffer_size, vertex_attributes,
    vertex_buffer_size, VertexAttribute, MATRIX_STRIDE, VERTEX_STRIDE,
};
use learn_opengl::shader::{
    compile_error_message, link_error_message, nul_terminated_length, ProgramBuild,
    ShaderKind, ShaderProgram, INFO_LOG_BUFFER_LEN,
};

#[test]
fn decimal_strings_render_exactly() {
    assert_eq!(decimal_string(0), "0");
    assert_eq!(decimal_string(7), "7");
    assert_eq!(decimal_string(10), "10");
    assert_eq!(decimal_string(105), "105");
    assert_eq!(decimal_string(4294967295), "4294967295");
}

#[test]
fn vertex_layout_packs_position_normal_texture() {
    let attrs = vertex_attributes();
    assert_eq!(
        attrs,
        vec![
            VertexAttribute {
                location: 0,
                components: 3,
                byte_offset: 0,
                stride: 32,
                divisor: 0,
            },
            VertexAttribute {
                location: 1,
                components: 3,
                byte_offset: 12,
                stride: 32,
                divisor: 0,
            },
            VertexAttribute {
                location: 2,
                components: 2,
                byte_offset: 24,
                stride: 32,
                divisor: 0,
            },
        ]
    );
}

#[test]
fn instance_matrices_span_four_locations() {
    let attrs = instance_attributes(3);
    assert_eq!(attrs.len(), 4);
    for (i, a) in attrs.iter().enumerate() {
        assert_eq!(
            *a,
            VertexAttribute {
                location: 3 + i as u32,
                components: 4,
                byte_offset: 16 * i as u32,
                stride: 64,
                divisor: 1,
            }
        );
    }
}

#[test]
fn buffer_sizes_scale_by_the_strides() {
    assert_eq!(vertex_buffer_size(3), Some(3 * VERTEX_STRIDE as usize));
    assert_eq!(index_buffer_size(36), Some(144));
    assert_eq!(matrix_buffer_size(100000), Some(100000 * MATRIX_STRIDE as usize));
    assert_eq!(vertex_buffer_size(0), Some(0));
}

#[test]
fn oversized_buffers_are_refused() {
    assert_eq!(vertex_buffer_size(usize::MAX), None);
    assert_eq!(index_buffer_size(usize::MAX), None);
    assert_eq!(matrix_buffer_size(usize::MAX / 8), None);
}

#[test]
fn a_build_compiles_vertex_then_fragment() {
    let mut build = ProgramBuild::new("vs source", "fs source", None);
    let stage = build.next_stage().unwrap();
    assert_eq!(stage.kind, ShaderKind::Vertex);
    assert_eq!(stage.source, "vs source");
    build.stage_compiled(11);
    let stage = build.next_stage().unwrap();
    assert_eq!(stage.kind, ShaderKind::Fragment);
    assert_eq!(stage.source, "fs source");
    build.stage_compiled(12);
    assert!(build.next_stage().is_none());
    assert_eq!(build.shader_ids(), &vec![11, 12]);
}

#[test]
fn a_geometry_stage_compiles_last() {
    let mut build = ProgramBuild::new("vs", "fs", Some("gs"));
    build.stage_compiled(1);
    build.stage_compiled(2);
    let stage = build.next_stage().unwrap();
    assert_eq!(stage.kind, ShaderKind::Geometry);
    assert_eq!(stage.source, "gs");
    build.stage_compiled(3);
    assert!(build.next_stage().is_none());
    assert_eq!(build.shader_ids(), &vec![1, 2, 3]);
}

#[test]
fn a_failed_stage_names_the_objects_to_destroy() {
    let mut build = ProgramBuild::new("vs", "fs", None);
    build.stage_compiled(31);
    assert_eq!(build.shader_ids(), &vec![31]);
}

#[test]
fn info_logs_stop_at_the_first_zero_byte() {
    assert_eq!(nul_terminated_length(&vec![b'o', b'k', 0, b'x']), 2);
    assert_eq!(nul_terminated_length(&vec![0, b'x']), 0);
    assert_eq!(nul_terminated_length(&vec![b'a', b'b']), 2);
    assert_eq!(nul_terminated_length(&Vec::new()), 0);
    assert_eq!(nul_terminated_length(&vec![1; INFO_LOG_BUFFER_LEN]), INFO_LOG_BUFFER_LEN);
}

#[test]
fn error_messages_carry_their_prefixes() {
    assert_eq!(
        compile_error_message("bad token"),
        "ERROR::SHADER::COMPILATION_FAILED:\nbad token"
    );
    assert_eq!(
        link_error_message("mismatch"),
        "ERROR::SHADER::PROGRAM::LINKING_FAILED:\nmismatch"
    );
}

#[test]
fn program_handles_remember_their_name() {
    let p = ShaderProgram::new(5);
    assert_eq!(p.id(), 5);
}
