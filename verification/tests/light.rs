use malen::light::geometry::{light_index_attribute, occluder_circle_write, occluder_line_write, occluder_lines_write, OccluderLineVertex};
use malen::gl::draw_params::DrawParams;
use malen::gl::framebuffer::framebuffer_layout;
use malen::gl::{TextureMinFilter, TextureValueType};
use malen::light::geometry::{circle_edges, circle_segment_elements, occluder_line_elements};
use malen::light::pipeline::{
    drawn_light_count, reflector_draw_params, screen_geometry_sources, screen_geometry_textures,
    screen_light_size, shadow_map_texture, SCREEN_NORMALS_LOCATION,
};
use malen::light::LightPipelineParams;

#[test]
fn light_pipeline_params_default() {
    let p = LightPipelineParams::default();
    assert_eq!(p.shadow_map_resolution, 2048);
    assert_eq!(p.max_num_lights, 512);
    assert_eq!(p.num_tracing_cones, 6);
    assert_eq!(p.num_tracing_steps, 8);
    let ((w, h), params) = shadow_map_texture(&p);
    assert_eq!((w, h), (2048, 512));
    assert_eq!(params.value_type, TextureValueType::RgF16);
}

#[test]
fn lights_are_cut_to_the_maximum() {
    assert_eq!(drawn_light_count(10, 512), 10);
    assert_eq!(drawn_light_count(600, 512), 512);
    assert_eq!(drawn_light_count(512, 512), 512);
}

#[test]
fn screen_size_is_capped() {
    assert_eq!(screen_light_size(1920, 1080, 4096), (1920, 1080));
    assert_eq!(screen_light_size(8000, 1080, 4096), (4096, 1080));
}

#[test]
fn screen_geometry_layout() {
    let textures = screen_geometry_textures();
    assert_eq!(textures[SCREEN_NORMALS_LOCATION].value_type, TextureValueType::RgbaF16);
    assert_eq!(textures[2].min_filter, TextureMinFilter::LinearMipmapLinear);
    let layout = framebuffer_layout(&screen_geometry_sources(640, 480), 4).unwrap();
    assert_eq!(layout.draw_buffers.len(), 3);
    assert_eq!(layout.attachments[3], glow::DEPTH_ATTACHMENT);
}

#[test]
fn reflectors_keep_alpha() {
    let p = reflector_draw_params(&DrawParams::default());
    assert_eq!(p.color_mask, (true, true, true, false));
    assert_eq!(p.line_width, 1.0f32.to_bits());
}

#[test]
fn occluder_line_indices() {
    let mut e = vec![9, 9];
    occluder_line_elements(&mut e);
    assert_eq!(e, vec![9, 9, 2, 3, 4, 5]);
}

#[test]
fn circle_segment_indices() {
    let mut e = Vec::new();
    circle_segment_elements(&mut e, 10, 2, false);
    assert_eq!(e, vec![10, 12, 11, 10, 13, 12]);
    let mut e = Vec::new();
    circle_segment_elements(&mut e, 0, 2, true);
    assert_eq!(e, vec![0, 2, 1, 0, 3, 2, 0, 3, 1]);
}

#[test]
fn circle_edges_close_the_polygon() {
    assert_eq!(circle_edges(3), vec![(0, 1), (1, 2), (2, 0)]);
    assert_eq!(circle_edges(1), vec![(0, 0)]);
}

#[test]
fn drawn_lights_are_a_prefix() {
    assert_eq!(drawn_light_count(0, 0), 0);
    assert_eq!(drawn_light_count(3, 0), 0);
    assert!(drawn_light_count(1000, 7) <= 1000);
    assert!(drawn_light_count(1000, 7) <= 7);
}

#[test]
fn occluder_line_writes_four_vertices() {
    let a = (1.0f32.to_bits(), 2.0f32.to_bits());
    let b = (3.0f32.to_bits(), 4.0f32.to_bits());
    let h = 0.5f32.to_bits();
    let mut elements = vec![7];
    let mut vertices = Vec::new();
    occluder_line_write((a, b), h, Some(3), None, &mut elements, &mut vertices);
    assert_eq!(elements, vec![7, 1, 2, 3, 4]);
    let v = |line_0, line_1, order| OccluderLineVertex {
        line_0,
        line_1,
        order,
        height: h,
        ignore_light_index1: 3,
        ignore_light_index2: -1,
    };
    assert_eq!(vertices, vec![v(a, b, 0), v(b, a, 1), v(a, b, 2), v(b, a, 3)]);
}

#[test]
fn light_index_attributes() {
    assert_eq!(light_index_attribute(None), -1);
    assert_eq!(light_index_attribute(Some(0)), 0);
    assert_eq!(light_index_attribute(Some(i32::MAX as u32)), i32::MAX);
}

#[test]
fn occluder_circle_closes_its_lines() {
    let p = |i: u32| (i, i + 100);
    let mut elements = Vec::new();
    let mut vertices = Vec::new();
    occluder_circle_write(&vec![p(0), p(1), p(2)], 9, None, Some(1), &mut elements, &mut vertices);
    assert_eq!(elements, (0..12).collect::<Vec<u32>>());
    assert_eq!(vertices.len(), 12);
    let lines: Vec<_> = vertices.iter().step_by(4).map(|v| (v.line_0, v.line_1)).collect();
    assert_eq!(lines, vec![(p(0), p(1)), (p(1), p(2)), (p(2), p(0))]);
    assert!(vertices.iter().all(|v| v.height == 9 && v.ignore_light_index2 == 1));
    assert_eq!(vertices[5].order, 1);
    assert_eq!((vertices[5].line_0, vertices[5].line_1), (p(2), p(1)));
}

#[test]
fn occluder_lines_written_in_order() {
    let mut elements = vec![0, 0];
    let mut vertices = Vec::new();
    let lines = vec![((1, 2), (3, 4)), ((5, 6), (7, 8))];
    occluder_lines_write(&lines, 0, None, None, &mut elements, &mut vertices);
    assert_eq!(elements, vec![0, 0, 2, 3, 4, 5, 6, 7, 8, 9]);
    assert_eq!(vertices[4].line_0, (5, 6));
    assert_eq!(vertices[7].line_0, (7, 8));
}

#[test]
fn occluder_indices_name_the_written_vertices() {
    let mut elements: Vec<u32> = vec![0, 1];
    let mut vertices = vec![
        occluder_vertex_for_tests(),
        occluder_vertex_for_tests(),
    ];
    occluder_line_write(((0, 0), (1, 1)), 0, None, None, &mut elements, &mut vertices);
    assert_eq!(elements.len(), vertices.len());
    assert!(elements[2..].iter().all(|&e| 2 <= e && (e as usize) < vertices.len()));
}

fn occluder_vertex_for_tests() -> OccluderLineVertex {
    OccluderLineVertex {
        line_0: (0, 0),
        line_1: (0, 0),
        order: 0,
        height: 0,
        ignore_light_index1: -1,
        ignore_light_index2: -1,
    }
}
