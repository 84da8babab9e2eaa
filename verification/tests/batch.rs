use cursor_quads::display::SizeInfo;
use cursor_quads::fixed::{COORD_MAX, ONE};
use cursor_quads::font::Metrics;
use cursor_quads::renderer::quads::{
    pack_alpha, to_ndc_x, to_ndc_y, QuadPoint, QuadRenderer, QuadShaderProgram, RenderQuad,
    UniformBinding, UniformLocations, Vertex,
};
use cursor_quads::term::Rgb;

fn viewport() -> SizeInfo {
    SizeInfo::new(800 * ONE, 600 * ONE, 8 * ONE, 16 * ONE, 0, 0).unwrap()
}

fn metrics() -> Metrics {
    Metrics::new(-3 * ONE, -ONE, ONE).unwrap()
}

fn every_uniform() -> UniformLocations {
    UniformLocations {
        cell_width: 0,
        cell_height: 1,
        padding_x: 2,
        padding_y: 3,
        underline_position: 4,
        underline_thickness: 5,
        undercurl_position: 6,
    }
}

fn renderer() -> QuadRenderer {
    QuadRenderer::new(11, 12, QuadShaderProgram::new(13, &every_uniform()))
}

fn px(x: i64, y: i64) -> QuadPoint {
    QuadPoint { x: x * ONE, y: y * ONE }
}

#[test]
fn corners_of_the_viewport_map_to_the_corners_of_device_space() {
    assert_eq!(to_ndc_x(0, 800 * ONE), -ONE);
    assert_eq!(to_ndc_y(0, 600 * ONE), ONE);
    assert_eq!(to_ndc_x(800 * ONE, 800 * ONE), ONE);
    assert_eq!(to_ndc_y(600 * ONE, 600 * ONE), -ONE);
    assert_eq!(to_ndc_x(400 * ONE, 800 * ONE), 0);
    assert_eq!(to_ndc_y(300 * ONE, 600 * ONE), 0);
    assert_eq!(to_ndc_x(200 * ONE, 800 * ONE), -500_000);
    assert_eq!(to_ndc_y(150 * ONE, 600 * ONE), 500_000);
    // Off the screen to the left and below.
    assert_eq!(to_ndc_x(-400 * ONE, 800 * ONE), -2 * ONE);
    assert_eq!(to_ndc_y(900 * ONE, 600 * ONE), -2 * ONE);
    // One pixel of three: two thirds less one, rounded to the nearest unit.
    assert_eq!(to_ndc_x(ONE, 3 * ONE), -333_333);
    assert_eq!(to_ndc_y(ONE, 3 * ONE), 333_333);
    assert_eq!(to_ndc_x(2 * ONE, 3 * ONE), 333_333);
}

#[test]
fn alpha_is_packed_by_rounding() {
    assert_eq!(pack_alpha(ONE), 255);
    assert_eq!(pack_alpha(0), 0);
    assert_eq!(pack_alpha(500_000), 128);
    assert_eq!(pack_alpha(250_000), 64);
    assert_eq!(pack_alpha(1_960), 0);
    assert_eq!(pack_alpha(1_961), 1);
    // Out of the unit interval the channel saturates.
    assert_eq!(pack_alpha(-ONE), 0);
    assert_eq!(pack_alpha(2 * ONE), 255);
    assert_eq!(pack_alpha(i64::MAX), 255);
    assert_eq!(pack_alpha(i64::MIN), 0);
}

#[test]
fn a_quad_becomes_two_triangles() {
    let quad = RenderQuad::new(
        [px(0, 0), px(800, 0), px(800, 600), px(0, 600)],
        Rgb { r: 1, g: 2, b: 3 },
        500_000,
    );
    let mut vertices = Vec::new();
    QuadRenderer::add_quad(&mut vertices, &viewport(), &quad);
    let v = |x: i64, y: i64| Vertex { x, y, r: 1, g: 2, b: 3, a: 128 };
    assert_eq!(
        vertices,
        vec![v(-ONE, ONE), v(ONE, ONE), v(ONE, -ONE), v(-ONE, ONE), v(-ONE, -ONE), v(ONE, -ONE)]
    );
}

#[test]
fn add_quad_appends() {
    let first = RenderQuad::new([px(0, 0); 4], Rgb { r: 9, g: 9, b: 9 }, ONE);
    let second = RenderQuad::new([px(400, 300); 4], Rgb { r: 7, g: 7, b: 7 }, 0);
    let mut vertices = Vec::new();
    QuadRenderer::add_quad(&mut vertices, &viewport(), &first);
    let kept = vertices.clone();
    QuadRenderer::add_quad(&mut vertices, &viewport(), &second);
    assert_eq!(vertices.len(), 12);
    assert_eq!(&vertices[..6], &kept[..]);
    for vertex in &vertices[6..] {
        assert_eq!(*vertex, Vertex { x: 0, y: 0, r: 7, g: 7, b: 7, a: 0 });
    }
}

#[test]
fn a_batch_has_six_vertices_for_each_quad() {
    let size = viewport();
    let order = [0usize, 1, 2, 0, 3, 2];
    for n in [1usize, 2, 5, 17] {
        let mut quads = Vec::new();
        for q in 0..n {
            let base = 10 * q as i64;
            quads.push(RenderQuad::new(
                [px(base, base), px(base + 4, base), px(base + 4, base + 6), px(base, base + 6)],
                Rgb { r: q as u8, g: 0, b: 255 },
                ONE,
            ));
        }
        let mut renderer = renderer();
        let call = renderer.draw(&size, &metrics(), quads.clone()).unwrap();
        assert_eq!(renderer.vertices.len(), 6 * n);
        assert_eq!(call.vertex_count, 6 * n);
        for (k, vertex) in renderer.vertices.iter().enumerate() {
            let quad = &quads[k / 6];
            let corner = quad.points[order[k % 6]];
            assert_eq!(vertex.x, to_ndc_x(corner.x, 800 * ONE));
            assert_eq!(vertex.y, to_ndc_y(corner.y, 600 * ONE));
            assert_eq!((vertex.r, vertex.g, vertex.b), quad.color.as_tuple());
            assert_eq!(vertex.a, 255);
        }
    }
}

#[test]
fn draw_replaces_the_vertices_of_the_frame_before() {
    let size = viewport();
    let mut renderer = renderer();
    let two = vec![RenderQuad::new([px(1, 1); 4], Rgb { r: 0, g: 0, b: 0 }, ONE); 2];
    assert!(renderer.draw(&size, &metrics(), two).is_some());
    assert_eq!(renderer.vertices.len(), 12);
    let one = vec![RenderQuad::new([px(400, 300); 4], Rgb { r: 5, g: 6, b: 7 }, ONE)];
    let call = renderer.draw(&size, &metrics(), one).unwrap();
    assert_eq!(call.vertex_count, 6);
    assert_eq!(renderer.vertices, vec![Vertex { x: 0, y: 0, r: 5, g: 6, b: 7, a: 255 }; 6]);
}

#[test]
fn an_empty_batch_draws_nothing() {
    let mut renderer = renderer();
    let full = vec![RenderQuad::new([px(1, 1); 4], Rgb { r: 0, g: 0, b: 0 }, ONE)];
    assert!(renderer.draw(&viewport(), &metrics(), full).is_some());
    let call = renderer.draw(&viewport(), &metrics(), Vec::new());
    assert!(call.is_none());
    assert!(renderer.vertices.is_empty());
    assert_eq!((renderer.vao, renderer.vbo, renderer.programs.id()), (11, 12, 13));
}

#[test]
fn a_draw_call_names_the_objects_and_binds_the_uniforms() {
    let mut renderer = renderer();
    let quads = vec![RenderQuad::new([px(1, 1); 4], Rgb { r: 0, g: 0, b: 0 }, ONE)];
    let call = renderer.draw(&viewport(), &metrics(), quads).unwrap();
    assert_eq!((call.vao, call.vbo, call.program), (11, 12, 13));
    assert_eq!(call.uniforms, renderer.programs.update_uniforms(&viewport(), &metrics()));
    assert_eq!(call.uniforms.len(), 7);
}

#[test]
fn uniforms_are_derived_from_sizes_and_metrics() {
    // 600 - 5 = 595 pixels hold 37 rows of 16 and leave 3.
    let size = SizeInfo::new(800 * ONE, 600 * ONE, 8 * ONE, 16 * ONE, 4 * ONE, 5 * ONE).unwrap();
    let metrics = Metrics::new(-3_500_001, -1_250_000, 750_000).unwrap();
    let shader = QuadShaderProgram::new(1, &every_uniform());
    let b = |location: i32, value: i64| UniformBinding { location, value };
    assert_eq!(
        shader.update_uniforms(&size, &metrics),
        vec![
            b(0, 8 * ONE),
            b(1, 16 * ONE),
            b(3, 3 * ONE),
            b(2, 4 * ONE),
            b(4, 3_500_001 - 1_250_000),
            b(5, 750_000),
            // Half of -3.500001 is -1.7500005, which rounds up to -1.750000.
            b(6, 1_750_000),
        ]
    );
}

#[test]
fn missing_uniforms_are_skipped() {
    let locations = UniformLocations {
        cell_width: -1,
        cell_height: 8,
        padding_x: -1,
        padding_y: -1,
        underline_position: -1,
        underline_thickness: -1,
        undercurl_position: 2,
    };
    let shader = QuadShaderProgram::new(1, &locations);
    let metrics = Metrics::new(4 * ONE, ONE, ONE).unwrap();
    assert_eq!(
        shader.update_uniforms(&viewport(), &metrics),
        vec![
            UniformBinding { location: 8, value: 16 * ONE },
            UniformBinding { location: 2, value: 2 * ONE },
        ]
    );
    let none = UniformLocations {
        cell_width: -1,
        cell_height: -1,
        padding_x: -1,
        padding_y: -1,
        underline_position: -1,
        underline_thickness: -1,
        undercurl_position: -1,
    };
    assert!(QuadShaderProgram::new(1, &none).update_uniforms(&viewport(), &metrics).is_empty());
}

#[test]
fn bottom_padding_is_what_the_last_full_row_leaves() {
    let shader = QuadShaderProgram::new(
        1,
        &UniformLocations {
            cell_width: -1,
            cell_height: -1,
            padding_x: -1,
            padding_y: 0,
            underline_position: -1,
            underline_thickness: -1,
            undercurl_position: -1,
        },
    );
    let value = |height: i64, cell: i64, padding: i64| {
        let size = SizeInfo::new(800 * ONE, height, 8 * ONE, cell, 0, padding).unwrap();
        shader.update_uniforms(&size, &metrics())[0].value
    };
    assert_eq!(value(600 * ONE, 16 * ONE, 0), 8 * ONE);
    assert_eq!(value(608 * ONE, 16 * ONE, 0), 0);
    assert_eq!(value(600 * ONE, 16 * ONE, 10 * ONE), 14 * ONE);
    assert_eq!(value(600 * ONE, 7_500_000, 0), 0);
    assert_eq!(value(10 * ONE, 3 * ONE, 0), ONE);
    // More padding than viewport: the floor is taken toward minus infinity.
    assert_eq!(value(10 * ONE, 16 * ONE, 15 * ONE), 11 * ONE);
}

#[test]
fn sizes_and_metrics_are_checked() {
    assert!(SizeInfo::new(800 * ONE, 600 * ONE, 8 * ONE, 16 * ONE, 0, 0).is_some());
    assert!(SizeInfo::new(ONE, ONE, 1, 1, -ONE, -ONE).is_some());
    assert!(SizeInfo::new(ONE - 1, 600 * ONE, 8 * ONE, 16 * ONE, 0, 0).is_none());
    assert!(SizeInfo::new(800 * ONE, 0, 8 * ONE, 16 * ONE, 0, 0).is_none());
    assert!(SizeInfo::new(800 * ONE, 600 * ONE, 0, 16 * ONE, 0, 0).is_none());
    assert!(SizeInfo::new(800 * ONE, 600 * ONE, 8 * ONE, -ONE, 0, 0).is_none());
    assert!(SizeInfo::new(800 * ONE, 600 * ONE, 8 * ONE, 16 * ONE, i64::MIN, 0).is_none());
    assert!(SizeInfo::new(i64::MAX, 600 * ONE, 8 * ONE, 16 * ONE, 0, 0).is_none());
    let size = SizeInfo::new(800 * ONE, 600 * ONE, 8 * ONE, 16 * ONE, 2, 3).unwrap();
    assert_eq!(
        (size.width(), size.height(), size.cell_width(), size.cell_height()),
        (800 * ONE, 600 * ONE, 8 * ONE, 16 * ONE)
    );
    assert_eq!((size.padding_x(), size.padding_y()), (2, 3));
    assert!(Metrics::new(i64::MIN, 0, 0).is_none());
    assert!(Metrics::new(0, i64::MAX, 0).is_none());
    let m = Metrics::new(-3, 2, 1).unwrap();
    assert_eq!((m.descent(), m.underline_position(), m.underline_thickness()), (-3, 2, 1));
}

#[test]
fn release_hands_back_the_names() {
    assert_eq!(renderer().release(), (11, 12, 13));
}

#[test]
fn range_checks_tell_what_can_be_drawn() {
    assert!(px(0, 0).is_in_range());
    assert!(QuadPoint { x: COORD_MAX, y: -COORD_MAX }.is_in_range());
    assert!(!QuadPoint { x: COORD_MAX + 1, y: 0 }.is_in_range());
    assert!(!QuadPoint { x: 0, y: -COORD_MAX - 1 }.is_in_range());
    let color = Rgb { r: 0, g: 0, b: 0 };
    assert!(RenderQuad::new([px(1, 2); 4], color, ONE).is_in_range());
    for i in 0..4 {
        let mut points = [px(1, 2); 4];
        points[i].y = i64::MAX;
        assert!(!RenderQuad::new(points, color, ONE).is_in_range());
    }
}
