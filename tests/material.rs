use three_d::camera::{Camera, ColorSpace, ToneMapping};
use three_d::material::{Blend, Cull, DepthTest, FragmentAttributes, Material, MaterialType, RenderStates};
use three_d::render_target::Viewport;
use three_d::skybox_material::{SkyboxMaterial, TextureCubeMap, SHARED_FRAGMENT_SOURCE, SKYBOX_FRAGMENT_SOURCE};
use three_d::water::{Point2, Water, WaveParameters, UNIT, WATER_VERTEX_SOURCE};
use three_d_asset::prelude::{degrees, vec3};

fn camera() -> Camera {
    Camera::from_projection(three_d_asset::Camera::new_perspective(
        three_d_asset::Viewport { x: 1, y: 2, width: 640, height: 480 },
        vec3(0.0, 5.0, 10.0),
        vec3(0.0, 0.0, 0.0),
        vec3(0.0, 1.0, 0.0),
        degrees(45.0),
        0.1,
        100.0,
    ))
}

#[test]
fn skybox_material_contract() {
    let m = SkyboxMaterial { texture: TextureCubeMap { id: 8, is_hdr: true } };
    assert_eq!(m.id(), 0b100);
    assert_eq!(m.material_type(), MaterialType::Opaque);
    assert_eq!(
        m.render_states(),
        RenderStates { depth_test: DepthTest::LessOrEqual, cull: Cull::Front, blend: Blend::Disabled }
    );
    assert_eq!(
        m.fragment_attributes(),
        FragmentAttributes { position: false, normal: false, tangents: false, uv: false, color: false }
    );
    let shader = m.fragment_shader();
    assert_eq!(shader.source, format!("{}{}", SHARED_FRAGMENT_SOURCE, SKYBOX_FRAGMENT_SOURCE));
    assert_eq!(shader.attributes, m.fragment_attributes());
    let source = m.fragment_shader_source();
    assert_eq!(source, format!("{}{}", SHARED_FRAGMENT_SOURCE, SKYBOX_FRAGMENT_SOURCE));
    assert!(source.starts_with(SHARED_FRAGMENT_SOURCE));
    let u = m.use_uniforms();
    assert_eq!(u.is_hdr, 1);
    assert_eq!(u.texture0, 8);
    let m = SkyboxMaterial { texture: TextureCubeMap { id: 8, is_hdr: false } };
    assert_eq!(m.use_uniforms().is_hdr, 0);
}

#[test]
fn default_render_states() {
    assert_eq!(
        RenderStates::default(),
        RenderStates { depth_test: DepthTest::Less, cull: Cull::Disabled, blend: Blend::Disabled }
    );
}

#[test]
fn camera_defaults_and_viewport() {
    let c = camera();
    assert_eq!(c.tone_mapping, ToneMapping::default());
    assert_eq!(c.tone_mapping, ToneMapping::Aces);
    assert_eq!(c.target_color_space, ColorSpace::Srgb);
    assert_eq!(c.viewport(), Viewport { x: 1, y: 2, width: 640, height: 480 });
}

#[test]
fn water_render_forces_transparency() {
    let material = SkyboxMaterial { texture: TextureCubeMap { id: 8, is_hdr: false } };
    let water = Water::new(material, 0, Point2 { x: 0, y: 0 }, 64 * UNIT, UNIT, [WaveParameters::default(); 4]);
    let draws = water.render(&camera());
    assert_eq!(draws.len(), 4);
    for (i, d) in draws.iter().enumerate() {
        assert_eq!(d.render_states.blend, Blend::Transparency);
        assert_eq!(d.render_states.cull, Cull::Front);
        assert_eq!(d.render_states.depth_test, DepthTest::LessOrEqual);
        assert_eq!(d.element_count, 6144);
        assert_eq!(d.vertex_source, WATER_VERTEX_SOURCE);
        assert_eq!(d.fragment_source, format!("{}{}", SHARED_FRAGMENT_SOURCE, SKYBOX_FRAGMENT_SOURCE));
        assert_eq!(d.viewport, Viewport { x: 1, y: 2, width: 640, height: 480 });
        assert_eq!(d.uniforms.offset.x, water.patches()[i].offset.x);
    }
    assert_eq!(draws[0].uniforms.offset.x, -32 * UNIT);
}
