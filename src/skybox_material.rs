use vstd::prelude::*;
use vstd::string::StringExecFns;
use crate::material::{
    Blend, Cull, DepthTest, FragmentAttributes, FragmentShader, Material, MaterialType, RenderStates,
};

verus! {

/// The fragment shader source that every material's source starts with.
pub const SHARED_FRAGMENT_SOURCE: &'static str = "uniform float gamma;\n\nvec3 srgb_from_linear(vec3 color)\n{\n    return pow(color, vec3(5) / vec3(11));\n}\n\nvec3 reinhard_tone_mapping(vec3 color)\n{\n    return color / (color + vec3(1));\n}\n\n";

/// The skybox's own fragment shader source.
pub const SKYBOX_FRAGMENT_SOURCE: &'static str = "uniform samplerCube texture0;\nuniform int isHDR;\n\nin vec3 coords;\n\nlayout (location = 0) out vec4 outColor;\n\nvoid main()\n{\n    vec3 color = texture(texture0, normalize(coords)).rgb;\n    if (isHDR == 1) {\n        color = reinhard_tone_mapping(color);\n    }\n    outColor = vec4(srgb_from_linear(color), 1);\n}\n";

/// The id of the skybox shader.
pub const SKYBOX_MATERIAL_ID: u32 = 0b100;

/// A cube-map texture, by id, and whether it holds high-dynamic-range data.
#[derive(Clone, Copy, Debug, PartialEq, Eq, Structural)]
pub struct TextureCubeMap {
    pub id: u32,
    pub is_hdr: bool,
}

/// The uniform values of a skybox draw.
#[derive(Clone, Copy, Debug, PartialEq, Eq, Structural)]
pub struct SkyboxUniforms {
    /// 1 for a high-dynamic-range texture, else 0.
    pub is_hdr: i32,
    /// The cube map sampled as `texture0`.
    pub texture0: u32,
}

/// A material that draws a cube map seen from inside, at the far plane.
pub struct SkyboxMaterial {
    pub texture: TextureCubeMap,
}

impl SkyboxMaterial {
    /// The uniform values the shader needs, bound just before a draw.
    pub fn use_uniforms(&self) -> (r: SkyboxUniforms)
        ensures
            r.is_hdr == (if self.texture.is_hdr { 1i32 } else { 0i32 }),
            r.texture0 == self.texture.id,
    {
        SkyboxUniforms { is_hdr: if self.texture.is_hdr { 1 } else { 0 }, texture0: self.texture.id }
    }
}

impl Material for SkyboxMaterial {
    open spec fn id_spec(&self) -> u32 {
        SKYBOX_MATERIAL_ID
    }

    /// The shared prelude, then the skybox's own source.
    open spec fn fragment_source_spec(&self) -> Seq<char> {
        SHARED_FRAGMENT_SOURCE@ + SKYBOX_FRAGMENT_SOURCE@
    }

    /// The skybox reads no vertex attribute.
    open spec fn fragment_attributes_spec(&self) -> FragmentAttributes {
        FragmentAttributes { position: false, normal: false, tangents: false, uv: false, color: false }
    }

    /// Culls front faces, as the sky is seen from inside, and passes depth
    /// equal to the far plane.
    open spec fn render_states_spec(&self) -> RenderStates {
        RenderStates { depth_test: DepthTest::LessOrEqual, cull: Cull::Front, blend: Blend::Disabled }
    }

    open spec fn material_type_spec(&self) -> MaterialType {
        MaterialType::Opaque
    }

    fn id(&self) -> (r: u32) {
        SKYBOX_MATERIAL_ID
    }

    fn fragment_shader_source(&self) -> (r: String) {
        String::from_str(SHARED_FRAGMENT_SOURCE).concat(SKYBOX_FRAGMENT_SOURCE)
    }

    fn fragment_shader(&self) -> (r: FragmentShader) {
        FragmentShader {
            source: String::from_str(SHARED_FRAGMENT_SOURCE).concat(SKYBOX_FRAGMENT_SOURCE),
            attributes: FragmentAttributes::none(),
        }
    }

    fn fragment_attributes(&self) -> (r: FragmentAttributes) {
        FragmentAttributes::none()
    }

    fn render_states(&self) -> (r: RenderStates) {
        RenderStates { depth_test: DepthTest::LessOrEqual, cull: Cull::Front, blend: Blend::Disabled }
    }

    fn material_type(&self) -> (r: MaterialType) {
        MaterialType::Opaque
    }
}

} // verus!
