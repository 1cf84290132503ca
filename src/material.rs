use vstd::prelude::*;

verus! {

/// How fragments are tested against the depth buffer.
#[derive(Clone, Copy, Debug, PartialEq, Eq, Structural)]
pub enum DepthTest {
    Never,
    Less,
    Equal,
    LessOrEqual,
    Greater,
    NotEqual,
    GreaterOrEqual,
    Always,
}

/// Which faces are culled.
#[derive(Clone, Copy, Debug, PartialEq, Eq, Structural)]
pub enum Cull {
    Disabled,
    Back,
    Front,
    FrontAndBack,
}

/// How fragments are blended with what is already drawn.
#[derive(Clone, Copy, Debug, PartialEq, Eq, Structural)]
pub enum Blend {
    /// No blending: fragments replace what is drawn.
    Disabled,
    /// Standard alpha blending.
    Transparency,
    /// Fragments are added to what is drawn.
    Add,
}

/// The fixed-function state of a draw.
#[derive(Clone, Copy, Debug, PartialEq, Eq, Structural)]
pub struct RenderStates {
    pub depth_test: DepthTest,
    pub cull: Cull,
    pub blend: Blend,
}

impl RenderStates {
    /// Depth test `Less`, no culling, no blending.
    pub open spec fn default_spec() -> RenderStates {
        RenderStates { depth_test: DepthTest::Less, cull: Cull::Disabled, blend: Blend::Disabled }
    }
}

impl Default for RenderStates {
    /// Depth test `Less`, no culling, no blending.
    fn default() -> (r: Self)
        ensures
            r == RenderStates::default_spec(),
    {
        RenderStates { depth_test: DepthTest::Less, cull: Cull::Disabled, blend: Blend::Disabled }
    }
}

/// The vertex attributes a fragment shader reads.
#[derive(Clone, Copy, Debug, PartialEq, Eq, Structural)]
pub struct FragmentAttributes {
    pub position: bool,
    pub normal: bool,
    pub tangents: bool,
    pub uv: bool,
    pub color: bool,
}

impl FragmentAttributes {
    /// No attribute.
    pub fn none() -> (r: Self)
        ensures
            !r.position && !r.normal && !r.tangents && !r.uv && !r.color,
    {
        FragmentAttributes { position: false, normal: false, tangents: false, uv: false, color: false }
    }
}

/// A fragment shader: its source and the vertex attributes it reads.
pub struct FragmentShader {
    pub source: String,
    pub attributes: FragmentAttributes,
}

/// Whether a material is drawn with the opaque objects or, after them, with
/// the transparent ones.
#[derive(Clone, Copy, Debug, PartialEq, Eq, Structural)]
pub enum MaterialType {
    Opaque,
    Transparent,
}

/// A way to shade a geometry: a fragment shader with the attributes it
/// reads, fixed-function state, and an id that groups draws of one shader.
pub trait Material {
    /// The id of the shader variant.
    spec fn id_spec(&self) -> u32;

    /// The fragment shader source.
    spec fn fragment_source_spec(&self) -> Seq<char>;

    /// The vertex attributes the fragment shader reads.
    spec fn fragment_attributes_spec(&self) -> FragmentAttributes;

    /// The fixed-function state of draws with this material.
    spec fn render_states_spec(&self) -> RenderStates;

    /// Whether the material is drawn as opaque or as transparent.
    spec fn material_type_spec(&self) -> MaterialType;

    /// The id of the shader variant: distinct shader variants have distinct ids.
    fn id(&self) -> (r: u32)
        ensures
            r == self.id_spec(),
    ;

    /// The fragment shader source: the shared prelude followed by the
    /// material's own source.
    fn fragment_shader_source(&self) -> (r: String)
        ensures
            r@ == self.fragment_source_spec(),
    ;

    /// The fragment shader: its source with the attributes it reads.
    fn fragment_shader(&self) -> (r: FragmentShader)
        ensures
            r.source@ == self.fragment_source_spec(),
            r.attributes == self.fragment_attributes_spec(),
    ;

    /// The vertex attributes the fragment shader reads.
    fn fragment_attributes(&self) -> (r: FragmentAttributes)
        ensures
            r == self.fragment_attributes_spec(),
    ;

    /// The fixed-function state of draws with this material.
    fn render_states(&self) -> (r: RenderStates)
        ensures
            r == self.render_states_spec(),
    ;

    /// Whether the material is drawn with the opaque or with the transparent
    /// objects.
    fn material_type(&self) -> (r: MaterialType)
        ensures
            r == self.material_type_spec(),
    ;
}

} // verus!
