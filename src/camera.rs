use vstd::prelude::*;
use crate::render_target::Viewport;
use three_d_asset::Camera as Projection;

verus! {

#[verifier::external_type_specification]
#[verifier::external_body]
pub struct ExAssetCamera(Projection);

/// The tone mapping applied to the final color of a render.
#[derive(Clone, Copy, Debug, PartialEq, Eq, Structural)]
pub enum ToneMapping {
    Disabled,
    Reinhard,
    Aces,
    Filmic,
}

impl Default for ToneMapping {
    /// ACES tone mapping.
    fn default() -> (r: Self)
        ensures
            r == ToneMapping::Aces,
    {
        ToneMapping::Aces
    }
}

/// The color space the final color of a render is converted to.
#[derive(Clone, Copy, Debug, PartialEq, Eq, Structural)]
pub enum ColorSpace {
    /// Linear values, no conversion.
    Compute,
    /// The sRGB color space.
    Srgb,
}

impl Default for ColorSpace {
    /// sRGB.
    fn default() -> (r: Self)
        ensures
            r == ColorSpace::Srgb,
    {
        ColorSpace::Srgb
    }
}

/// A camera used for viewing objects: a projection, plus the tone mapping and
/// the color space that renders with it apply to their final color.
pub struct Camera {
    /// The view and projection: position, target, up, field of view or
    /// height, near and far planes, and viewport.
    pub projection: Projection,
    /// This tone mapping is applied to the final color of renders using this camera.
    pub tone_mapping: ToneMapping,
    /// The final color of renders using this camera is converted to this color space.
    pub target_color_space: ColorSpace,
}

/// Relies on three_d_asset::Camera::viewport, which returns the camera's
/// viewport; its fields are moved over one for one.
#[verifier::external_body]
fn asset_viewport(camera: &Projection) -> (r: Viewport) {
    let v = camera.viewport();
    Viewport { x: v.x, y: v.y, width: v.width, height: v.height }
}

impl Camera {
    /// A camera with the given projection, the default tone mapping and the
    /// default target color space.
    pub fn from_projection(projection: Projection) -> (r: Self)
        ensures
            r.projection == projection,
            r.tone_mapping == ToneMapping::Aces,
            r.target_color_space == ColorSpace::Srgb,
    {
        Camera { projection, tone_mapping: ToneMapping::default(), target_color_space: ColorSpace::default() }
    }

    /// The viewport that renders with this camera draw into.
    pub fn viewport(&self) -> Viewport {
        asset_viewport(&self.projection)
    }
}

} // verus!
