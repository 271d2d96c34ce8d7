//! The description of a splatted material.
//!
//! Floating-point parameters are carried as IEEE-754 single-precision bit
//! patterns (`f32::to_bits`): the library never computes with them, it only
//! hands them on to the GPU uniform record unchanged.
use vstd::prelude::*;

verus! {

/// `1.0` as a single-precision bit pattern.
pub const F32_ONE_BITS: u32 = 0x3f80_0000;

/// `0.5` as a single-precision bit pattern.
pub const F32_HALF_BITS: u32 = 0x3f00_0000;

/// `0.089` as a single-precision bit pattern: the default perceptual roughness.
pub const DEFAULT_ROUGHNESS_BITS: u32 = 0x3db6_45a2;

/// `0.01` as a single-precision bit pattern: the default metallic factor.
pub const DEFAULT_METALLIC_BITS: u32 = 0x3c23_d70a;

/// Identity of a loaded texture asset: a slot in the asset table together with
/// its generation, or a fixed UUID.
#[derive(Clone, Copy, Debug, PartialEq, Eq, Structural, Hash)]
pub enum TextureId {
    Index { index: u32, generation: u32 },
    Uuid(u128),
}

/// Which faces the rasterizer culls.
#[derive(Clone, Copy, Debug, PartialEq, Eq, Structural, Hash)]
pub enum Face {
    Front,
    Back,
}

/// How the material's alpha channel is used. The cutoff of `Mask` is a
/// single-precision bit pattern.
#[derive(Clone, Copy, Debug, PartialEq, Eq, Structural)]
pub enum AlphaMode {
    Opaque,
    Mask(u32),
    Blend,
    Premultiplied,
    Add,
    Multiply,
    AlphaToCoverage,
}

/// The pixel format of a resolved GPU texture, as far as the material cares:
/// the two-component unsigned-normalized formats are told apart, every other
/// format is `Other`.
#[derive(Clone, Copy, Debug, PartialEq, Eq, Structural)]
pub enum ResolvedTextureFormat {
    Rg8Unorm,
    Rg16Unorm,
    Bc5RgUnorm,
    EacRg11Unorm,
    Other,
}

/// A format without a blue channel: a normal map in it stores only X and Y.
pub open spec fn is_two_component_format(f: ResolvedTextureFormat) -> bool {
    !(f is Other)
}

impl ResolvedTextureFormat {
    /// Whether this format holds two channels only.
    pub fn is_two_component(&self) -> (r: bool)
        ensures
            r == is_two_component_format(*self),
    {
        match self {
            ResolvedTextureFormat::Other => false,
            _ => true,
        }
    }
}

/// An RGBA color, one single-precision bit pattern per channel.
#[derive(Clone, Copy, Debug, PartialEq, Eq, Structural, Default)]
pub struct Rgba {
    pub red: u32,
    pub green: u32,
    pub blue: u32,
    pub alpha: u32,
}

/// A splatted material: up to four layers per texture role, each role an
/// optional 2D-array texture.
///
/// The colors are in the form the shader reads them.
#[derive(Clone, Copy, Debug)]
pub struct TriplanarMaterial {
    pub base_color: Rgba,
    pub base_color_texture: Option<TextureId>,
    pub emissive: Rgba,
    pub emissive_texture: Option<TextureId>,
    pub perceptual_roughness: u32,
    pub metallic: u32,
    pub metallic_roughness_texture: Option<TextureId>,
    pub reflectance: u32,
    pub normal_map_texture: Option<TextureId>,
    pub flip_normal_map_y: bool,
    pub occlusion_texture: Option<TextureId>,
    pub double_sided: bool,
    pub cull_mode: Option<Face>,
    pub unlit: bool,
    pub alpha_mode: AlphaMode,
    pub depth_bias: u32,
    pub uv_scale: u32,
}

/// The default material: opaque white, no emission, no textures, back faces
/// culled, roughness 0.089, metallic 0.01, reflectance 0.5, depth bias 0 and
/// UV scale 1.
pub open spec fn default_material() -> TriplanarMaterial {
    TriplanarMaterial {
        base_color: Rgba { red: F32_ONE_BITS, green: F32_ONE_BITS, blue: F32_ONE_BITS, alpha: F32_ONE_BITS },
        base_color_texture: None,
        emissive: Rgba { red: 0, green: 0, blue: 0, alpha: F32_ONE_BITS },
        emissive_texture: None,
        perceptual_roughness: DEFAULT_ROUGHNESS_BITS,
        metallic: DEFAULT_METALLIC_BITS,
        metallic_roughness_texture: None,
        reflectance: F32_HALF_BITS,
        normal_map_texture: None,
        flip_normal_map_y: false,
        occlusion_texture: None,
        double_sided: false,
        cull_mode: Some(Face::Back),
        unlit: false,
        alpha_mode: AlphaMode::Opaque,
        depth_bias: 0,
        uv_scale: F32_ONE_BITS,
    }
}

impl Default for TriplanarMaterial {
    fn default() -> (r: Self)
        ensures
            r == default_material(),
    {
        TriplanarMaterial {
            base_color: Rgba { red: F32_ONE_BITS, green: F32_ONE_BITS, blue: F32_ONE_BITS, alpha: F32_ONE_BITS },
            base_color_texture: None,
            emissive: Rgba { red: 0, green: 0, blue: 0, alpha: F32_ONE_BITS },
            emissive_texture: None,
            perceptual_roughness: DEFAULT_ROUGHNESS_BITS,
            metallic: DEFAULT_METALLIC_BITS,
            metallic_roughness_texture: None,
            reflectance: F32_HALF_BITS,
            normal_map_texture: None,
            flip_normal_map_y: false,
            occlusion_texture: None,
            double_sided: false,
            cull_mode: Some(Face::Back),
            unlit: false,
            alpha_mode: AlphaMode::Opaque,
            depth_bias: 0,
            uv_scale: F32_ONE_BITS,
        }
    }
}

impl TriplanarMaterial {
    /// How the material's alpha channel is used.
    pub fn alpha_mode(&self) -> (r: AlphaMode)
        ensures
            r == self.alpha_mode,
    {
        self.alpha_mode
    }

    /// The depth bias, as a single-precision bit pattern.
    pub fn depth_bias(&self) -> (r: u32)
        ensures
            r == self.depth_bias,
    {
        self.depth_bias
    }
}

} // verus!
