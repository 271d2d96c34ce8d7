//! Derivation of the GPU uniform record and the pipeline key of a material.
use vstd::prelude::*;
use crate::material::{
    is_two_component_format, AlphaMode, Face, ResolvedTextureFormat, Rgba, TriplanarMaterial,
    F32_HALF_BITS,
};

verus! {

pub const BASE_COLOR_TEXTURE: u32 = 0x01;
pub const EMISSIVE_TEXTURE: u32 = 0x02;
pub const METALLIC_ROUGHNESS_TEXTURE: u32 = 0x04;
pub const OCCLUSION_TEXTURE: u32 = 0x08;
pub const DOUBLE_SIDED: u32 = 0x10;
pub const UNLIT: u32 = 0x20;
pub const TWO_COMPONENT_NORMAL_MAP: u32 = 0x40;
pub const FLIP_NORMAL_MAP_Y: u32 = 0x80;

/// The one-hot alpha-mode bits, one per mode, all in the top seven bits.
pub const ALPHA_MODE_OPAQUE: u32 = 0x0200_0000;
pub const ALPHA_MODE_MASK: u32 = 0x0400_0000;
pub const ALPHA_MODE_BLEND: u32 = 0x0800_0000;
pub const ALPHA_MODE_PREMULTIPLIED: u32 = 0x1000_0000;
pub const ALPHA_MODE_ADD: u32 = 0x2000_0000;
pub const ALPHA_MODE_MULTIPLY: u32 = 0x4000_0000;
pub const ALPHA_MODE_ALPHA_TO_COVERAGE: u32 = 0x8000_0000;

/// Every bit that an alpha mode may occupy.
pub const ALPHA_MODE_RESERVED_BITS: u32 = 0xfe00_0000;

/// The data of a material as the shader reads it from its uniform binding.
/// Every field but `flags` is a single-precision bit pattern.
#[derive(Clone, Copy, Debug, PartialEq, Eq, Structural, Default)]
pub struct TriplanarMaterialUniform {
    pub base_color: Rgba,
    pub emissive: Rgba,
    pub roughness: u32,
    pub metallic: u32,
    pub reflectance: u32,
    pub flags: u32,
    pub alpha_cutoff: u32,
    pub uv_scale: u32,
}

/// What selects a compiled variant of the material's pipeline.
#[derive(Clone, Copy, Debug, PartialEq, Eq, Structural, Hash)]
pub struct TriplanarMaterialKey {
    pub normal_map: bool,
    pub cull_mode: Option<Face>,
}

/// The bit that stands for alpha mode `a`.
pub open spec fn alpha_mode_flag(a: AlphaMode) -> u32 {
    match a {
        AlphaMode::Opaque => ALPHA_MODE_OPAQUE,
        AlphaMode::Mask(_) => ALPHA_MODE_MASK,
        AlphaMode::Blend => ALPHA_MODE_BLEND,
        AlphaMode::Premultiplied => ALPHA_MODE_PREMULTIPLIED,
        AlphaMode::Add => ALPHA_MODE_ADD,
        AlphaMode::Multiply => ALPHA_MODE_MULTIPLY,
        AlphaMode::AlphaToCoverage => ALPHA_MODE_ALPHA_TO_COVERAGE,
    }
}

/// The alpha cutoff: the cutoff of `Mask`, 0.5 under every other mode.
pub open spec fn alpha_cutoff_of(a: AlphaMode) -> u32 {
    match a {
        AlphaMode::Mask(c) => c,
        _ => F32_HALF_BITS,
    }
}

/// `flag` where `c` holds, no bit otherwise.
pub open spec fn flag_if(c: bool, flag: u32) -> u32 {
    if c {
        flag
    } else {
        0
    }
}

/// Whether the material's normal map resolved to a two-component format.
pub open spec fn has_two_component_normal_map(
    m: TriplanarMaterial,
    normal_map_format: Option<ResolvedTextureFormat>,
) -> bool {
    m.normal_map_texture is Some && normal_map_format is Some && is_two_component_format(
        normal_map_format->0,
    )
}

/// The flags of the material other than its alpha mode.
pub open spec fn feature_flags(
    m: TriplanarMaterial,
    normal_map_format: Option<ResolvedTextureFormat>,
) -> u32 {
    flag_if(m.base_color_texture is Some, BASE_COLOR_TEXTURE) | flag_if(
        m.emissive_texture is Some,
        EMISSIVE_TEXTURE,
    ) | flag_if(m.metallic_roughness_texture is Some, METALLIC_ROUGHNESS_TEXTURE) | flag_if(
        m.occlusion_texture is Some,
        OCCLUSION_TEXTURE,
    ) | flag_if(m.double_sided, DOUBLE_SIDED) | flag_if(m.unlit, UNLIT) | flag_if(
        has_two_component_normal_map(m, normal_map_format),
        TWO_COMPONENT_NORMAL_MAP,
    ) | flag_if(m.normal_map_texture is Some && m.flip_normal_map_y, FLIP_NORMAL_MAP_Y)
}

/// The flags word of the material's uniform record.
pub open spec fn material_flags(
    m: TriplanarMaterial,
    normal_map_format: Option<ResolvedTextureFormat>,
) -> u32 {
    feature_flags(m, normal_map_format) | alpha_mode_flag(m.alpha_mode)
}

/// The uniform record of material `m`, whose normal map (if any) resolved to
/// `normal_map_format`.
pub open spec fn material_uniform(
    m: TriplanarMaterial,
    normal_map_format: Option<ResolvedTextureFormat>,
) -> TriplanarMaterialUniform {
    TriplanarMaterialUniform {
        base_color: m.base_color,
        emissive: m.emissive,
        roughness: m.perceptual_roughness,
        metallic: m.metallic,
        reflectance: m.reflectance,
        flags: material_flags(m, normal_map_format),
        alpha_cutoff: alpha_cutoff_of(m.alpha_mode),
        uv_scale: m.uv_scale,
    }
}

/// The pipeline key of material `m`.
pub open spec fn material_key(m: TriplanarMaterial) -> TriplanarMaterialKey {
    TriplanarMaterialKey { normal_map: m.normal_map_texture is Some, cull_mode: m.cull_mode }
}

impl<'a> From<&'a TriplanarMaterial> for TriplanarMaterialKey {
    fn from(material: &'a TriplanarMaterial) -> (r: TriplanarMaterialKey)
        ensures
            r == material_key(*material),
    {
        TriplanarMaterialKey {
            normal_map: material.normal_map_texture.is_some(),
            cull_mode: material.cull_mode,
        }
    }
}

impl<'a> vstd::std_specs::convert::FromSpecImpl<&'a TriplanarMaterial> for TriplanarMaterialKey {
    open spec fn obeys_from_spec() -> bool {
        true
    }

    open spec fn from_spec(material: &'a TriplanarMaterial) -> TriplanarMaterialKey {
        material_key(*material)
    }
}

proof fn lemma_flag_word_bits(
    b0: u32,
    b1: u32,
    b2: u32,
    b3: u32,
    b4: u32,
    b5: u32,
    b6: u32,
    b7: u32,
    a: u32,
    x: u32,
)
    by (bit_vector)
    requires
        b0 == 0 || b0 == BASE_COLOR_TEXTURE,
        b1 == 0 || b1 == EMISSIVE_TEXTURE,
        b2 == 0 || b2 == METALLIC_ROUGHNESS_TEXTURE,
        b3 == 0 || b3 == OCCLUSION_TEXTURE,
        b4 == 0 || b4 == DOUBLE_SIDED,
        b5 == 0 || b5 == UNLIT,
        b6 == 0 || b6 == TWO_COMPONENT_NORMAL_MAP,
        b7 == 0 || b7 == FLIP_NORMAL_MAP_Y,
        a == ALPHA_MODE_OPAQUE || a == ALPHA_MODE_MASK || a == ALPHA_MODE_BLEND || a
            == ALPHA_MODE_PREMULTIPLIED || a == ALPHA_MODE_ADD || a == ALPHA_MODE_MULTIPLY || a
            == ALPHA_MODE_ALPHA_TO_COVERAGE,
        x == ALPHA_MODE_OPAQUE || x == ALPHA_MODE_MASK || x == ALPHA_MODE_BLEND || x
            == ALPHA_MODE_PREMULTIPLIED || x == ALPHA_MODE_ADD || x == ALPHA_MODE_MULTIPLY || x
            == ALPHA_MODE_ALPHA_TO_COVERAGE,
    ensures
        (b0 | b1 | b2 | b3 | b4 | b5 | b6 | b7 | a) & ALPHA_MODE_RESERVED_BITS == a,
        ((b0 | b1 | b2 | b3 | b4 | b5 | b6 | b7 | a) & x != 0) == (x == a),
        ((b0 | b1 | b2 | b3 | b4 | b5 | b6 | b7 | a) & TWO_COMPONENT_NORMAL_MAP != 0) == (b6 != 0),
        ((b0 | b1 | b2 | b3 | b4 | b5 | b6 | b7 | a) & FLIP_NORMAL_MAP_Y != 0) == (b7 != 0),
{
}

proof fn lemma_material_flag_bits(
    m: TriplanarMaterial,
    normal_map_format: Option<ResolvedTextureFormat>,
    x: AlphaMode,
)
    ensures
        material_flags(m, normal_map_format) & ALPHA_MODE_RESERVED_BITS == alpha_mode_flag(
            m.alpha_mode,
        ),
        (material_flags(m, normal_map_format) & alpha_mode_flag(x) != 0) == (alpha_mode_flag(x)
            == alpha_mode_flag(m.alpha_mode)),
        (material_flags(m, normal_map_format) & TWO_COMPONENT_NORMAL_MAP != 0)
            == has_two_component_normal_map(m, normal_map_format),
        (material_flags(m, normal_map_format) & FLIP_NORMAL_MAP_Y != 0) == (
        m.normal_map_texture is Some && m.flip_normal_map_y),
{
    lemma_flag_word_bits(
        flag_if(m.base_color_texture is Some, BASE_COLOR_TEXTURE),
        flag_if(m.emissive_texture is Some, EMISSIVE_TEXTURE),
        flag_if(m.metallic_roughness_texture is Some, METALLIC_ROUGHNESS_TEXTURE),
        flag_if(m.occlusion_texture is Some, OCCLUSION_TEXTURE),
        flag_if(m.double_sided, DOUBLE_SIDED),
        flag_if(m.unlit, UNLIT),
        flag_if(has_two_component_normal_map(m, normal_map_format), TWO_COMPONENT_NORMAL_MAP),
        flag_if(m.normal_map_texture is Some && m.flip_normal_map_y, FLIP_NORMAL_MAP_Y),
        alpha_mode_flag(m.alpha_mode),
        alpha_mode_flag(x),
    );
}

/// The bits of two alpha modes are equal exactly when the modes are of the
/// same kind (a `Mask` with any cutoff being one kind).
pub proof fn lemma_alpha_mode_flags_distinct(a: AlphaMode, b: AlphaMode)
    ensures
        (alpha_mode_flag(a) == alpha_mode_flag(b)) == (a is Opaque && b is Opaque || a is Mask
            && b is Mask || a is Blend && b is Blend || a is Premultiplied && b is Premultiplied
            || a is Add && b is Add || a is Multiply && b is Multiply || a is AlphaToCoverage
            && b is AlphaToCoverage),
{
}

/// Exactly one alpha-mode bit is set in the flags of every material: the
/// alpha-mode bits of the flags are the bit of the material's own mode, and
/// the bit of any mode is set exactly when it is the bit of the material's.
pub proof fn lemma_exactly_one_alpha_mode_bit(
    m: TriplanarMaterial,
    normal_map_format: Option<ResolvedTextureFormat>,
)
    ensures
        material_uniform(m, normal_map_format).flags & ALPHA_MODE_RESERVED_BITS
            == alpha_mode_flag(m.alpha_mode),
        forall|x: AlphaMode|
            (#[trigger] (material_uniform(m, normal_map_format).flags & alpha_mode_flag(x)) != 0)
                == (alpha_mode_flag(x) == alpha_mode_flag(m.alpha_mode)),
{
    lemma_material_flag_bits(m, normal_map_format, m.alpha_mode);
    assert forall|x: AlphaMode|
        (#[trigger] (material_uniform(m, normal_map_format).flags & alpha_mode_flag(x)) != 0)
            == (alpha_mode_flag(x) == alpha_mode_flag(m.alpha_mode)) by {
        lemma_material_flag_bits(m, normal_map_format, x);
    }
}

/// Without a normal map, neither the two-component nor the Y-flip bit is
/// set, whatever the Y-flip setting and the resolved format.
pub proof fn lemma_normal_map_flags_need_normal_map(
    m: TriplanarMaterial,
    normal_map_format: Option<ResolvedTextureFormat>,
)
    requires
        m.normal_map_texture is None,
    ensures
        material_uniform(m, normal_map_format).flags & TWO_COMPONENT_NORMAL_MAP == 0,
        material_uniform(m, normal_map_format).flags & FLIP_NORMAL_MAP_Y == 0,
{
    lemma_material_flag_bits(m, normal_map_format, m.alpha_mode);
}

proof fn lemma_or_zero(x: u32)
    by (bit_vector)
    ensures
        x | 0 == x,
        0u32 | x == x,
{
}

impl TriplanarMaterial {
    /// The uniform record of this material. `normal_map_format` is the format
    /// that the normal-map texture resolved to on the GPU, if it has.
    pub fn as_bind_group_shader_type(
        &self,
        normal_map_format: Option<ResolvedTextureFormat>,
    ) -> (r: TriplanarMaterialUniform)
        ensures
            r == material_uniform(*self, normal_map_format),
    {
        let mut flags: u32 = 0;
        proof {
            lemma_or_zero(flag_if(self.base_color_texture is Some, BASE_COLOR_TEXTURE));
        }
        if self.base_color_texture.is_some() {
            flags = flags | BASE_COLOR_TEXTURE;
        }
        let ghost f = flags;
        proof {
            lemma_or_zero(f);
        }
        if self.emissive_texture.is_some() {
            flags = flags | EMISSIVE_TEXTURE;
        }
        let ghost f = flags;
        proof {
            lemma_or_zero(f);
        }
        if self.metallic_roughness_texture.is_some() {
            flags = flags | METALLIC_ROUGHNESS_TEXTURE;
        }
        let ghost f = flags;
        proof {
            lemma_or_zero(f);
        }
        if self.occlusion_texture.is_some() {
            flags = flags | OCCLUSION_TEXTURE;
        }
        let ghost f = flags;
        proof {
            lemma_or_zero(f);
        }
        if self.double_sided {
            flags = flags | DOUBLE_SIDED;
        }
        let ghost f = flags;
        proof {
            lemma_or_zero(f);
        }
        if self.unlit {
            flags = flags | UNLIT;
        }
        let ghost f = flags;
        proof {
            lemma_or_zero(f);
        }
        let has_normal_map = self.normal_map_texture.is_some();
        if has_normal_map {
            match normal_map_format {
                Some(format) => {
                    if format.is_two_component() {
                        flags = flags | TWO_COMPONENT_NORMAL_MAP;
                    }
                },
                None => {},
            }
        }
        let ghost f = flags;
        proof {
            lemma_or_zero(f);
        }
        if has_normal_map && self.flip_normal_map_y {
            flags = flags | FLIP_NORMAL_MAP_Y;
        }
        assert(flags == feature_flags(*self, normal_map_format));
        let mut alpha_cutoff: u32 = F32_HALF_BITS;
        match self.alpha_mode {
            AlphaMode::Opaque => flags = flags | ALPHA_MODE_OPAQUE,
            AlphaMode::Mask(c) => {
                alpha_cutoff = c;
                flags = flags | ALPHA_MODE_MASK;
            },
            AlphaMode::Blend => flags = flags | ALPHA_MODE_BLEND,
            AlphaMode::Premultiplied => flags = flags | ALPHA_MODE_PREMULTIPLIED,
            AlphaMode::Add => flags = flags | ALPHA_MODE_ADD,
            AlphaMode::Multiply => flags = flags | ALPHA_MODE_MULTIPLY,
            AlphaMode::AlphaToCoverage => flags = flags | ALPHA_MODE_ALPHA_TO_COVERAGE,
        }
        TriplanarMaterialUniform {
            base_color: self.base_color,
            emissive: self.emissive,
            roughness: self.perceptual_roughness,
            metallic: self.metallic,
            reflectance: self.reflectance,
            flags,
            alpha_cutoff,
            uv_scale: self.uv_scale,
        }
    }
}

} // verus!
