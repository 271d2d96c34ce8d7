use bevy_triplanar_splatting::bind_group::{
    TriplanarMaterialKey, ALPHA_MODE_ADD, ALPHA_MODE_ALPHA_TO_COVERAGE, ALPHA_MODE_BLEND,
    ALPHA_MODE_MASK, ALPHA_MODE_MULTIPLY, ALPHA_MODE_OPAQUE, ALPHA_MODE_PREMULTIPLIED,
    ALPHA_MODE_RESERVED_BITS, BASE_COLOR_TEXTURE, DOUBLE_SIDED, EMISSIVE_TEXTURE,
    FLIP_NORMAL_MAP_Y, METALLIC_ROUGHNESS_TEXTURE, OCCLUSION_TEXTURE, TWO_COMPONENT_NORMAL_MAP,
    UNLIT,
};
use bevy_triplanar_splatting::material::{
    AlphaMode, Face, ResolvedTextureFormat, Rgba, TextureId, TriplanarMaterial,
};

const ALL_ALPHA_BITS: [u32; 7] = [
    ALPHA_MODE_OPAQUE,
    ALPHA_MODE_MASK,
    ALPHA_MODE_BLEND,
    ALPHA_MODE_PREMULTIPLIED,
    ALPHA_MODE_ADD,
    ALPHA_MODE_MULTIPLY,
    ALPHA_MODE_ALPHA_TO_COVERAGE,
];

fn tex(n: u32) -> Option<TextureId> {
    Some(TextureId::Index { index: n, generation: 0 })
}

#[test]
fn default_material_values() {
    let m = TriplanarMaterial::default();
    assert_eq!(f32::from_bits(m.base_color.red), 1.0);
    assert_eq!(f32::from_bits(m.base_color.alpha), 1.0);
    assert_eq!(f32::from_bits(m.emissive.red), 0.0);
    assert_eq!(f32::from_bits(m.perceptual_roughness), 0.089);
    assert_eq!(f32::from_bits(m.metallic), 0.01);
    assert_eq!(f32::from_bits(m.reflectance), 0.5);
    assert_eq!(f32::from_bits(m.uv_scale), 1.0);
    assert_eq!(f32::from_bits(m.depth_bias()), 0.0);
    assert_eq!(m.cull_mode, Some(Face::Back));
    assert_eq!(m.alpha_mode(), AlphaMode::Opaque);
    assert!(m.base_color_texture.is_none() && m.normal_map_texture.is_none());
}

#[test]
fn default_uniform_is_opaque_with_half_cutoff() {
    let m = TriplanarMaterial::default();
    let u = m.as_bind_group_shader_type(None);
    assert_eq!(u.flags, ALPHA_MODE_OPAQUE);
    assert_eq!(f32::from_bits(u.alpha_cutoff), 0.5);
    assert_eq!(u.roughness, m.perceptual_roughness);
    assert_eq!(u.base_color, m.base_color);
    assert_eq!(u.uv_scale, m.uv_scale);
}

#[test]
fn texture_and_side_flags() {
    let mut m = TriplanarMaterial::default();
    m.base_color_texture = tex(1);
    m.emissive_texture = tex(2);
    m.metallic_roughness_texture = tex(3);
    m.occlusion_texture = tex(4);
    m.double_sided = true;
    m.unlit = true;
    let u = m.as_bind_group_shader_type(None);
    assert_eq!(
        u.flags,
        BASE_COLOR_TEXTURE
            | EMISSIVE_TEXTURE
            | METALLIC_ROUGHNESS_TEXTURE
            | OCCLUSION_TEXTURE
            | DOUBLE_SIDED
            | UNLIT
            | ALPHA_MODE_OPAQUE
    );
}

#[test]
fn exactly_one_alpha_bit_for_every_mode() {
    let modes = [
        (AlphaMode::Opaque, ALPHA_MODE_OPAQUE),
        (AlphaMode::Mask(0.25f32.to_bits()), ALPHA_MODE_MASK),
        (AlphaMode::Blend, ALPHA_MODE_BLEND),
        (AlphaMode::Premultiplied, ALPHA_MODE_PREMULTIPLIED),
        (AlphaMode::Add, ALPHA_MODE_ADD),
        (AlphaMode::Multiply, ALPHA_MODE_MULTIPLY),
        (AlphaMode::AlphaToCoverage, ALPHA_MODE_ALPHA_TO_COVERAGE),
    ];
    for (mode, bit) in modes {
        let mut m = TriplanarMaterial::default();
        m.alpha_mode = mode;
        m.normal_map_texture = tex(9);
        m.flip_normal_map_y = true;
        let u = m.as_bind_group_shader_type(Some(ResolvedTextureFormat::Bc5RgUnorm));
        assert_eq!(u.flags & ALPHA_MODE_RESERVED_BITS, bit);
        let set = ALL_ALPHA_BITS.iter().filter(|b| u.flags & **b != 0).count();
        assert_eq!(set, 1);
    }
}

#[test]
fn mask_mode_carries_its_cutoff() {
    let mut m = TriplanarMaterial::default();
    m.alpha_mode = AlphaMode::Mask(0.3f32.to_bits());
    let u = m.as_bind_group_shader_type(None);
    assert_eq!(f32::from_bits(u.alpha_cutoff), 0.3);
    m.alpha_mode = AlphaMode::Blend;
    let u = m.as_bind_group_shader_type(None);
    assert_eq!(f32::from_bits(u.alpha_cutoff), 0.5);
}

#[test]
fn normal_map_flags_need_a_normal_map() {
    let formats = [
        None,
        Some(ResolvedTextureFormat::Rg8Unorm),
        Some(ResolvedTextureFormat::Other),
    ];
    for format in formats {
        for flip in [false, true] {
            let mut m = TriplanarMaterial::default();
            m.flip_normal_map_y = flip;
            let u = m.as_bind_group_shader_type(format);
            assert_eq!(u.flags & TWO_COMPONENT_NORMAL_MAP, 0);
            assert_eq!(u.flags & FLIP_NORMAL_MAP_Y, 0);
        }
    }
}

#[test]
fn two_component_formats_set_their_flag() {
    let two = [
        ResolvedTextureFormat::Rg8Unorm,
        ResolvedTextureFormat::Rg16Unorm,
        ResolvedTextureFormat::Bc5RgUnorm,
        ResolvedTextureFormat::EacRg11Unorm,
    ];
    for f in two {
        assert!(f.is_two_component());
        let mut m = TriplanarMaterial::default();
        m.normal_map_texture = tex(5);
        let u = m.as_bind_group_shader_type(Some(f));
        assert_eq!(u.flags, TWO_COMPONENT_NORMAL_MAP | ALPHA_MODE_OPAQUE);
    }
    assert!(!ResolvedTextureFormat::Other.is_two_component());
    let mut m = TriplanarMaterial::default();
    m.normal_map_texture = tex(5);
    assert_eq!(
        m.as_bind_group_shader_type(Some(ResolvedTextureFormat::Other)).flags,
        ALPHA_MODE_OPAQUE
    );
    assert_eq!(m.as_bind_group_shader_type(None).flags, ALPHA_MODE_OPAQUE);
    m.flip_normal_map_y = true;
    assert_eq!(
        m.as_bind_group_shader_type(None).flags,
        FLIP_NORMAL_MAP_Y | ALPHA_MODE_OPAQUE
    );
}

#[test]
fn uniform_passes_scalars_through() {
    let mut m = TriplanarMaterial::default();
    m.base_color = Rgba {
        red: 0.1f32.to_bits(),
        green: 0.2f32.to_bits(),
        blue: 0.3f32.to_bits(),
        alpha: 0.4f32.to_bits(),
    };
    m.emissive = Rgba { red: 2.0f32.to_bits(), green: 0, blue: 0, alpha: 1.0f32.to_bits() };
    m.perceptual_roughness = 0.9f32.to_bits();
    m.metallic = 0.05f32.to_bits();
    m.reflectance = 0.7f32.to_bits();
    m.uv_scale = 3.0f32.to_bits();
    let u = m.as_bind_group_shader_type(None);
    assert_eq!(u.base_color, m.base_color);
    assert_eq!(u.emissive, m.emissive);
    assert_eq!(f32::from_bits(u.roughness), 0.9);
    assert_eq!(f32::from_bits(u.metallic), 0.05);
    assert_eq!(f32::from_bits(u.reflectance), 0.7);
    assert_eq!(f32::from_bits(u.uv_scale), 3.0);
}

#[test]
fn key_follows_normal_map_and_cull_mode() {
    let mut m = TriplanarMaterial::default();
    let k = TriplanarMaterialKey::from(&m);
    assert_eq!(k, TriplanarMaterialKey { normal_map: false, cull_mode: Some(Face::Back) });
    m.normal_map_texture = tex(7);
    m.cull_mode = None;
    let k = TriplanarMaterialKey::from(&m);
    assert_eq!(k, TriplanarMaterialKey { normal_map: true, cull_mode: None });
}
