use bevy::pbr::{MeshPipelineKey, MAX_CASCADES_PER_LIGHT, MAX_DIRECTIONAL_LIGHTS};
use bevy::render::render_resource::ColorWrites;
use mesh_mask::config::{
    BindGroupLayoutId, BlendMode, ColorTarget, DepthStencil, FragmentStage, Multisample,
    PipelineConfig, ShaderDefVal, ShaderId, TextureFormat, VertexStage, COLOR_WRITES_ALL,
    SAMPLE_MASK_ALL,
};
use mesh_mask::key::SpecializationKey;
use mesh_mask::pipeline::{
    LayoutError, LightLimits, MeshMaskPipeline, SpecializationError, MASK_SAMPLE_COUNT,
};

const VIEW: BindGroupLayoutId = BindGroupLayoutId(11);
const VIEW_MS: BindGroupLayoutId = BindGroupLayoutId(12);
const MESH: BindGroupLayoutId = BindGroupLayoutId(13);
const SKINNED: BindGroupLayoutId = BindGroupLayoutId(14);
const MASK_SHADER: ShaderId = ShaderId(0xDEAD_BEEF);
const MESH_SHADER: ShaderId = ShaderId(7);

fn pipeline() -> MeshMaskPipeline {
    MeshMaskPipeline::new(VIEW, VIEW_MS, MESH, MASK_SHADER)
}

fn base_config() -> PipelineConfig {
    PipelineConfig {
        label: Some("opaque_mesh_pipeline".to_string()),
        layout: vec![VIEW, SKINNED, BindGroupLayoutId(99)],
        vertex: VertexStage {
            shader: MESH_SHADER,
            shader_defs: vec![
                ShaderDefVal::Bool("VERTEX_POSITIONS".to_string(), true),
                ShaderDefVal::UInt("SOME_COUNT".to_string(), 3),
            ],
            entry_point: "vertex".to_string(),
        },
        depth_stencil: Some(DepthStencil {
            format: TextureFormat::Depth32Float,
            depth_write_enabled: true,
        }),
        multisample: Multisample { count: 1, mask: 1, alpha_to_coverage_enabled: true },
        fragment: Some(FragmentStage {
            shader: MESH_SHADER,
            shader_defs: vec![ShaderDefVal::Bool("TONEMAP_IN_SHADER".to_string(), true)],
            entry_point: "main".to_string(),
            targets: vec![
                Some(ColorTarget {
                    format: TextureFormat::Bgra8UnormSrgb,
                    blend: Some(BlendMode::AlphaBlending),
                    write_mask: 0x7,
                }),
                None,
            ],
        }),
    }
}

fn expected_mask_config(view_layout: BindGroupLayoutId) -> PipelineConfig {
    PipelineConfig {
        label: Some("mesh_stencil_pipeline".to_string()),
        layout: vec![view_layout, MESH],
        vertex: VertexStage {
            shader: MASK_SHADER,
            shader_defs: vec![
                ShaderDefVal::Bool("VERTEX_POSITIONS".to_string(), true),
                ShaderDefVal::UInt("SOME_COUNT".to_string(), 3),
            ],
            entry_point: "vertex".to_string(),
        },
        depth_stencil: None,
        multisample: Multisample {
            count: 4,
            mask: 0xFFFF_FFFF_FFFF_FFFF,
            alpha_to_coverage_enabled: false,
        },
        fragment: Some(FragmentStage {
            shader: MASK_SHADER,
            shader_defs: vec![
                ShaderDefVal::Int("MAX_DIRECTIONAL_LIGHTS".to_string(), 10),
                ShaderDefVal::Int("MAX_CASCADES_PER_LIGHT".to_string(), 4),
            ],
            entry_point: "fragment".to_string(),
            targets: vec![Some(ColorTarget {
                format: TextureFormat::R8Unorm,
                blend: None,
                write_mask: 0xF,
            })],
        }),
    }
}

#[test]
fn constants_have_their_values() {
    assert_eq!(MASK_SAMPLE_COUNT, 4);
    assert_eq!(COLOR_WRITES_ALL, 0xF);
    assert_eq!(SAMPLE_MASK_ALL, u64::MAX);
}

#[test]
fn key_keeps_its_bits() {
    assert_eq!(SpecializationKey::from_bits(0x1234_5678).bits, 0x1234_5678);
}

#[test]
fn msaa_samples_of_zero_bits_is_one() {
    assert_eq!(SpecializationKey::from_bits(0).msaa_samples(), 1);
}

#[test]
fn msaa_samples_is_two_to_the_top_three_bits() {
    assert_eq!(SpecializationKey::from_bits(1 << 29).msaa_samples(), 2);
    assert_eq!(SpecializationKey::from_bits(2 << 29).msaa_samples(), 4);
    assert_eq!(SpecializationKey::from_bits(3 << 29).msaa_samples(), 8);
    assert_eq!(SpecializationKey::from_bits(7 << 29).msaa_samples(), 128);
    assert_eq!(SpecializationKey::from_bits(u32::MAX).msaa_samples(), 128);
}

#[test]
fn msaa_samples_ignores_the_lower_bits() {
    assert_eq!(SpecializationKey::from_bits(0x1FFF_FFFF).msaa_samples(), 1);
    assert_eq!(SpecializationKey::from_bits((2 << 29) | 0x0ABC_DEF1).msaa_samples(), 4);
}

#[test]
fn msaa_samples_agrees_with_the_engine_key() {
    for samples in [1u32, 2, 4, 8] {
        let engine_key = MeshPipelineKey::from_msaa_samples(samples) | MeshPipelineKey::HDR;
        let key = SpecializationKey::from_bits(engine_key.bits());
        assert_eq!(key.msaa_samples(), samples);
        assert_eq!(key.msaa_samples(), engine_key.msaa_samples());
    }
}

#[test]
fn new_pipeline_holds_what_it_was_given() {
    let p = pipeline();
    assert_eq!(p.view_layout, VIEW);
    assert_eq!(p.view_layout_multisampled, VIEW_MS);
    assert_eq!(p.mesh_layout, MESH);
    assert_eq!(p.mask_shader, MASK_SHADER);
}

#[test]
fn new_pipeline_takes_the_engine_light_limits() {
    let p = pipeline();
    assert_eq!(p.limits, LightLimits { max_directional_lights: 10, max_cascades_per_light: 4 });
    assert_eq!(p.limits.max_directional_lights, MAX_DIRECTIONAL_LIGHTS as i32);
    assert_eq!(p.limits.max_cascades_per_light, MAX_CASCADES_PER_LIGHT as i32);
}

#[test]
fn mask_config_overrides_the_base() {
    let cfg = pipeline().mask_config(SpecializationKey::from_bits(2 << 29), base_config());
    assert_eq!(cfg, expected_mask_config(VIEW_MS));
}

#[test]
fn mask_config_of_a_single_sample_key_uses_the_single_sample_view_layout() {
    for bits in [0u32, 1, 0x1FFF_FFFF] {
        let key = SpecializationKey::from_bits(bits);
        assert_eq!(key.msaa_samples(), 1);
        let cfg = pipeline().mask_config(key, base_config());
        assert_eq!(cfg.layout, vec![VIEW, MESH]);
    }
}

#[test]
fn mask_config_of_a_multisampled_key_uses_the_multisampled_view_layout() {
    for bits in [1u32 << 29, 2 << 29, (2 << 29) | 1, 7 << 29, u32::MAX] {
        let key = SpecializationKey::from_bits(bits);
        assert!(key.msaa_samples() > 1);
        let cfg = pipeline().mask_config(key, base_config());
        assert_eq!(cfg.layout, vec![VIEW_MS, MESH]);
    }
}

#[test]
fn mask_config_follows_the_sample_count_of_the_engine_key() {
    let single = SpecializationKey::from_bits(MeshPipelineKey::from_msaa_samples(1).bits());
    let four = SpecializationKey::from_bits(MeshPipelineKey::from_msaa_samples(4).bits());
    assert_eq!(pipeline().mask_config(single, base_config()), expected_mask_config(VIEW));
    assert_eq!(pipeline().mask_config(four, base_config()), expected_mask_config(VIEW_MS));
}

#[test]
fn mask_config_is_multisampled_whatever_the_key() {
    for bits in [0u32, 2 << 29] {
        let cfg = pipeline().mask_config(SpecializationKey::from_bits(bits), base_config());
        assert_eq!(cfg.multisample.count, 4);
    }
}

#[test]
fn mask_config_keeps_the_vertex_stage_but_for_its_shader() {
    let base = base_config();
    let cfg = pipeline().mask_config(SpecializationKey::from_bits(0), base.clone());
    assert_eq!(cfg.vertex.shader, MASK_SHADER);
    assert_eq!(cfg.vertex.shader_defs, base.vertex.shader_defs);
    assert_eq!(cfg.vertex.entry_point, base.vertex.entry_point);
}

#[test]
fn mask_config_uses_the_limits_of_the_pipeline() {
    let mut p = pipeline();
    p.limits = LightLimits { max_directional_lights: 3, max_cascades_per_light: 1 };
    let cfg = p.mask_config(SpecializationKey::from_bits(0), base_config());
    assert_eq!(
        cfg.fragment.unwrap().shader_defs,
        vec![
            ShaderDefVal::Int("MAX_DIRECTIONAL_LIGHTS".to_string(), 3),
            ShaderDefVal::Int("MAX_CASCADES_PER_LIGHT".to_string(), 1),
        ]
    );
}

#[test]
fn mask_config_has_the_fixed_shape() {
    let cfg = pipeline().mask_config(SpecializationKey::from_bits(0), base_config());
    assert_eq!(cfg.depth_stencil, None);
    assert_eq!(cfg.multisample.count, 4);
    assert_eq!(cfg.multisample.mask, u64::MAX);
    assert!(!cfg.multisample.alpha_to_coverage_enabled);
    assert_eq!(cfg.layout.len(), 2);
    let fragment = cfg.fragment.unwrap();
    assert_eq!(fragment.targets.len(), 1);
    assert_eq!(fragment.targets[0].unwrap().format, TextureFormat::R8Unorm);
    assert_eq!(fragment.targets[0].unwrap().blend, None);
    assert_eq!(fragment.targets[0].unwrap().write_mask, COLOR_WRITES_ALL);
}

#[test]
fn mask_config_of_a_base_without_fragment_stage_has_one() {
    let mut base = base_config();
    base.fragment = None;
    base.label = None;
    base.layout = Vec::new();
    let cfg = pipeline().mask_config(SpecializationKey::from_bits(0), base);
    assert_eq!(cfg, expected_mask_config(VIEW));
}

#[test]
fn specialize_of_a_base_success_is_the_mask_config() {
    let result = pipeline().specialize(SpecializationKey::from_bits(2 << 29), Ok(base_config()));
    assert_eq!(result, Ok(expected_mask_config(VIEW_MS)));
}

#[test]
fn specialize_of_a_single_sample_key_puts_the_single_sample_view_layout_first() {
    let result = pipeline().specialize(SpecializationKey::from_bits(0), Ok(base_config()));
    assert_eq!(result, Ok(expected_mask_config(VIEW)));
    assert_eq!(result.unwrap().layout, vec![VIEW, MESH]);
}

#[test]
fn specialize_is_deterministic() {
    let key = SpecializationKey::from_bits((2 << 29) | 5);
    let first = pipeline().specialize(key, Ok(base_config()));
    let second = pipeline().specialize(key, Ok(base_config()));
    assert!(first.is_ok());
    assert_eq!(first, second);
}

#[test]
fn specialize_hands_on_a_base_failure_unchanged() {
    let cause = LayoutError {
        message: "Mesh is missing requested attribute: Vertex_Normal".to_string(),
    };
    let result = pipeline().specialize(SpecializationKey::from_bits(0), Err(cause.clone()));
    assert_eq!(result, Err(SpecializationError::BaseSpecialization(cause)));
}

#[test]
fn specialize_fails_for_each_key_when_the_base_fails() {
    for bits in [0u32, 2 << 29, u32::MAX] {
        let cause = LayoutError { message: String::new() };
        let result = pipeline().specialize(SpecializationKey::from_bits(bits), Err(cause.clone()));
        assert_eq!(result, Err(SpecializationError::BaseSpecialization(cause)));
    }
}

#[test]
fn color_writes_all_is_the_mask_of_the_engine() {
    assert_eq!(COLOR_WRITES_ALL, ColorWrites::ALL.bits());
    let cfg = pipeline().mask_config(SpecializationKey::from_bits(0), base_config());
    let target = cfg.fragment.unwrap().targets[0].unwrap();
    assert_eq!(ColorWrites::from_bits(target.write_mask), Some(ColorWrites::ALL));
}
