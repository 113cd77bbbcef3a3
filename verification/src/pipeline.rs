//! The pipeline specializer: reshapes a base mesh pipeline for mask rendering.

use vstd::prelude::*;
use crate::config::{
    defs_view, BindGroupLayoutId, ColorTarget, FragmentStage, FragmentStageView, Multisample,
    PipelineConfig, PipelineConfigView, ShaderDefVal, ShaderDefValView, ShaderId, TextureFormat,
    VertexStageView, COLOR_WRITES_ALL, SAMPLE_MASK_ALL,
};
use crate::key::{lemma_msaa_samples_by_field, msaa_field_of, SpecializationKey};

verus! {

/// Sample count of every mask pipeline.
pub const MASK_SAMPLE_COUNT: u32 = 4;

/// Engine-wide light limits that the mask shader is compiled against.
#[derive(Clone, Copy, Debug, PartialEq, Eq, Hash)]
pub struct LightLimits {
    pub max_directional_lights: i32,
    pub max_cascades_per_light: i32,
}

/// Why the base mesh pipeline could not serve a vertex layout, in its own
/// words.
#[derive(Clone, Debug, PartialEq, Eq, Hash)]
pub struct LayoutError {
    pub message: String,
}

/// Failure of a specialization.
#[derive(Clone, Debug, PartialEq, Eq, Hash)]
pub enum SpecializationError {
    /// The base mesh pipeline failed; its cause is kept as it came.
    BaseSpecialization(LayoutError),
}

/// The mask pipeline: the layouts of the mesh pipeline it extends, the mask
/// shader, and the light limits of the engine.
#[derive(Clone, Copy, Debug, PartialEq, Eq, Hash)]
pub struct MeshMaskPipeline {
    pub view_layout: BindGroupLayoutId,
    pub view_layout_multisampled: BindGroupLayoutId,
    pub mesh_layout: BindGroupLayoutId,
    pub mask_shader: ShaderId,
    pub limits: LightLimits,
}

/// Trusted: reads the constant `bevy::pbr::MAX_DIRECTIONAL_LIGHTS`, which the
/// engine defines as 10.
#[verifier::external_body]
fn max_directional_lights() -> (n: usize)
    ensures
        n == 10,
{
    bevy::pbr::MAX_DIRECTIONAL_LIGHTS
}

/// Trusted: reads the constant `bevy::pbr::MAX_CASCADES_PER_LIGHT`, which the
/// engine defines as 4, or as 1 when it is built for WebGL.
#[verifier::external_body]
fn max_cascades_per_light() -> (n: usize)
    ensures
        n == 4 || n == 1,
{
    bevy::pbr::MAX_CASCADES_PER_LIGHT
}

/// The definitions handed to the mask fragment program.
pub open spec fn mask_shader_defs(limits: LightLimits) -> Seq<ShaderDefValView> {
    seq![
        ShaderDefValView::Int("MAX_DIRECTIONAL_LIGHTS"@, limits.max_directional_lights),
        ShaderDefValView::Int("MAX_CASCADES_PER_LIGHT"@, limits.max_cascades_per_light),
    ]
}

/// The one color target of a mask pipeline: a single 8-bit channel, written
/// without blending.
pub open spec fn mask_color_target() -> ColorTarget {
    ColorTarget { format: TextureFormat::R8Unorm, blend: None, write_mask: COLOR_WRITES_ALL }
}

/// The multisample state of a mask pipeline.
pub open spec fn mask_multisample() -> Multisample {
    Multisample { count: MASK_SAMPLE_COUNT, mask: SAMPLE_MASK_ALL, alpha_to_coverage_enabled: false }
}

/// The outcome of a specialization with its configuration taken by value.
pub open spec fn outcome_view<E>(outcome: Result<PipelineConfig, E>) -> Result<
    PipelineConfigView,
    E,
> {
    match outcome {
        Ok(config) => Ok(config@),
        Err(e) => Err(e),
    }
}

impl MeshMaskPipeline {
    /// A mask pipeline over the given layouts and shader, with the light
    /// limits of the engine it is built with.
    pub fn new(
        view_layout: BindGroupLayoutId,
        view_layout_multisampled: BindGroupLayoutId,
        mesh_layout: BindGroupLayoutId,
        mask_shader: ShaderId,
    ) -> (pipeline: MeshMaskPipeline)
        ensures
            pipeline.view_layout == view_layout,
            pipeline.view_layout_multisampled == view_layout_multisampled,
            pipeline.mesh_layout == mesh_layout,
            pipeline.mask_shader == mask_shader,
            pipeline.has_engine_limits(),
    {
        let limits = LightLimits {
            max_directional_lights: max_directional_lights() as i32,
            max_cascades_per_light: max_cascades_per_light() as i32,
        };
        MeshMaskPipeline { view_layout, view_layout_multisampled, mesh_layout, mask_shader, limits }
    }

    /// Whether the limits are those of the engine: ten directional lights,
    /// and four cascades per light, or one where the engine is built for
    /// WebGL.
    pub open spec fn has_engine_limits(&self) -> bool {
        &&& self.limits.max_directional_lights == 10
        &&& (self.limits.max_cascades_per_light == 4 || self.limits.max_cascades_per_light == 1)
    }

    /// The view layout a key selects: the multisampled one when the key asks
    /// for more than one sample, else the single-sample one.
    pub open spec fn spec_view_layout(&self, key: SpecializationKey) -> BindGroupLayoutId {
        if key.spec_msaa_samples() > 1 {
            self.view_layout_multisampled
        } else {
            self.view_layout
        }
    }

    /// The mask configuration for `key` over the base configuration `base`.
    /// Only the vertex stage's definitions and entry point come from `base`.
    pub open spec fn spec_mask_config(
        &self,
        key: SpecializationKey,
        base: PipelineConfigView,
    ) -> PipelineConfigView {
        PipelineConfigView {
            label: Some("mesh_stencil_pipeline"@),
            layout: seq![self.spec_view_layout(key), self.mesh_layout],
            vertex: VertexStageView {
                shader: self.mask_shader,
                shader_defs: base.vertex.shader_defs,
                entry_point: base.vertex.entry_point,
            },
            depth_stencil: None,
            multisample: mask_multisample(),
            fragment: Some(
                FragmentStageView {
                    shader: self.mask_shader,
                    shader_defs: mask_shader_defs(self.limits),
                    entry_point: "fragment"@,
                    targets: seq![Some(mask_color_target())],
                },
            ),
        }
    }

    /// What `specialize` returns for each outcome of the base specialization.
    pub open spec fn spec_specialize(
        &self,
        key: SpecializationKey,
        base: Result<PipelineConfigView, LayoutError>,
    ) -> Result<PipelineConfigView, SpecializationError> {
        match base {
            Ok(b) => Ok(self.spec_mask_config(key, b)),
            Err(cause) => Err(SpecializationError::BaseSpecialization(cause)),
        }
    }

    /// Overrides `base` for mask rendering: bind-group layouts, both shader
    /// stages, the color target, the multisample state and the label are set;
    /// the depth/stencil state is removed.
    pub fn mask_config(&self, key: SpecializationKey, base: PipelineConfig) -> (cfg: PipelineConfig)
        ensures
            cfg@ == self.spec_mask_config(key, base@),
            cfg.depth_stencil is None,
            cfg.multisample.count == 4,
            cfg.layout@.len() == 2,
            cfg.fragment is Some,
            cfg.fragment->Some_0.targets@ == seq![Some(mask_color_target())],
    {
        let mut desc = base;
        let view_layout = if key.msaa_samples() > 1 {
            self.view_layout_multisampled
        } else {
            self.view_layout
        };
        desc.layout = vec![view_layout, self.mesh_layout];
        desc.vertex.shader = self.mask_shader;
        let shader_defs = vec![
            ShaderDefVal::Int("MAX_DIRECTIONAL_LIGHTS".to_owned(), self.limits.max_directional_lights),
            ShaderDefVal::Int("MAX_CASCADES_PER_LIGHT".to_owned(), self.limits.max_cascades_per_light),
        ];
        let targets = vec![
            Some(ColorTarget { format: TextureFormat::R8Unorm, blend: None, write_mask: COLOR_WRITES_ALL }),
        ];
        proof {
            assert(defs_view(shader_defs@) =~= mask_shader_defs(self.limits));
            assert(targets@ =~= seq![Some(mask_color_target())]);
            assert(desc.layout@ =~= seq![self.spec_view_layout(key), self.mesh_layout]);
        }
        desc.fragment = Some(
            FragmentStage {
                shader: self.mask_shader,
                shader_defs,
                entry_point: "fragment".to_owned(),
                targets,
            },
        );
        desc.depth_stencil = None;
        desc.multisample = Multisample {
            count: MASK_SAMPLE_COUNT,
            mask: SAMPLE_MASK_ALL,
            alpha_to_coverage_enabled: false,
        };
        desc.label = Some("mesh_stencil_pipeline".to_owned());
        desc
    }

    /// The mask configuration for a mesh, given what the base mesh pipeline
    /// made of the same key and vertex layout. A base failure is handed on
    /// with its cause untouched.
    pub fn specialize(
        &self,
        key: SpecializationKey,
        base: Result<PipelineConfig, LayoutError>,
    ) -> (result: Result<PipelineConfig, SpecializationError>)
        ensures
            outcome_view(result) == self.spec_specialize(key, outcome_view(base)),
            base is Ok ==> result is Ok && result->Ok_0@ == self.spec_mask_config(
                key,
                base->Ok_0@,
            ),
            base is Err ==> result == Err::<PipelineConfig, SpecializationError>(
                SpecializationError::BaseSpecialization(base->Err_0),
            ),
            result is Ok ==> {
                let cfg = result->Ok_0;
                &&& cfg.depth_stencil is None
                &&& cfg.multisample.count == 4
                &&& cfg.layout@.len() == 2
                &&& cfg.fragment is Some
                &&& cfg.fragment->Some_0.targets@ == seq![Some(mask_color_target())]
            },
    {
        match base {
            Ok(desc) => Ok(self.mask_config(key, desc)),
            Err(cause) => Err(SpecializationError::BaseSpecialization(cause)),
        }
    }
}

/// Determinism: two specializations by equal pipelines, with equal keys, over
/// equal outcomes of the base specialization, give the same outcome.
pub proof fn lemma_specialize_deterministic(
    first: MeshMaskPipeline,
    second: MeshMaskPipeline,
    first_key: SpecializationKey,
    second_key: SpecializationKey,
    first_base: Result<PipelineConfig, LayoutError>,
    second_base: Result<PipelineConfig, LayoutError>,
)
    requires
        first == second,
        first_key == second_key,
        outcome_view(first_base) == outcome_view(second_base),
    ensures
        first.spec_specialize(first_key, outcome_view(first_base)) == second.spec_specialize(
            second_key,
            outcome_view(second_base),
        ),
{
}

/// A mask configuration depends on the key only through the view layout it
/// selects, and on the base configuration only through the definitions and
/// the entry point of its vertex stage.
pub proof fn lemma_mask_config_dependencies(
    pipeline: MeshMaskPipeline,
    first_key: SpecializationKey,
    second_key: SpecializationKey,
    first_base: PipelineConfigView,
    second_base: PipelineConfigView,
)
    requires
        pipeline.spec_view_layout(first_key) == pipeline.spec_view_layout(second_key),
        first_base.vertex.shader_defs == second_base.vertex.shader_defs,
        first_base.vertex.entry_point == second_base.vertex.entry_point,
    ensures
        pipeline.spec_mask_config(first_key, first_base) == pipeline.spec_mask_config(
            second_key,
            second_base,
        ),
{
}

/// Every mask configuration has no depth/stencil state, four samples, exactly
/// one color target, of the single-channel mask format, and two bind-group
/// layouts.
pub proof fn lemma_mask_config_shape(
    pipeline: MeshMaskPipeline,
    key: SpecializationKey,
    base: PipelineConfigView,
)
    ensures
        pipeline.spec_mask_config(key, base).depth_stencil is None,
        pipeline.spec_mask_config(key, base).multisample.count == 4,
        pipeline.spec_mask_config(key, base).layout.len() == 2,
        pipeline.spec_mask_config(key, base).fragment is Some,
        pipeline.spec_mask_config(key, base).fragment->Some_0.targets.len() == 1,
        pipeline.spec_mask_config(key, base).fragment->Some_0.targets[0] is Some,
        pipeline.spec_mask_config(key, base).fragment->Some_0.targets[0]->Some_0.format
            == TextureFormat::R8Unorm,
{
}

/// A failure of the base specialization comes out as a failure that holds the
/// same cause; a success never turns into a failure.
pub proof fn lemma_base_failure_propagates(
    pipeline: MeshMaskPipeline,
    key: SpecializationKey,
    base: Result<PipelineConfigView, LayoutError>,
)
    ensures
        base is Err ==> pipeline.spec_specialize(key, base) == Err::<
            PipelineConfigView,
            SpecializationError,
        >(SpecializationError::BaseSpecialization(base->Err_0)),
        base is Ok ==> pipeline.spec_specialize(key, base) is Ok,
{
}

/// A key whose multisample field is zero asks for one sample and selects the
/// single-sample view layout; every other key asks for more and selects the
/// multisampled one.
pub proof fn lemma_view_layout_by_sample_count(pipeline: MeshMaskPipeline, key: SpecializationKey)
    ensures
        msaa_field_of(key.bits) == 0 ==> key.spec_msaa_samples() == 1 && pipeline.spec_view_layout(
            key,
        ) == pipeline.view_layout,
        msaa_field_of(key.bits) != 0 ==> key.spec_msaa_samples() > 1 && pipeline.spec_view_layout(
            key,
        ) == pipeline.view_layout_multisampled,
{
    lemma_msaa_samples_by_field(key.bits);
}

/// Under the limits of the engine, the mask fragment program is compiled
/// with ten directional lights and with four cascades per light, or one.
pub proof fn lemma_engine_limits_definitions(
    pipeline: MeshMaskPipeline,
    key: SpecializationKey,
    base: PipelineConfigView,
)
    requires
        pipeline.has_engine_limits(),
    ensures
        pipeline.spec_mask_config(key, base).fragment is Some,
        pipeline.spec_mask_config(key, base).fragment->Some_0.shader_defs.len() == 2,
        pipeline.spec_mask_config(key, base).fragment->Some_0.shader_defs[0]
            == ShaderDefValView::Int("MAX_DIRECTIONAL_LIGHTS"@, 10),
        pipeline.spec_mask_config(key, base).fragment->Some_0.shader_defs[1]
            == ShaderDefValView::Int("MAX_CASCADES_PER_LIGHT"@, 4)
            || pipeline.spec_mask_config(key, base).fragment->Some_0.shader_defs[1]
            == ShaderDefValView::Int("MAX_CASCADES_PER_LIGHT"@, 1),
{
}

} // verus!
