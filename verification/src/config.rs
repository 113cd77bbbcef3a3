//! Plain-value description of a render pipeline.
//!
//! GPU objects stay with the renderer; a configuration names them by integer
//! handles and holds every setting that mask generation reads or decides.

use vstd::prelude::*;

verus! {

/// Handle of a bind-group layout owned by the renderer.
#[derive(Clone, Copy, Debug, PartialEq, Eq, Hash)]
pub struct BindGroupLayoutId(pub u64);

/// Handle of a shader program owned by the asset system.
#[derive(Clone, Copy, Debug, PartialEq, Eq, Hash)]
pub struct ShaderId(pub u64);

/// Texel formats a pipeline target can have.
#[derive(Clone, Copy, Debug, PartialEq, Eq, Hash)]
pub enum TextureFormat {
    /// One 8-bit channel, unsigned, normalized to the range from 0 to 1.
    R8Unorm,
    Rgba8Unorm,
    Rgba8UnormSrgb,
    Bgra8UnormSrgb,
    Rgba16Float,
    Depth32Float,
    Depth24PlusStencil8,
    /// Any format that this library does not tell apart.
    Other,
}

/// The blend equations a color target can name.
#[derive(Clone, Copy, Debug, PartialEq, Eq, Hash)]
pub enum BlendMode {
    Replace,
    AlphaBlending,
    PremultipliedAlphaBlending,
    /// Any blend equation that this library does not tell apart.
    Custom,
}

/// Write mask that enables the red, green, blue and alpha channels.
pub const COLOR_WRITES_ALL: u32 = 0xF;

/// Sample mask that enables every sample.
pub const SAMPLE_MASK_ALL: u64 = 0xFFFF_FFFF_FFFF_FFFF;

/// One color attachment of a fragment stage.
#[derive(Clone, Copy, Debug, PartialEq, Eq, Hash)]
pub struct ColorTarget {
    pub format: TextureFormat,
    pub blend: Option<BlendMode>,
    pub write_mask: u32,
}

/// Depth and stencil state of a pipeline.
#[derive(Clone, Copy, Debug, PartialEq, Eq, Hash)]
pub struct DepthStencil {
    pub format: TextureFormat,
    pub depth_write_enabled: bool,
}

/// Multisample state of a pipeline.
#[derive(Clone, Copy, Debug, PartialEq, Eq, Hash)]
pub struct Multisample {
    pub count: u32,
    pub mask: u64,
    pub alpha_to_coverage_enabled: bool,
}

/// A preprocessor definition handed to a shader.
#[derive(Clone, Debug, PartialEq, Eq, Hash)]
pub enum ShaderDefVal {
    Bool(String, bool),
    Int(String, i32),
    UInt(String, u32),
}

/// Mathematical value of a [`ShaderDefVal`].
pub enum ShaderDefValView {
    Bool(Seq<char>, bool),
    Int(Seq<char>, i32),
    UInt(Seq<char>, u32),
}

impl View for ShaderDefVal {
    type V = ShaderDefValView;

    open spec fn view(&self) -> ShaderDefValView {
        match *self {
            ShaderDefVal::Bool(name, v) => ShaderDefValView::Bool(name@, v),
            ShaderDefVal::Int(name, v) => ShaderDefValView::Int(name@, v),
            ShaderDefVal::UInt(name, v) => ShaderDefValView::UInt(name@, v),
        }
    }
}

/// The values of a list of definitions, in order.
pub open spec fn defs_view(defs: Seq<ShaderDefVal>) -> Seq<ShaderDefValView> {
    Seq::new(defs.len(), |i: int| defs[i]@)
}

/// The vertex stage of a pipeline.
#[derive(Clone, Debug, PartialEq, Eq, Hash)]
pub struct VertexStage {
    pub shader: ShaderId,
    pub shader_defs: Vec<ShaderDefVal>,
    pub entry_point: String,
}

/// Mathematical value of a [`VertexStage`].
pub struct VertexStageView {
    pub shader: ShaderId,
    pub shader_defs: Seq<ShaderDefValView>,
    pub entry_point: Seq<char>,
}

impl View for VertexStage {
    type V = VertexStageView;

    open spec fn view(&self) -> VertexStageView {
        VertexStageView {
            shader: self.shader,
            shader_defs: defs_view(self.shader_defs@),
            entry_point: self.entry_point@,
        }
    }
}

/// The fragment stage of a pipeline.
#[derive(Clone, Debug, PartialEq, Eq, Hash)]
pub struct FragmentStage {
    pub shader: ShaderId,
    pub shader_defs: Vec<ShaderDefVal>,
    pub entry_point: String,
    pub targets: Vec<Option<ColorTarget>>,
}

/// Mathematical value of a [`FragmentStage`].
pub struct FragmentStageView {
    pub shader: ShaderId,
    pub shader_defs: Seq<ShaderDefValView>,
    pub entry_point: Seq<char>,
    pub targets: Seq<Option<ColorTarget>>,
}

impl View for FragmentStage {
    type V = FragmentStageView;

    open spec fn view(&self) -> FragmentStageView {
        FragmentStageView {
            shader: self.shader,
            shader_defs: defs_view(self.shader_defs@),
            entry_point: self.entry_point@,
            targets: self.targets@,
        }
    }
}

/// Description of a GPU pipeline: what the base mesh pipeline chose for a
/// mesh, or what mask generation made of it.
#[derive(Clone, Debug, PartialEq, Eq, Hash)]
pub struct PipelineConfig {
    pub label: Option<String>,
    pub layout: Vec<BindGroupLayoutId>,
    pub vertex: VertexStage,
    pub depth_stencil: Option<DepthStencil>,
    pub multisample: Multisample,
    pub fragment: Option<FragmentStage>,
}

/// Mathematical value of a [`PipelineConfig`].
pub struct PipelineConfigView {
    pub label: Option<Seq<char>>,
    pub layout: Seq<BindGroupLayoutId>,
    pub vertex: VertexStageView,
    pub depth_stencil: Option<DepthStencil>,
    pub multisample: Multisample,
    pub fragment: Option<FragmentStageView>,
}

impl View for PipelineConfig {
    type V = PipelineConfigView;

    open spec fn view(&self) -> PipelineConfigView {
        PipelineConfigView {
            label: match self.label {
                Some(s) => Some(s@),
                None => None,
            },
            layout: self.layout@,
            vertex: self.vertex@,
            depth_stencil: self.depth_stencil,
            multisample: self.multisample,
            fragment: match self.fragment {
                Some(f) => Some(f@),
                None => None,
            },
        }
    }
}

} // verus!
