//! Gate evaluation: which capabilities a context has, and by which query path
//! each one is read.
//!
//! Each feature is an ordered list of gates; the first that holds decides the
//! path. Version thresholds only ever compare versions of the same API kind.
use vstd::prelude::*;
use crate::extensions::ExtensionsList;
use crate::version::{Api, Version, at_least_spec, version_le};

verus! {

/// A capability whose presence depends on the version and the extensions.
#[derive(Copy, Clone, Debug, PartialEq, Eq, Structural)]
pub enum Feature {
    /// Robust buffer access. Primary: the context flags; alternate: the
    /// robust-access boolean of the robustness extensions.
    Robustness,
    /// The reset-notification strategy, which tells whether the context can be lost.
    ResetNotification,
    /// The behaviour of the context when it is released.
    ReleaseBehavior,
    /// Left and right buffers.
    Stereo,
    /// sRGB default framebuffer. Primary: the colour encoding of the back buffer;
    /// alternate: the sRGB-capable boolean of the extension.
    Srgb,
    /// Depth and stencil sizes. Primary: a probe of the default framebuffer's
    /// attachments; alternate: the legacy integer queries.
    BufferBits,
    /// The maximum anisotropy of texture filtering.
    TextureMaxAnisotropy,
    /// The maximum size of a buffer texture.
    TextureBufferSize,
    /// More than one draw buffer.
    DrawBuffers,
    /// Tessellation patches.
    PatchVertices,
    /// Indexed bind points for atomic counter buffers.
    AtomicCounterBuffers,
    /// Indexed bind points for shader storage buffers.
    ShaderStorageBuffers,
    /// Indexed bind points for transform feedback buffers. Primary: the buffer
    /// count; alternate: the count of separate attributes of the extension.
    TransformFeedbackBuffers,
    /// Indexed bind points for uniform buffers.
    UniformBuffers,
    /// The work group count of compute shaders.
    ComputeWorkGroupCount,
}

/// The outcome of the gates of a feature.
#[derive(Copy, Clone, Debug, PartialEq, Eq, Structural)]
pub enum GatePath {
    /// No gate holds: the feature takes its fixed fallback value.
    Unsupported,
    /// The feature is read by its first query path.
    Primary,
    /// The feature is read by its second query path.
    Alternate,
}

/// Table of gates of every feature.
pub open spec fn gate_spec(f: Feature, v: Version, e: ExtensionsList) -> GatePath {
    match f {
        Feature::Robustness => if at_least_spec(v, Api::Gl, 4, 5) || at_least_spec(v, Api::GlEs, 3, 2)
            || (at_least_spec(v, Api::Gl, 3, 0) && e.gl_arb_robustness) {
            GatePath::Primary
        } else if e.gl_khr_robustness || e.gl_ext_robustness {
            GatePath::Alternate
        } else {
            GatePath::Unsupported
        },
        Feature::ResetNotification => if at_least_spec(v, Api::Gl, 4, 5) || e.gl_khr_robustness
            || e.gl_arb_robustness || e.gl_ext_robustness {
            GatePath::Primary
        } else {
            GatePath::Unsupported
        },
        Feature::ReleaseBehavior => if e.gl_khr_context_flush_control {
            GatePath::Primary
        } else {
            GatePath::Unsupported
        },
        Feature::Stereo => if at_least_spec(v, Api::Gl, 1, 0) {
            GatePath::Primary
        } else {
            GatePath::Unsupported
        },
        Feature::Srgb => if at_least_spec(v, Api::Gl, 3, 0) && !e.gl_ext_framebuffer_srgb {
            GatePath::Primary
        } else if e.gl_ext_framebuffer_srgb {
            GatePath::Alternate
        } else {
            GatePath::Unsupported
        },
        Feature::BufferBits => if at_least_spec(v, Api::Gl, 3, 0) && !e.gl_arb_compatibility {
            GatePath::Primary
        } else {
            GatePath::Alternate
        },
        Feature::TextureMaxAnisotropy => if e.gl_ext_texture_filter_anisotropic {
            GatePath::Primary
        } else {
            GatePath::Unsupported
        },
        Feature::TextureBufferSize => if at_least_spec(v, Api::Gl, 3, 0) || e.gl_arb_texture_buffer_object
            || e.gl_ext_texture_buffer_object || e.gl_oes_texture_buffer || e.gl_ext_texture_buffer {
            GatePath::Primary
        } else {
            GatePath::Unsupported
        },
        Feature::DrawBuffers => if at_least_spec(v, Api::Gl, 2, 0) || at_least_spec(v, Api::GlEs, 3, 0)
            || e.gl_ati_draw_buffers || e.gl_arb_draw_buffers {
            GatePath::Primary
        } else {
            GatePath::Unsupported
        },
        Feature::PatchVertices => if at_least_spec(v, Api::Gl, 4, 0) || e.gl_arb_tessellation_shader {
            GatePath::Primary
        } else {
            GatePath::Unsupported
        },
        Feature::AtomicCounterBuffers => if at_least_spec(v, Api::Gl, 4, 2) {
            GatePath::Primary
        } else {
            GatePath::Unsupported
        },
        Feature::ShaderStorageBuffers => if at_least_spec(v, Api::Gl, 4, 3)
            || e.gl_arb_shader_storage_buffer_object {
            GatePath::Primary
        } else {
            GatePath::Unsupported
        },
        Feature::TransformFeedbackBuffers => if at_least_spec(v, Api::Gl, 4, 0) || e.gl_arb_transform_feedback3 {
            GatePath::Primary
        } else if at_least_spec(v, Api::Gl, 3, 0) || e.gl_ext_transform_feedback {
            GatePath::Alternate
        } else {
            GatePath::Unsupported
        },
        Feature::UniformBuffers => if at_least_spec(v, Api::Gl, 3, 1) || e.gl_arb_uniform_buffer_object {
            GatePath::Primary
        } else {
            GatePath::Unsupported
        },
        Feature::ComputeWorkGroupCount => if at_least_spec(v, Api::Gl, 4, 3) || at_least_spec(v, Api::GlEs, 3, 1)
            || e.gl_arb_compute_shader {
            GatePath::Primary
        } else {
            GatePath::Unsupported
        },
    }
}

/// Gates of `f` hold a version threshold of kind `api`.
pub open spec fn has_threshold(f: Feature, api: Api) -> bool {
    match f {
        Feature::ReleaseBehavior | Feature::TextureMaxAnisotropy => false,
        Feature::Robustness | Feature::DrawBuffers | Feature::ComputeWorkGroupCount => true,
        _ => api == Api::Gl,
    }
}

/// Evaluates the gates of `feature` for a context of version `version` with the
/// extensions `extensions`, in their fixed order: the first gate that holds decides.
pub fn is_available(feature: Feature, version: &Version, extensions: &ExtensionsList) -> (r: GatePath)
    ensures
        r == gate_spec(feature, *version, *extensions),
{
    let v = version;
    let e = extensions;
    match feature {
        Feature::Robustness => if v.at_least(Api::Gl, 4, 5) || v.at_least(Api::GlEs, 3, 2)
            || (v.at_least(Api::Gl, 3, 0) && e.gl_arb_robustness) {
            GatePath::Primary
        } else if e.gl_khr_robustness || e.gl_ext_robustness {
            GatePath::Alternate
        } else {
            GatePath::Unsupported
        },
        Feature::ResetNotification => if v.at_least(Api::Gl, 4, 5) || e.gl_khr_robustness
            || e.gl_arb_robustness || e.gl_ext_robustness {
            GatePath::Primary
        } else {
            GatePath::Unsupported
        },
        Feature::ReleaseBehavior => if e.gl_khr_context_flush_control {
            GatePath::Primary
        } else {
            GatePath::Unsupported
        },
        Feature::Stereo => if v.at_least(Api::Gl, 1, 0) {
            GatePath::Primary
        } else {
            GatePath::Unsupported
        },
        Feature::Srgb => if v.at_least(Api::Gl, 3, 0) && !e.gl_ext_framebuffer_srgb {
            GatePath::Primary
        } else if e.gl_ext_framebuffer_srgb {
            GatePath::Alternate
        } else {
            GatePath::Unsupported
        },
        Feature::BufferBits => if v.at_least(Api::Gl, 3, 0) && !e.gl_arb_compatibility {
            GatePath::Primary
        } else {
            GatePath::Alternate
        },
        Feature::TextureMaxAnisotropy => if e.gl_ext_texture_filter_anisotropic {
            GatePath::Primary
        } else {
            GatePath::Unsupported
        },
        Feature::TextureBufferSize => if v.at_least(Api::Gl, 3, 0) || e.gl_arb_texture_buffer_object
            || e.gl_ext_texture_buffer_object || e.gl_oes_texture_buffer || e.gl_ext_texture_buffer {
            GatePath::Primary
        } else {
            GatePath::Unsupported
        },
        Feature::DrawBuffers => if v.at_least(Api::Gl, 2, 0) || v.at_least(Api::GlEs, 3, 0)
            || e.gl_ati_draw_buffers || e.gl_arb_draw_buffers {
            GatePath::Primary
        } else {
            GatePath::Unsupported
        },
        Feature::PatchVertices => if v.at_least(Api::Gl, 4, 0) || e.gl_arb_tessellation_shader {
            GatePath::Primary
        } else {
            GatePath::Unsupported
        },
        Feature::AtomicCounterBuffers => if v.at_least(Api::Gl, 4, 2) {
            GatePath::Primary
        } else {
            GatePath::Unsupported
        },
        Feature::ShaderStorageBuffers => if v.at_least(Api::Gl, 4, 3)
            || e.gl_arb_shader_storage_buffer_object {
            GatePath::Primary
        } else {
            GatePath::Unsupported
        },
        Feature::TransformFeedbackBuffers => if v.at_least(Api::Gl, 4, 0) || e.gl_arb_transform_feedback3 {
            GatePath::Primary
        } else if v.at_least(Api::Gl, 3, 0) || e.gl_ext_transform_feedback {
            GatePath::Alternate
        } else {
            GatePath::Unsupported
        },
        Feature::UniformBuffers => if v.at_least(Api::Gl, 3, 1) || e.gl_arb_uniform_buffer_object {
            GatePath::Primary
        } else {
            GatePath::Unsupported
        },
        Feature::ComputeWorkGroupCount => if v.at_least(Api::Gl, 4, 3) || v.at_least(Api::GlEs, 3, 1)
            || e.gl_arb_compute_shader {
            GatePath::Primary
        } else {
            GatePath::Unsupported
        },
    }
}

/// A feature available under a version stays available under every later
/// version of the same API kind, with the same extensions.
pub proof fn lemma_gate_monotone(f: Feature, v1: Version, v2: Version, e: ExtensionsList)
    requires
        version_le(v1, v2),
        gate_spec(f, v1, e) != GatePath::Unsupported,
    ensures
        gate_spec(f, v2, e) != GatePath::Unsupported,
{
}

/// The gates of a feature that has no version threshold of a given API kind give
/// the same answer for every version of that kind: thresholds of the other kind
/// are never compared against it.
pub proof fn lemma_gate_kind_independent(f: Feature, v1: Version, v2: Version, e: ExtensionsList)
    requires
        v1.0 == v2.0,
        !has_threshold(f, v1.0),
    ensures
        gate_spec(f, v1, e) == gate_spec(f, v2, e),
{
}

} // verus!
