//! The extensions a context exposes, as a snapshot of presence flags.
use vstd::prelude::*;

verus! {

/// Presence of each extension that capability resolution looks at.
///
/// The list is filled once by whoever reads the context's extension strings and
/// is not changed while capabilities are resolved.
#[derive(Copy, Clone, Debug, Default, PartialEq, Eq, Structural)]
pub struct ExtensionsList {
    pub gl_arb_compatibility: bool,
    pub gl_arb_compute_shader: bool,
    pub gl_arb_draw_buffers: bool,
    pub gl_arb_es2_compatibility: bool,
    pub gl_arb_es3_compatibility: bool,
    pub gl_arb_es3_1_compatibility: bool,
    pub gl_arb_es3_2_compatibility: bool,
    pub gl_arb_robustness: bool,
    pub gl_arb_shader_storage_buffer_object: bool,
    pub gl_arb_tessellation_shader: bool,
    pub gl_arb_texture_buffer_object: bool,
    pub gl_arb_transform_feedback3: bool,
    pub gl_arb_uniform_buffer_object: bool,
    pub gl_ati_draw_buffers: bool,
    pub gl_ext_framebuffer_srgb: bool,
    pub gl_ext_robustness: bool,
    pub gl_ext_texture_buffer: bool,
    pub gl_ext_texture_buffer_object: bool,
    pub gl_ext_texture_filter_anisotropic: bool,
    pub gl_ext_transform_feedback: bool,
    pub gl_khr_context_flush_control: bool,
    pub gl_khr_robustness: bool,
    pub gl_oes_texture_buffer: bool,
}

} // verus!
