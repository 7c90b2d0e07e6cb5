use gl_capabilities::decode::{attachment_present, bits_from_raw, decode_release_behavior, decode_reset_notification};
use gl_capabilities::query::{
    Query, DEPTH_BITS, STENCIL_BITS,
    CONTEXT_FLAGS, CONTEXT_RELEASE_BEHAVIOR, CONTEXT_RELEASE_BEHAVIOR_FLUSH, CONTEXT_ROBUST_ACCESS, DEPTH,
    FRAMEBUFFER_ATTACHMENT_DEPTH_SIZE, FRAMEBUFFER_ATTACHMENT_OBJECT_TYPE, FRAMEBUFFER_ATTACHMENT_STENCIL_SIZE,
    LOSE_CONTEXT_ON_RESET, MAX_ATOMIC_COUNTER_BUFFER_BINDINGS, MAX_COMBINED_TEXTURE_IMAGE_UNITS,
    MAX_COMPUTE_WORK_GROUP_COUNT, MAX_DRAW_BUFFERS, MAX_TRANSFORM_FEEDBACK_BUFFERS, MAX_VIEWPORT_DIMS,
    RESET_NOTIFICATION_STRATEGY, SHADER_COMPILER, STENCIL, STEREO,
};
use gl_capabilities::{
    get_capabilities, get_supported_glsl, Api, CapabilityError, ExtensionsList, ReleaseBehavior, StateQuery, Version,
};

/// A context whose answers are fixed by the test; every query is logged.
struct FakeContext {
    renderer: String,
    integers: Vec<(u32, i32)>,
    booleans: Vec<(u32, u8)>,
    attachments: Vec<(u32, u32, i32)>,
    log: Vec<Query>,
}

impl FakeContext {
    fn new(renderer: &str) -> FakeContext {
        FakeContext {
            renderer: renderer.to_string(),
            integers: Vec::new(),
            booleans: Vec::new(),
            attachments: Vec::new(),
            log: Vec::new(),
        }
    }

    fn integer(mut self, pname: u32, value: i32) -> FakeContext {
        self.integers.push((pname, value));
        self
    }

    fn boolean(mut self, pname: u32, value: u8) -> FakeContext {
        self.booleans.push((pname, value));
        self
    }

    fn attachment(mut self, attachment: u32, pname: u32, value: i32) -> FakeContext {
        self.attachments.push((attachment, pname, value));
        self
    }

    fn asked(&self, pname: u32) -> usize {
        self.log
            .iter()
            .filter(|q| match **q {
                Query::Integer(p) | Query::IntegerPair(p) | Query::Boolean(p) | Query::FloatBits(p) => p == pname,
                Query::IndexedInteger(p, _) => p == pname,
                Query::FramebufferAttachment(_, _, p) => p == pname,
                Query::Text(n) => n == pname,
            })
            .count()
    }

    fn asked_attachment(&self, attachment: u32) -> usize {
        self.log
            .iter()
            .filter(|q| matches!(**q, Query::FramebufferAttachment(_, a, _) if a == attachment))
            .count()
    }
}

impl StateQuery for FakeContext {
    fn integer_of(&self, pname: u32) -> i32 {
        self.integers.iter().find(|e| e.0 == pname).map(|e| e.1).unwrap_or(7)
    }

    fn integer_pair_of(&self, _pname: u32) -> (i32, i32) {
        (16384, 8192)
    }

    fn indexed_integer_of(&self, _pname: u32, index: u32) -> i32 {
        65535 - index as i32
    }

    fn boolean_of(&self, pname: u32) -> u8 {
        self.booleans.iter().find(|e| e.0 == pname).map(|e| e.1).unwrap_or(0)
    }

    fn float_bits_of(&self, _pname: u32) -> u32 {
        16.0f32.to_bits()
    }

    fn attachment_parameter_of(&self, _target: u32, attachment: u32, pname: u32) -> i32 {
        self.attachments
            .iter()
            .find(|e| e.0 == attachment && e.1 == pname)
            .map(|e| e.2)
            .unwrap_or(0)
    }

    fn string_of(&self, _name: u32) -> String {
        self.renderer.clone()
    }

    fn issued(&self) -> Vec<Query> {
        self.log.clone()
    }

    fn get_integer(&mut self, pname: u32) -> i32 {
        self.log.push(Query::Integer(pname));
        self.integer_of(pname)
    }

    fn get_integer_pair(&mut self, pname: u32) -> (i32, i32) {
        self.log.push(Query::IntegerPair(pname));
        self.integer_pair_of(pname)
    }

    fn get_indexed_integer(&mut self, pname: u32, index: u32) -> i32 {
        self.log.push(Query::IndexedInteger(pname, index));
        self.indexed_integer_of(pname, index)
    }

    fn get_boolean(&mut self, pname: u32) -> u8 {
        self.log.push(Query::Boolean(pname));
        self.boolean_of(pname)
    }

    fn get_float_bits(&mut self, pname: u32) -> u32 {
        self.log.push(Query::FloatBits(pname));
        self.float_bits_of(pname)
    }

    fn get_framebuffer_attachment_parameter(&mut self, target: u32, attachment: u32, pname: u32) -> i32 {
        self.log.push(Query::FramebufferAttachment(target, attachment, pname));
        self.attachment_parameter_of(target, attachment, pname)
    }

    fn get_string(&mut self, name: u32) -> String {
        self.log.push(Query::Text(name));
        self.string_of(name)
    }
}

fn all_extensions() -> ExtensionsList {
    ExtensionsList {
        gl_arb_compatibility: true,
        gl_arb_compute_shader: true,
        gl_arb_draw_buffers: true,
        gl_arb_es2_compatibility: true,
        gl_arb_es3_compatibility: true,
        gl_arb_es3_1_compatibility: true,
        gl_arb_es3_2_compatibility: true,
        gl_arb_robustness: true,
        gl_arb_shader_storage_buffer_object: true,
        gl_arb_tessellation_shader: true,
        gl_arb_texture_buffer_object: true,
        gl_arb_transform_feedback3: true,
        gl_arb_uniform_buffer_object: true,
        gl_ati_draw_buffers: true,
        gl_ext_framebuffer_srgb: true,
        gl_ext_robustness: true,
        gl_ext_texture_buffer: true,
        gl_ext_texture_buffer_object: true,
        gl_ext_texture_filter_anisotropic: true,
        gl_ext_transform_feedback: true,
        gl_khr_context_flush_control: true,
        gl_khr_robustness: true,
        gl_oes_texture_buffer: true,
    }
}

#[test]
fn scenario_desktop_4_6_all_extensions() {
    let mut gl = FakeContext::new("Generic GPU")
        .integer(CONTEXT_FLAGS, 4)
        .boolean(CONTEXT_ROBUST_ACCESS, 0)
        .integer(RESET_NOTIFICATION_STRATEGY, LOSE_CONTEXT_ON_RESET as i32)
        .integer(CONTEXT_RELEASE_BEHAVIOR, 0)
        .integer(MAX_COMBINED_TEXTURE_IMAGE_UNITS, 48);
    let caps = get_capabilities(&mut gl, &Version(Api::Gl, 4, 6), &all_extensions()).unwrap();
    assert!(caps.robustness);
    assert_eq!(gl.asked(CONTEXT_FLAGS), 1);
    assert_eq!(gl.asked(CONTEXT_ROBUST_ACCESS), 0);
    assert_eq!(caps.max_combined_texture_image_units, 48);
    assert!(caps.can_lose_context);
    assert_eq!(caps.release_behavior, ReleaseBehavior::NoFlush);
    assert_eq!(caps.max_texture_max_anisotropy, Some(16.0f32.to_bits()));
    assert_eq!(caps.max_viewport_dims, (16384, 8192));
    assert_eq!(caps.max_compute_work_group_count, (65535, 65534, 65533));
    assert_eq!(caps.supported_glsl_versions.len(), 16);
}

#[test]
fn scenario_embedded_3_1_without_compiler() {
    let mut gl = FakeContext::new("Mobile GPU").boolean(SHADER_COMPILER, 0);
    let caps = get_capabilities(&mut gl, &Version(Api::GlEs, 3, 1), &ExtensionsList::default()).unwrap();
    assert!(caps.supported_glsl_versions.is_empty());
    assert_eq!(caps.max_indexed_atomic_counter_buffer, 0);
    assert_eq!(gl.asked(MAX_ATOMIC_COUNTER_BUFFER_BINDINGS), 0);
    assert_eq!(caps.max_indexed_shader_storage_buffer, 0);
    assert_eq!(caps.max_indexed_transform_feedback_buffer, 0);
    assert_eq!(caps.max_indexed_uniform_buffer, 0);
    assert_eq!(caps.max_patch_vertices, None);
    assert_eq!(caps.max_texture_buffer_size, None);
    assert_eq!(caps.max_texture_max_anisotropy, None);
    assert!(!caps.stereo);
    assert!(!caps.srgb);
    assert!(!caps.robustness);
    assert!(!caps.can_lose_context);
    assert_eq!(caps.release_behavior, ReleaseBehavior::Flush);
    // Embedded 3.0 and 3.1 thresholds hold.
    assert_eq!(caps.max_draw_buffers, 7);
    assert_eq!(caps.max_compute_work_group_count, (65535, 65534, 65533));
}

#[test]
fn scenario_desktop_2_1_radeon_clamp() {
    let mut gl = FakeContext::new("AMD Radeon HD 7700").integer(MAX_COMBINED_TEXTURE_IMAGE_UNITS, 48);
    let caps = get_capabilities(&mut gl, &Version(Api::Gl, 2, 1), &ExtensionsList::default()).unwrap();
    assert_eq!(caps.max_combined_texture_image_units, 32);
    assert_eq!(caps.supported_glsl_versions, vec![Version(Api::Gl, 1, 1), Version(Api::Gl, 1, 2)]);
    assert_eq!(caps.max_draw_buffers, 7);
    assert_eq!(caps.max_compute_work_group_count, (0, 0, 0));
    assert_eq!(caps.max_indexed_transform_feedback_buffer, 0);
    assert_eq!(caps.max_patch_vertices, None);
    assert_eq!(caps.depth_bits, Some(7));
    assert_eq!(gl.asked(MAX_TRANSFORM_FEEDBACK_BUFFERS), 0);
}

#[test]
fn radeon_below_ceiling_is_kept() {
    let mut gl = FakeContext::new("AMD Radeon HD 7700").integer(MAX_COMBINED_TEXTURE_IMAGE_UNITS, 16);
    let caps = get_capabilities(&mut gl, &Version(Api::Gl, 2, 1), &ExtensionsList::default()).unwrap();
    assert_eq!(caps.max_combined_texture_image_units, 16);
}

#[test]
fn absent_depth_attachment_skips_size_query() {
    let mut gl = FakeContext::new("Generic GPU")
        .attachment(DEPTH, FRAMEBUFFER_ATTACHMENT_OBJECT_TYPE, 0)
        .attachment(DEPTH, FRAMEBUFFER_ATTACHMENT_DEPTH_SIZE, 24)
        .attachment(STENCIL, FRAMEBUFFER_ATTACHMENT_OBJECT_TYPE, 0x8218)
        .attachment(STENCIL, FRAMEBUFFER_ATTACHMENT_STENCIL_SIZE, 8);
    let caps = get_capabilities(&mut gl, &Version(Api::Gl, 3, 3), &ExtensionsList::default()).unwrap();
    assert_eq!(caps.depth_bits, None);
    assert_eq!(gl.asked_attachment(DEPTH), 1);
    assert_eq!(gl.asked(FRAMEBUFFER_ATTACHMENT_DEPTH_SIZE), 0);
    assert_eq!(gl.asked(DEPTH_BITS), 0);
    assert_eq!(gl.asked(STENCIL_BITS), 0);
    assert_eq!(caps.stencil_bits, Some(8));
    assert_eq!(gl.asked_attachment(STENCIL), 2);
}

#[test]
fn vendor_reset_value_reads_as_no_notification() {
    assert_eq!(decode_reset_notification(0x31BE), Ok(false));
    let mut gl = FakeContext::new("AMD Radeon").integer(RESET_NOTIFICATION_STRATEGY, 0x31BE);
    let caps = get_capabilities(&mut gl, &Version(Api::Gl, 4, 5), &ExtensionsList::default()).unwrap();
    assert!(!caps.can_lose_context);
}

#[test]
fn reset_values_decode() {
    assert_eq!(decode_reset_notification(0x8252), Ok(true));
    assert_eq!(decode_reset_notification(0x8261), Ok(false));
    assert_eq!(
        decode_reset_notification(5),
        Err(CapabilityError::UnknownResetNotificationStrategy(5))
    );
}

#[test]
fn release_values_decode() {
    assert_eq!(decode_release_behavior(0), Ok(ReleaseBehavior::NoFlush));
    assert_eq!(decode_release_behavior(CONTEXT_RELEASE_BEHAVIOR_FLUSH as i32), Ok(ReleaseBehavior::Flush));
    assert_eq!(decode_release_behavior(1), Err(CapabilityError::UnknownReleaseBehavior(1)));
}

#[test]
fn unknown_reset_value_fails_resolution() {
    let mut gl = FakeContext::new("Generic GPU").integer(RESET_NOTIFICATION_STRATEGY, 5);
    let r = get_capabilities(&mut gl, &Version(Api::Gl, 4, 5), &ExtensionsList::default());
    assert_eq!(r.unwrap_err(), CapabilityError::UnknownResetNotificationStrategy(5));
}

#[test]
fn unknown_release_value_fails_resolution() {
    let mut e = ExtensionsList::default();
    e.gl_khr_context_flush_control = true;
    let mut gl = FakeContext::new("Generic GPU").integer(CONTEXT_RELEASE_BEHAVIOR, 9);
    let r = get_capabilities(&mut gl, &Version(Api::Gl, 3, 3), &e);
    assert_eq!(r.unwrap_err(), CapabilityError::UnknownReleaseBehavior(9));
}

#[test]
fn robustness_by_extension_boolean() {
    let mut e = ExtensionsList::default();
    e.gl_khr_robustness = true;
    let mut gl = FakeContext::new("Generic GPU")
        .boolean(CONTEXT_ROBUST_ACCESS, 1)
        .integer(RESET_NOTIFICATION_STRATEGY, 0x8261);
    let caps = get_capabilities(&mut gl, &Version(Api::Gl, 2, 0), &e).unwrap();
    assert!(caps.robustness);
    assert_eq!(gl.asked(CONTEXT_FLAGS), 0);
}

#[test]
fn embedded_compiler_present_lists_versions() {
    let mut gl = FakeContext::new("Mobile GPU").boolean(SHADER_COMPILER, 1);
    let r = get_supported_glsl(&mut gl, &Version(Api::GlEs, 3, 1), &ExtensionsList::default());
    assert_eq!(r, vec![Version(Api::GlEs, 1, 0), Version(Api::GlEs, 3, 0), Version(Api::GlEs, 3, 1)]);
}

#[test]
fn desktop_never_probes_compiler() {
    let mut gl = FakeContext::new("Generic GPU").boolean(SHADER_COMPILER, 0);
    let r = get_supported_glsl(&mut gl, &Version(Api::Gl, 3, 0), &ExtensionsList::default());
    assert_eq!(gl.asked(SHADER_COMPILER), 0);
    assert_eq!(r, vec![Version(Api::Gl, 1, 1), Version(Api::Gl, 1, 2), Version(Api::Gl, 1, 3)]);
}

#[test]
fn viewport_and_draw_buffers_defaults() {
    let mut gl = FakeContext::new("Generic GPU").integer(MAX_DRAW_BUFFERS, 8);
    let caps = get_capabilities(&mut gl, &Version(Api::Gl, 1, 5), &ExtensionsList::default()).unwrap();
    assert_eq!(caps.max_draw_buffers, 1);
    assert_eq!(gl.asked(MAX_DRAW_BUFFERS), 0);
    assert_eq!(gl.asked(MAX_VIEWPORT_DIMS), 1);
    assert_eq!(gl.asked(MAX_COMPUTE_WORK_GROUP_COUNT), 0);
    assert!(!caps.stereo);
    assert_eq!(gl.asked(STEREO), 1);
}

#[test]
fn bits_and_attachments() {
    assert_eq!(bits_from_raw(0), None);
    assert_eq!(bits_from_raw(24), Some(24));
    assert_eq!(bits_from_raw(65544), Some(8));
    assert!(!attachment_present(0));
    assert!(attachment_present(0x8218));
}

#[test]
fn later_version_keeps_earlier_capabilities() {
    let mut gl = FakeContext::new("Generic GPU")
        .integer(MAX_ATOMIC_COUNTER_BUFFER_BINDINGS, 8)
        .integer(RESET_NOTIFICATION_STRATEGY, 0x8261);
    let e = ExtensionsList::default();
    let older = get_capabilities(&mut gl, &Version(Api::Gl, 4, 2), &e).unwrap();
    let newer = get_capabilities(&mut gl, &Version(Api::Gl, 4, 6), &e).unwrap();
    assert_eq!(older.max_indexed_atomic_counter_buffer, 8);
    assert_eq!(newer.max_indexed_atomic_counter_buffer, 8);
    assert_eq!(older.max_patch_vertices, Some(7));
    assert_eq!(newer.max_patch_vertices, older.max_patch_vertices);
    assert_eq!(newer.max_texture_buffer_size, older.max_texture_buffer_size);
    assert_eq!(newer.max_draw_buffers, older.max_draw_buffers);
    assert_eq!(older.max_indexed_shader_storage_buffer, 0);
    assert_eq!(newer.max_indexed_shader_storage_buffer, 7);
}
