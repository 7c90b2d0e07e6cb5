use gl_capabilities::decode::{clamp_texture_units, robust_access_from_flags, srgb_from_encoding};
use gl_capabilities::{is_available, supported_glsl, Api, ExtensionsList, Feature, GatePath, Version};

const FEATURES: [Feature; 15] = [
    Feature::Robustness,
    Feature::ResetNotification,
    Feature::ReleaseBehavior,
    Feature::Stereo,
    Feature::Srgb,
    Feature::BufferBits,
    Feature::TextureMaxAnisotropy,
    Feature::TextureBufferSize,
    Feature::DrawBuffers,
    Feature::PatchVertices,
    Feature::AtomicCounterBuffers,
    Feature::ShaderStorageBuffers,
    Feature::TransformFeedbackBuffers,
    Feature::UniformBuffers,
    Feature::ComputeWorkGroupCount,
];

#[test]
fn availability_grows_with_version() {
    let e = ExtensionsList::default();
    let versions = [(1, 0), (2, 0), (2, 1), (3, 0), (3, 1), (3, 3), (4, 0), (4, 2), (4, 3), (4, 5), (4, 6)];
    for api in [Api::Gl, Api::GlEs] {
        for f in FEATURES {
            for w in versions.windows(2) {
                let older = Version(api, w[0].0, w[0].1);
                let newer = Version(api, w[1].0, w[1].1);
                if is_available(f, &older, &e) != GatePath::Unsupported {
                    assert!(is_available(f, &newer, &e) != GatePath::Unsupported);
                }
            }
        }
    }
}

#[test]
fn thresholds_do_not_cross_kinds() {
    let e = ExtensionsList::default();
    assert!(!Version(Api::GlEs, 9, 9).at_least(Api::Gl, 1, 0));
    assert!(!Version(Api::Gl, 9, 9).at_least(Api::GlEs, 2, 0));
    assert_eq!(is_available(Feature::AtomicCounterBuffers, &Version(Api::GlEs, 3, 2), &e), GatePath::Unsupported);
    assert_eq!(is_available(Feature::AtomicCounterBuffers, &Version(Api::Gl, 4, 2), &e), GatePath::Primary);
    assert_eq!(is_available(Feature::Stereo, &Version(Api::GlEs, 3, 2), &e), GatePath::Unsupported);
    assert_eq!(is_available(Feature::DrawBuffers, &Version(Api::GlEs, 3, 0), &e), GatePath::Primary);
    assert_eq!(is_available(Feature::DrawBuffers, &Version(Api::GlEs, 2, 0), &e), GatePath::Unsupported);
    assert_eq!(is_available(Feature::Robustness, &Version(Api::Gl, 3, 2), &e), GatePath::Unsupported);
    assert_eq!(is_available(Feature::Robustness, &Version(Api::GlEs, 3, 2), &e), GatePath::Primary);
}

#[test]
fn gates_pick_paths_in_order() {
    let mut e = ExtensionsList::default();
    assert_eq!(is_available(Feature::Srgb, &Version(Api::Gl, 3, 0), &e), GatePath::Primary);
    assert_eq!(is_available(Feature::BufferBits, &Version(Api::Gl, 2, 1), &e), GatePath::Alternate);
    assert_eq!(is_available(Feature::TransformFeedbackBuffers, &Version(Api::Gl, 3, 3), &e), GatePath::Alternate);
    assert_eq!(is_available(Feature::TransformFeedbackBuffers, &Version(Api::Gl, 4, 0), &e), GatePath::Primary);
    e.gl_ext_framebuffer_srgb = true;
    e.gl_arb_compatibility = true;
    e.gl_arb_robustness = true;
    assert_eq!(is_available(Feature::Srgb, &Version(Api::Gl, 3, 0), &e), GatePath::Alternate);
    assert_eq!(is_available(Feature::BufferBits, &Version(Api::Gl, 3, 3), &e), GatePath::Alternate);
    assert_eq!(is_available(Feature::Robustness, &Version(Api::Gl, 3, 0), &e), GatePath::Primary);
    assert_eq!(is_available(Feature::Robustness, &Version(Api::Gl, 2, 1), &e), GatePath::Unsupported);
}

#[test]
fn glsl_lists() {
    let e = ExtensionsList::default();
    assert!(supported_glsl(&Version(Api::GlEs, 3, 2), &e, false).is_empty());
    assert_eq!(
        supported_glsl(&Version(Api::GlEs, 2, 0), &e, false),
        Vec::<Version>::new()
    );
    assert_eq!(supported_glsl(&Version(Api::GlEs, 2, 0), &e, true), vec![Version(Api::GlEs, 1, 0)]);
    assert_eq!(
        supported_glsl(&Version(Api::Gl, 4, 5), &e, false),
        vec![
            Version(Api::GlEs, 1, 0),
            Version(Api::GlEs, 3, 0),
            Version(Api::GlEs, 3, 1),
            Version(Api::Gl, 1, 4),
            Version(Api::Gl, 1, 5),
            Version(Api::Gl, 3, 3),
            Version(Api::Gl, 4, 0),
            Version(Api::Gl, 4, 1),
            Version(Api::Gl, 4, 2),
            Version(Api::Gl, 4, 3),
            Version(Api::Gl, 4, 4),
            Version(Api::Gl, 4, 5),
        ]
    );
    let mut compat = ExtensionsList::default();
    compat.gl_arb_compatibility = true;
    compat.gl_arb_es3_2_compatibility = true;
    assert_eq!(
        supported_glsl(&Version(Api::Gl, 3, 2), &compat, true),
        vec![
            Version(Api::GlEs, 3, 2),
            Version(Api::Gl, 1, 1),
            Version(Api::Gl, 1, 2),
            Version(Api::Gl, 1, 3),
            Version(Api::Gl, 1, 4),
            Version(Api::Gl, 1, 5),
        ]
    );
}

#[test]
fn texture_unit_errata() {
    assert_eq!(clamp_texture_units(64, "AMD Radeon R9 200"), 32);
    assert_eq!(clamp_texture_units(48, "Radeon"), 32);
    assert_eq!(clamp_texture_units(16, "AMD Radeon R9 200"), 16);
    assert_eq!(clamp_texture_units(64, "GeForce GTX 1080"), 64);
    assert_eq!(clamp_texture_units(64, "radeon"), 64);
    assert_eq!(clamp_texture_units(64, ""), 64);
}

#[test]
fn flag_and_encoding_decoding() {
    assert!(robust_access_from_flags(4));
    assert!(robust_access_from_flags(-1));
    assert!(!robust_access_from_flags(3));
    assert!(srgb_from_encoding(0x8C40));
    assert!(!srgb_from_encoding(0x2601));
}
