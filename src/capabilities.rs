//! The capability resolver and the record it produces.
use vstd::prelude::*;
use crate::decode::{
    CapabilityError, ReleaseBehavior, attachment_present, bits_from_raw, clamp_texture_units,
    bits_spec, decode_release_behavior, decode_reset_notification, release_behavior_spec,
    reset_notification_spec, texture_units_spec, robust_access_from_flags,
    srgb_from_encoding,
};
use crate::extensions::ExtensionsList;
use crate::gate::{Feature, GatePath, gate_spec, is_available, lemma_gate_monotone};
use crate::glsl::{get_supported_glsl, glsl_queries, supported_glsl_spec};
use crate::query::{
    BACK_LEFT,
    CONTEXT_FLAGS,
    CONTEXT_FLAG_ROBUST_ACCESS_BIT,
    CONTEXT_RELEASE_BEHAVIOR,
    CONTEXT_ROBUST_ACCESS,
    DEPTH,
    DEPTH_BITS,
    FRAMEBUFFER,
    FRAMEBUFFER_ATTACHMENT_COLOR_ENCODING,
    FRAMEBUFFER_ATTACHMENT_DEPTH_SIZE,
    FRAMEBUFFER_ATTACHMENT_OBJECT_TYPE,
    FRAMEBUFFER_ATTACHMENT_STENCIL_SIZE,
    FRAMEBUFFER_SRGB_CAPABLE_EXT,
    MAX_ATOMIC_COUNTER_BUFFER_BINDINGS,
    MAX_COMBINED_TEXTURE_IMAGE_UNITS,
    MAX_COMPUTE_WORK_GROUP_COUNT,
    MAX_DRAW_BUFFERS,
    MAX_PATCH_VERTICES,
    MAX_SHADER_STORAGE_BUFFER_BINDINGS,
    MAX_TEXTURE_BUFFER_SIZE,
    MAX_TEXTURE_MAX_ANISOTROPY_EXT,
    MAX_TRANSFORM_FEEDBACK_BUFFERS,
    MAX_TRANSFORM_FEEDBACK_SEPARATE_ATTRIBS_EXT,
    MAX_UNIFORM_BUFFER_BINDINGS,
    MAX_VIEWPORT_DIMS,
    NONE,
    RENDERER,
    RESET_NOTIFICATION_STRATEGY,
    SHADER_COMPILER,
    Query,
    SRGB,
    STENCIL,
    STENCIL_BITS,
    STEREO,
    StateQuery,
    lemma_same_answers_trans,
    same_answers,
};
use crate::version::{Version, version_le};

verus! {

/// The capabilities of a context. Unlike its state, these values never change.
#[derive(Debug)]
pub struct Capabilities {
    /// Shading-language versions the compiler accepts. Empty when the context has
    /// no compiler.
    pub supported_glsl_versions: Vec<Version>,
    /// Out-of-bounds accesses on the GPU side cannot crash.
    pub robustness: bool,
    /// The context can be lost.
    pub can_lose_context: bool,
    /// What happens when another context is made current.
    pub release_behavior: ReleaseBehavior,
    /// The context has left and right buffers.
    pub stereo: bool,
    /// The default framebuffer is in sRGB.
    pub srgb: bool,
    /// Bits of the default framebuffer's depth buffer.
    pub depth_bits: Option<u16>,
    /// Bits of the default framebuffer's stencil buffer.
    pub stencil_bits: Option<u16>,
    /// Number of textures that can be bound to a program.
    pub max_combined_texture_image_units: i32,
    /// Maximum texture anisotropy, as the IEEE-754 bit pattern of the float the
    /// driver reported. `None` when the extension is missing.
    pub max_texture_max_anisotropy: Option<u32>,
    /// Maximum size of a buffer texture. `None` when buffer textures are missing.
    pub max_texture_buffer_size: Option<i32>,
    /// Maximum width and height of a viewport.
    pub max_viewport_dims: (i32, i32),
    /// Maximum number of draw buffers.
    pub max_draw_buffers: i32,
    /// Maximum number of vertices of a patch. `None` without tessellation.
    pub max_patch_vertices: Option<i32>,
    /// Bind points of atomic counter buffers.
    pub max_indexed_atomic_counter_buffer: i32,
    /// Bind points of shader storage buffers.
    pub max_indexed_shader_storage_buffer: i32,
    /// Bind points of transform feedback buffers.
    pub max_indexed_transform_feedback_buffer: i32,
    /// Bind points of uniform buffers.
    pub max_indexed_uniform_buffer: i32,
    /// Number of work groups of compute shaders, along each axis.
    pub max_compute_work_group_count: (i32, i32, i32),
}

/// The raw depth or stencil size read for `attachment`. On the probe path the
/// attachment's type is asked first, and its size only when an object is
/// attached (zero otherwise); on the other path the legacy integer is asked.
pub open spec fn buffer_bits_raw_spec<Q: StateQuery>(
    gl: &Q,
    path: GatePath,
    attachment: u32,
    size_pname: u32,
    legacy_pname: u32,
) -> i32 {
    if path == GatePath::Primary {
        if gl.attachment_parameter_of(FRAMEBUFFER, attachment, FRAMEBUFFER_ATTACHMENT_OBJECT_TYPE) != NONE as i32 {
            gl.attachment_parameter_of(FRAMEBUFFER, attachment, size_pname)
        } else {
            0
        }
    } else {
        gl.integer_of(legacy_pname)
    }
}

/// The answer about the reset-notification strategy that resolution decodes.
pub open spec fn reset_answer<Q: StateQuery>(gl: &Q) -> i32 {
    gl.integer_of(RESET_NOTIFICATION_STRATEGY)
}

/// The answer about the release behaviour that resolution decodes.
pub open spec fn release_answer<Q: StateQuery>(gl: &Q) -> i32 {
    gl.integer_of(CONTEXT_RELEASE_BEHAVIOR)
}

/// The error of a resolution, if any: the first gated enum answer, in field
/// order, that matches none of its defined values.
pub open spec fn resolution_error<Q: StateQuery>(gl: &Q, v: Version, e: ExtensionsList) -> Option<CapabilityError> {
    if gate_spec(Feature::ResetNotification, v, e) != GatePath::Unsupported
        && reset_notification_spec(reset_answer(gl)) is None {
        Some(CapabilityError::UnknownResetNotificationStrategy(reset_answer(gl)))
    } else if gate_spec(Feature::ReleaseBehavior, v, e) != GatePath::Unsupported
        && release_behavior_spec(release_answer(gl)) is None {
        Some(CapabilityError::UnknownReleaseBehavior(release_answer(gl)))
    } else {
        None
    }
}

/// The record of a context of version `v` with the extensions `e`, whose
/// answers are those of `gl` and whose renderer string is `renderer`: for each
/// field, the fallback when its gates fail, and otherwise the normalised answer
/// of the query of the path the gates chose.
pub open spec fn record_spec<Q: StateQuery>(
    c: Capabilities,
    gl: &Q,
    v: Version,
    e: ExtensionsList,
    renderer: Seq<char>,
) -> bool {
    &&& c.supported_glsl_versions@ == supported_glsl_spec(v, e, gl.boolean_of(SHADER_COMPILER) != 0)
    &&& c.robustness == match gate_spec(Feature::Robustness, v, e) {
        GatePath::Primary => gl.integer_of(CONTEXT_FLAGS) as u32 & CONTEXT_FLAG_ROBUST_ACCESS_BIT != 0,
        GatePath::Alternate => gl.boolean_of(CONTEXT_ROBUST_ACCESS) != 0,
        GatePath::Unsupported => false,
    }
    &&& c.can_lose_context == (gate_spec(Feature::ResetNotification, v, e) != GatePath::Unsupported
        && reset_notification_spec(reset_answer(gl)) == Some(true))
    &&& (gate_spec(Feature::ReleaseBehavior, v, e) == GatePath::Unsupported
        ==> c.release_behavior == ReleaseBehavior::Flush)
    &&& (gate_spec(Feature::ReleaseBehavior, v, e) != GatePath::Unsupported
        ==> release_behavior_spec(release_answer(gl)) == Some(c.release_behavior))
    &&& c.stereo == (gate_spec(Feature::Stereo, v, e) != GatePath::Unsupported && gl.boolean_of(STEREO) != 0)
    &&& c.srgb == match gate_spec(Feature::Srgb, v, e) {
        GatePath::Primary => gl.attachment_parameter_of(FRAMEBUFFER, BACK_LEFT, FRAMEBUFFER_ATTACHMENT_COLOR_ENCODING)
            == SRGB as i32,
        GatePath::Alternate => gl.boolean_of(FRAMEBUFFER_SRGB_CAPABLE_EXT) != 0,
        GatePath::Unsupported => false,
    }
    &&& c.depth_bits == bits_spec(buffer_bits_raw_spec(
        gl,
        gate_spec(Feature::BufferBits, v, e),
        DEPTH,
        FRAMEBUFFER_ATTACHMENT_DEPTH_SIZE,
        DEPTH_BITS,
    ))
    &&& c.stencil_bits == bits_spec(buffer_bits_raw_spec(
        gl,
        gate_spec(Feature::BufferBits, v, e),
        STENCIL,
        FRAMEBUFFER_ATTACHMENT_STENCIL_SIZE,
        STENCIL_BITS,
    ))
    &&& c.max_combined_texture_image_units == texture_units_spec(
        gl.integer_of(MAX_COMBINED_TEXTURE_IMAGE_UNITS),
        renderer,
    )
    &&& c.max_texture_max_anisotropy == if gate_spec(Feature::TextureMaxAnisotropy, v, e) == GatePath::Unsupported {
        None
    } else {
        Some(gl.float_bits_of(MAX_TEXTURE_MAX_ANISOTROPY_EXT))
    }
    &&& c.max_texture_buffer_size == if gate_spec(Feature::TextureBufferSize, v, e) == GatePath::Unsupported {
        None
    } else {
        Some(gl.integer_of(MAX_TEXTURE_BUFFER_SIZE))
    }
    &&& c.max_viewport_dims == gl.integer_pair_of(MAX_VIEWPORT_DIMS)
    &&& c.max_draw_buffers == if gate_spec(Feature::DrawBuffers, v, e) == GatePath::Unsupported {
        1
    } else {
        gl.integer_of(MAX_DRAW_BUFFERS)
    }
    &&& c.max_patch_vertices == if gate_spec(Feature::PatchVertices, v, e) == GatePath::Unsupported {
        None
    } else {
        Some(gl.integer_of(MAX_PATCH_VERTICES))
    }
    &&& c.max_indexed_atomic_counter_buffer == if gate_spec(Feature::AtomicCounterBuffers, v, e)
        == GatePath::Unsupported {
        0
    } else {
        gl.integer_of(MAX_ATOMIC_COUNTER_BUFFER_BINDINGS)
    }
    &&& c.max_indexed_shader_storage_buffer == if gate_spec(Feature::ShaderStorageBuffers, v, e)
        == GatePath::Unsupported {
        0
    } else {
        gl.integer_of(MAX_SHADER_STORAGE_BUFFER_BINDINGS)
    }
    &&& c.max_indexed_transform_feedback_buffer == match gate_spec(Feature::TransformFeedbackBuffers, v, e) {
        GatePath::Primary => gl.integer_of(MAX_TRANSFORM_FEEDBACK_BUFFERS),
        GatePath::Alternate => gl.integer_of(MAX_TRANSFORM_FEEDBACK_SEPARATE_ATTRIBS_EXT),
        GatePath::Unsupported => 0,
    }
    &&& c.max_indexed_uniform_buffer == if gate_spec(Feature::UniformBuffers, v, e) == GatePath::Unsupported {
        0
    } else {
        gl.integer_of(MAX_UNIFORM_BUFFER_BINDINGS)
    }
    &&& c.max_compute_work_group_count == if gate_spec(Feature::ComputeWorkGroupCount, v, e)
        == GatePath::Unsupported {
        (0i32, 0i32, 0i32)
    } else {
        (
            gl.indexed_integer_of(MAX_COMPUTE_WORK_GROUP_COUNT, 0),
            gl.indexed_integer_of(MAX_COMPUTE_WORK_GROUP_COUNT, 1),
            gl.indexed_integer_of(MAX_COMPUTE_WORK_GROUP_COUNT, 2),
        )
    }
}

/// Two records of one context's answers, under two versions of the same API
/// kind and with the same extensions: every optional capability that the earlier
/// version has, the later one has too, and every field that the earlier version
/// reads by a version-or-extension gate with a single query path is read again,
/// to the same value, under the later one.
pub proof fn lemma_record_monotone<Q: StateQuery>(
    c1: Capabilities,
    c2: Capabilities,
    gl: &Q,
    v1: Version,
    v2: Version,
    e: ExtensionsList,
    renderer: Seq<char>,
)
    requires
        version_le(v1, v2),
        record_spec(c1, gl, v1, e, renderer),
        record_spec(c2, gl, v2, e, renderer),
    ensures
        c1.max_patch_vertices is Some ==> c2.max_patch_vertices == c1.max_patch_vertices,
        c1.max_texture_buffer_size is Some ==> c2.max_texture_buffer_size == c1.max_texture_buffer_size,
        c1.max_texture_max_anisotropy is Some ==> c2.max_texture_max_anisotropy == c1.max_texture_max_anisotropy,
        gate_spec(Feature::Stereo, v1, e) != GatePath::Unsupported ==> c2.stereo == c1.stereo,
        gate_spec(Feature::DrawBuffers, v1, e) != GatePath::Unsupported
            ==> c2.max_draw_buffers == c1.max_draw_buffers,
        gate_spec(Feature::AtomicCounterBuffers, v1, e) != GatePath::Unsupported
            ==> c2.max_indexed_atomic_counter_buffer == c1.max_indexed_atomic_counter_buffer,
        gate_spec(Feature::ShaderStorageBuffers, v1, e) != GatePath::Unsupported
            ==> c2.max_indexed_shader_storage_buffer == c1.max_indexed_shader_storage_buffer,
        gate_spec(Feature::UniformBuffers, v1, e) != GatePath::Unsupported
            ==> c2.max_indexed_uniform_buffer == c1.max_indexed_uniform_buffer,
        gate_spec(Feature::ComputeWorkGroupCount, v1, e) != GatePath::Unsupported
            ==> c2.max_compute_work_group_count == c1.max_compute_work_group_count,
{
    if gate_spec(Feature::PatchVertices, v1, e) != GatePath::Unsupported {
        lemma_gate_monotone(Feature::PatchVertices, v1, v2, e);
    }
    if gate_spec(Feature::TextureBufferSize, v1, e) != GatePath::Unsupported {
        lemma_gate_monotone(Feature::TextureBufferSize, v1, v2, e);
    }
    if gate_spec(Feature::TextureMaxAnisotropy, v1, e) != GatePath::Unsupported {
        lemma_gate_monotone(Feature::TextureMaxAnisotropy, v1, v2, e);
    }
    if gate_spec(Feature::Stereo, v1, e) != GatePath::Unsupported {
        lemma_gate_monotone(Feature::Stereo, v1, v2, e);
    }
    if gate_spec(Feature::DrawBuffers, v1, e) != GatePath::Unsupported {
        lemma_gate_monotone(Feature::DrawBuffers, v1, v2, e);
    }
    if gate_spec(Feature::AtomicCounterBuffers, v1, e) != GatePath::Unsupported {
        lemma_gate_monotone(Feature::AtomicCounterBuffers, v1, v2, e);
    }
    if gate_spec(Feature::ShaderStorageBuffers, v1, e) != GatePath::Unsupported {
        lemma_gate_monotone(Feature::ShaderStorageBuffers, v1, v2, e);
    }
    if gate_spec(Feature::UniformBuffers, v1, e) != GatePath::Unsupported {
        lemma_gate_monotone(Feature::UniformBuffers, v1, v2, e);
    }
    if gate_spec(Feature::ComputeWorkGroupCount, v1, e) != GatePath::Unsupported {
        lemma_gate_monotone(Feature::ComputeWorkGroupCount, v1, v2, e);
    }
}

/// The queries that read the depth or stencil size along `path`: the type probe,
/// then the size only when an object is attached; or the legacy integer.
pub open spec fn buffer_bits_queries<Q: StateQuery>(
    gl: &Q,
    path: GatePath,
    attachment: u32,
    size_pname: u32,
    legacy_pname: u32,
) -> Seq<Query> {
    if path == GatePath::Primary {
        let probe = Query::FramebufferAttachment(FRAMEBUFFER, attachment, FRAMEBUFFER_ATTACHMENT_OBJECT_TYPE);
        if gl.attachment_parameter_of(FRAMEBUFFER, attachment, FRAMEBUFFER_ATTACHMENT_OBJECT_TYPE) != NONE as i32 {
            seq![probe, Query::FramebufferAttachment(FRAMEBUFFER, attachment, size_pname)]
        } else {
            seq![probe]
        }
    } else {
        seq![Query::Integer(legacy_pname)]
    }
}

/// The query of a feature read by one integer query of `pname`: none when the
/// gates fail.
pub open spec fn gated_queries(path: GatePath, q: Query) -> Seq<Query> {
    if path == GatePath::Unsupported {
        Seq::empty()
    } else {
        seq![q]
    }
}

/// The queries that read robustness.
pub open spec fn robustness_queries(v: Version, e: ExtensionsList) -> Seq<Query> {
    match gate_spec(Feature::Robustness, v, e) {
        GatePath::Primary => seq![Query::Integer(CONTEXT_FLAGS)],
        GatePath::Alternate => seq![Query::Boolean(CONTEXT_ROBUST_ACCESS)],
        GatePath::Unsupported => Seq::empty(),
    }
}

/// The queries that read the sRGB flag.
pub open spec fn srgb_queries(v: Version, e: ExtensionsList) -> Seq<Query> {
    match gate_spec(Feature::Srgb, v, e) {
        GatePath::Primary => seq![
            Query::FramebufferAttachment(FRAMEBUFFER, BACK_LEFT, FRAMEBUFFER_ATTACHMENT_COLOR_ENCODING),
        ],
        GatePath::Alternate => seq![Query::Boolean(FRAMEBUFFER_SRGB_CAPABLE_EXT)],
        GatePath::Unsupported => Seq::empty(),
    }
}

/// The queries that read the transform feedback bind points.
pub open spec fn transform_feedback_queries(v: Version, e: ExtensionsList) -> Seq<Query> {
    match gate_spec(Feature::TransformFeedbackBuffers, v, e) {
        GatePath::Primary => seq![Query::Integer(MAX_TRANSFORM_FEEDBACK_BUFFERS)],
        GatePath::Alternate => seq![Query::Integer(MAX_TRANSFORM_FEEDBACK_SEPARATE_ATTRIBS_EXT)],
        GatePath::Unsupported => Seq::empty(),
    }
}

/// The queries that read the compute work group counts, one per axis.
pub open spec fn compute_queries(v: Version, e: ExtensionsList) -> Seq<Query> {
    if gate_spec(Feature::ComputeWorkGroupCount, v, e) == GatePath::Unsupported {
        Seq::empty()
    } else {
        seq![
            Query::IndexedInteger(MAX_COMPUTE_WORK_GROUP_COUNT, 0),
            Query::IndexedInteger(MAX_COMPUTE_WORK_GROUP_COUNT, 1),
            Query::IndexedInteger(MAX_COMPUTE_WORK_GROUP_COUNT, 2),
        ]
    }
}

/// The queries of a resolution up to the reset-notification strategy.
pub open spec fn queries_through_reset(v: Version, e: ExtensionsList) -> Seq<Query> {
    glsl_queries(v) + robustness_queries(v, e) + gated_queries(
        gate_spec(Feature::ResetNotification, v, e),
        Query::Integer(RESET_NOTIFICATION_STRATEGY),
    )
}

/// The queries of a resolution up to the release behaviour.
pub open spec fn queries_through_release(v: Version, e: ExtensionsList) -> Seq<Query> {
    queries_through_reset(v, e) + gated_queries(
        gate_spec(Feature::ReleaseBehavior, v, e),
        Query::Integer(CONTEXT_RELEASE_BEHAVIOR),
    )
}

/// The queries that read the framebuffer fields and surface limits.
pub open spec fn surface_queries<Q: StateQuery>(gl: &Q, v: Version, e: ExtensionsList) -> Seq<Query> {
    let bits = gate_spec(Feature::BufferBits, v, e);
    gated_queries(gate_spec(Feature::Stereo, v, e), Query::Boolean(STEREO))
        + srgb_queries(v, e)
        + buffer_bits_queries(gl, bits, DEPTH, FRAMEBUFFER_ATTACHMENT_DEPTH_SIZE, DEPTH_BITS)
        + buffer_bits_queries(gl, bits, STENCIL, FRAMEBUFFER_ATTACHMENT_STENCIL_SIZE, STENCIL_BITS)
        + seq![Query::Integer(MAX_COMBINED_TEXTURE_IMAGE_UNITS)]
        + gated_queries(
            gate_spec(Feature::TextureMaxAnisotropy, v, e),
            Query::FloatBits(MAX_TEXTURE_MAX_ANISOTROPY_EXT),
        )
        + gated_queries(gate_spec(Feature::TextureBufferSize, v, e), Query::Integer(MAX_TEXTURE_BUFFER_SIZE))
        + seq![Query::IntegerPair(MAX_VIEWPORT_DIMS)]
}

/// The queries that read the bind points and other gated limits.
pub open spec fn bind_limits_queries(v: Version, e: ExtensionsList) -> Seq<Query> {
    gated_queries(gate_spec(Feature::DrawBuffers, v, e), Query::Integer(MAX_DRAW_BUFFERS))
        + gated_queries(gate_spec(Feature::PatchVertices, v, e), Query::Integer(MAX_PATCH_VERTICES))
        + gated_queries(
            gate_spec(Feature::AtomicCounterBuffers, v, e),
            Query::Integer(MAX_ATOMIC_COUNTER_BUFFER_BINDINGS),
        )
        + gated_queries(
            gate_spec(Feature::ShaderStorageBuffers, v, e),
            Query::Integer(MAX_SHADER_STORAGE_BUFFER_BINDINGS),
        )
        + transform_feedback_queries(v, e)
        + gated_queries(gate_spec(Feature::UniformBuffers, v, e), Query::Integer(MAX_UNIFORM_BUFFER_BINDINGS))
        + compute_queries(v, e)
}

/// The queries of a resolution that decodes every enum answer, in the order
/// they are sent.
pub open spec fn all_queries<Q: StateQuery>(gl: &Q, v: Version, e: ExtensionsList) -> Seq<Query> {
    queries_through_release(v, e) + surface_queries(gl, v, e) + bind_limits_queries(v, e)
}

/// The queries a resolution sends: every query up to the first undecodable enum
/// answer, or all of them.
pub open spec fn resolution_queries<Q: StateQuery>(gl: &Q, v: Version, e: ExtensionsList) -> Seq<Query> {
    match resolution_error(gl, v, e) {
        Some(CapabilityError::UnknownResetNotificationStrategy(_)) => queries_through_reset(v, e),
        Some(CapabilityError::UnknownReleaseBehavior(_)) => queries_through_release(v, e),
        None => all_queries(gl, v, e),
    }
}

/// Under a later version of the same API kind, with the same extensions, a
/// feature that was read by a single query is read by that same query again.
pub proof fn lemma_gated_queries_monotone(f: Feature, q: Query, v1: Version, v2: Version, e: ExtensionsList)
    requires
        version_le(v1, v2),
        gated_queries(gate_spec(f, v1, e), q).len() > 0,
    ensures
        gated_queries(gate_spec(f, v2, e), q) == gated_queries(gate_spec(f, v1, e), q),
{
    lemma_gate_monotone(f, v1, v2, e);
}

/// Under a later version of the same API kind, with the same extensions, the
/// compute work group counts are queried again when they were queried before.
pub proof fn lemma_compute_queries_monotone(v1: Version, v2: Version, e: ExtensionsList)
    requires
        version_le(v1, v2),
        compute_queries(v1, e).len() > 0,
    ensures
        compute_queries(v2, e) == compute_queries(v1, e),
{
    lemma_gate_monotone(Feature::ComputeWorkGroupCount, v1, v2, e);
}

/// Appending to a log in two steps is appending the two parts at once.
proof fn lemma_log_extend(log: Seq<Query>, p: Seq<Query>, x: Seq<Query>)
    ensures
        log + p + x == log + (p + x),
{
    assert(log + p + x =~= log + (p + x));
}

/// Reads the depth or stencil size of the default framebuffer along `path`.
fn read_buffer_bits<Q: StateQuery>(
    gl: &mut Q,
    g0: Ghost<Q>,
    path: GatePath,
    attachment: u32,
    size_pname: u32,
    legacy_pname: u32,
) -> (r: i32)
    requires
        same_answers(&g0@, old(gl)),
    ensures
        r == buffer_bits_raw_spec(&g0@, path, attachment, size_pname, legacy_pname),
        final(gl).issued()@ == old(gl).issued()@ + buffer_bits_queries(
            &g0@,
            path,
            attachment,
            size_pname,
            legacy_pname,
        ),
        same_answers(&g0@, final(gl)),
{
    proof {
        reveal(same_answers);
    }
    if path == GatePath::Primary {
        let ty = gl.get_framebuffer_attachment_parameter(
            FRAMEBUFFER,
            attachment,
            FRAMEBUFFER_ATTACHMENT_OBJECT_TYPE,
        );
        if attachment_present(ty) {
            let r = gl.get_framebuffer_attachment_parameter(FRAMEBUFFER, attachment, size_pname);
            assert(gl.issued()@ =~= old(gl).issued()@ + buffer_bits_queries(
                &g0@,
                path,
                attachment,
                size_pname,
                legacy_pname,
            ));
            r
        } else {
            assert(gl.issued()@ =~= old(gl).issued()@ + buffer_bits_queries(
                &g0@,
                path,
                attachment,
                size_pname,
                legacy_pname,
            ));
            0
        }
    } else {
        let r = gl.get_integer(legacy_pname);
        assert(gl.issued()@ =~= old(gl).issued()@ + buffer_bits_queries(
            &g0@,
            path,
            attachment,
            size_pname,
            legacy_pname,
        ));
        r
    }
}

/// Reads one integer of `pname` when the gates chose a path, nothing otherwise.
fn read_gated_integer<Q: StateQuery>(gl: &mut Q, g0: Ghost<Q>, path: GatePath, pname: u32) -> (r: Option<i32>)
    requires
        same_answers(&g0@, old(gl)),
    ensures
        r == (if path == GatePath::Unsupported { None } else { Some(g0@.integer_of(pname)) }),
        final(gl).issued()@ == old(gl).issued()@ + gated_queries(path, Query::Integer(pname)),
        same_answers(&g0@, final(gl)),
{
    proof {
        reveal(same_answers);
    }
    if path == GatePath::Unsupported {
        assert(gl.issued()@ =~= old(gl).issued()@ + gated_queries(path, Query::Integer(pname)));
        None
    } else {
        let r = gl.get_integer(pname);
        assert(gl.issued()@ =~= old(gl).issued()@ + gated_queries(path, Query::Integer(pname)));
        Some(r)
    }
}

/// Reads one boolean of `pname` when the gates chose a path; false otherwise.
fn read_gated_boolean<Q: StateQuery>(gl: &mut Q, g0: Ghost<Q>, path: GatePath, pname: u32) -> (r: bool)
    requires
        same_answers(&g0@, old(gl)),
    ensures
        r == (path != GatePath::Unsupported && g0@.boolean_of(pname) != 0),
        final(gl).issued()@ == old(gl).issued()@ + gated_queries(path, Query::Boolean(pname)),
        same_answers(&g0@, final(gl)),
{
    proof {
        reveal(same_answers);
    }
    if path == GatePath::Unsupported {
        assert(gl.issued()@ =~= old(gl).issued()@ + gated_queries(path, Query::Boolean(pname)));
        false
    } else {
        let r = gl.get_boolean(pname);
        assert(gl.issued()@ =~= old(gl).issued()@ + gated_queries(path, Query::Boolean(pname)));
        r != 0
    }
}

/// Reads the float of `pname` when the gates chose a path.
fn read_gated_float_bits<Q: StateQuery>(gl: &mut Q, g0: Ghost<Q>, path: GatePath, pname: u32) -> (r: Option<u32>)
    requires
        same_answers(&g0@, old(gl)),
    ensures
        r == (if path == GatePath::Unsupported { None } else { Some(g0@.float_bits_of(pname)) }),
        final(gl).issued()@ == old(gl).issued()@ + gated_queries(path, Query::FloatBits(pname)),
        same_answers(&g0@, final(gl)),
{
    proof {
        reveal(same_answers);
    }
    if path == GatePath::Unsupported {
        assert(gl.issued()@ =~= old(gl).issued()@ + gated_queries(path, Query::FloatBits(pname)));
        None
    } else {
        let r = gl.get_float_bits(pname);
        assert(gl.issued()@ =~= old(gl).issued()@ + gated_queries(path, Query::FloatBits(pname)));
        Some(r)
    }
}

/// Reads robustness along the path its gates chose.
fn read_robustness<Q: StateQuery>(gl: &mut Q, g0: Ghost<Q>, version: &Version, extensions: &ExtensionsList) -> (r: bool)
    requires
        same_answers(&g0@, old(gl)),
    ensures
        r == match gate_spec(Feature::Robustness, *version, *extensions) {
            GatePath::Primary => g0@.integer_of(CONTEXT_FLAGS) as u32 & CONTEXT_FLAG_ROBUST_ACCESS_BIT != 0,
            GatePath::Alternate => g0@.boolean_of(CONTEXT_ROBUST_ACCESS) != 0,
            GatePath::Unsupported => false,
        },
        final(gl).issued()@ == old(gl).issued()@ + robustness_queries(*version, *extensions),
        same_answers(&g0@, final(gl)),
{
    proof {
        reveal(same_answers);
    }
    let r = match is_available(Feature::Robustness, version, extensions) {
        GatePath::Primary => robust_access_from_flags(gl.get_integer(CONTEXT_FLAGS)),
        GatePath::Alternate => gl.get_boolean(CONTEXT_ROBUST_ACCESS) != 0,
        GatePath::Unsupported => false,
    };
    assert(gl.issued()@ =~= old(gl).issued()@ + robustness_queries(*version, *extensions));
    r
}

/// Reads the sRGB flag along the path its gates chose.
fn read_srgb<Q: StateQuery>(gl: &mut Q, g0: Ghost<Q>, version: &Version, extensions: &ExtensionsList) -> (r: bool)
    requires
        same_answers(&g0@, old(gl)),
    ensures
        r == match gate_spec(Feature::Srgb, *version, *extensions) {
            GatePath::Primary => g0@.attachment_parameter_of(
                FRAMEBUFFER,
                BACK_LEFT,
                FRAMEBUFFER_ATTACHMENT_COLOR_ENCODING,
            ) == SRGB as i32,
            GatePath::Alternate => g0@.boolean_of(FRAMEBUFFER_SRGB_CAPABLE_EXT) != 0,
            GatePath::Unsupported => false,
        },
        final(gl).issued()@ == old(gl).issued()@ + srgb_queries(*version, *extensions),
        same_answers(&g0@, final(gl)),
{
    proof {
        reveal(same_answers);
    }
    let r = match is_available(Feature::Srgb, version, extensions) {
        GatePath::Primary => srgb_from_encoding(
            gl.get_framebuffer_attachment_parameter(
                FRAMEBUFFER,
                BACK_LEFT,
                FRAMEBUFFER_ATTACHMENT_COLOR_ENCODING,
            ),
        ),
        GatePath::Alternate => gl.get_boolean(FRAMEBUFFER_SRGB_CAPABLE_EXT) != 0,
        GatePath::Unsupported => false,
    };
    assert(gl.issued()@ =~= old(gl).issued()@ + srgb_queries(*version, *extensions));
    r
}

/// Reads the transform feedback bind points along the path their gates chose.
fn read_transform_feedback<Q: StateQuery>(gl: &mut Q, g0: Ghost<Q>, version: &Version, extensions: &ExtensionsList) -> (r: i32)
    requires
        same_answers(&g0@, old(gl)),
    ensures
        r == match gate_spec(Feature::TransformFeedbackBuffers, *version, *extensions) {
            GatePath::Primary => g0@.integer_of(MAX_TRANSFORM_FEEDBACK_BUFFERS),
            GatePath::Alternate => g0@.integer_of(MAX_TRANSFORM_FEEDBACK_SEPARATE_ATTRIBS_EXT),
            GatePath::Unsupported => 0,
        },
        final(gl).issued()@ == old(gl).issued()@ + transform_feedback_queries(*version, *extensions),
        same_answers(&g0@, final(gl)),
{
    proof {
        reveal(same_answers);
    }
    let r = match is_available(Feature::TransformFeedbackBuffers, version, extensions) {
        GatePath::Primary => gl.get_integer(MAX_TRANSFORM_FEEDBACK_BUFFERS),
        GatePath::Alternate => gl.get_integer(MAX_TRANSFORM_FEEDBACK_SEPARATE_ATTRIBS_EXT),
        GatePath::Unsupported => 0,
    };
    assert(gl.issued()@ =~= old(gl).issued()@ + transform_feedback_queries(*version, *extensions));
    r
}

/// Reads the compute work group counts when their gates hold.
fn read_compute<Q: StateQuery>(gl: &mut Q, g0: Ghost<Q>, version: &Version, extensions: &ExtensionsList) -> (r: (i32, i32, i32))
    requires
        same_answers(&g0@, old(gl)),
    ensures
        r == if gate_spec(Feature::ComputeWorkGroupCount, *version, *extensions) == GatePath::Unsupported {
            (0i32, 0i32, 0i32)
        } else {
            (
                g0@.indexed_integer_of(MAX_COMPUTE_WORK_GROUP_COUNT, 0),
                g0@.indexed_integer_of(MAX_COMPUTE_WORK_GROUP_COUNT, 1),
                g0@.indexed_integer_of(MAX_COMPUTE_WORK_GROUP_COUNT, 2),
            )
        },
        final(gl).issued()@ == old(gl).issued()@ + compute_queries(*version, *extensions),
        same_answers(&g0@, final(gl)),
{
    proof {
        reveal(same_answers);
    }
    if is_available(Feature::ComputeWorkGroupCount, version, extensions) == GatePath::Unsupported {
        assert(gl.issued()@ =~= old(gl).issued()@ + compute_queries(*version, *extensions));
        (0, 0, 0)
    } else {
        let x = gl.get_indexed_integer(MAX_COMPUTE_WORK_GROUP_COUNT, 0);
        let y = gl.get_indexed_integer(MAX_COMPUTE_WORK_GROUP_COUNT, 1);
        let z = gl.get_indexed_integer(MAX_COMPUTE_WORK_GROUP_COUNT, 2);
        assert(gl.issued()@ =~= old(gl).issued()@ + compute_queries(*version, *extensions));
        (x, y, z)
    }
}

/// The fields of the default framebuffer and the surface limits.
struct Surface {
    stereo: bool,
    srgb: bool,
    depth_bits: Option<u16>,
    stencil_bits: Option<u16>,
    raw_texture_units: i32,
    max_texture_max_anisotropy: Option<u32>,
    max_texture_buffer_size: Option<i32>,
    max_viewport_dims: (i32, i32),
}

/// The fields of the indexed bind points and the other gated limits.
struct BindLimits {
    max_draw_buffers: i32,
    max_patch_vertices: Option<i32>,
    max_indexed_atomic_counter_buffer: i32,
    max_indexed_shader_storage_buffer: i32,
    max_indexed_transform_feedback_buffer: i32,
    max_indexed_uniform_buffer: i32,
    max_compute_work_group_count: (i32, i32, i32),
}

/// The framebuffer fields and surface limits read from the answers of `gl`.
spec fn surface_spec<Q: StateQuery>(s: Surface, gl: &Q, v: Version, e: ExtensionsList) -> bool {
    &&& s.stereo == (gate_spec(Feature::Stereo, v, e) != GatePath::Unsupported && gl.boolean_of(STEREO) != 0)
    &&& s.srgb == match gate_spec(Feature::Srgb, v, e) {
        GatePath::Primary => gl.attachment_parameter_of(FRAMEBUFFER, BACK_LEFT, FRAMEBUFFER_ATTACHMENT_COLOR_ENCODING)
            == SRGB as i32,
        GatePath::Alternate => gl.boolean_of(FRAMEBUFFER_SRGB_CAPABLE_EXT) != 0,
        GatePath::Unsupported => false,
    }
    &&& s.depth_bits == bits_spec(buffer_bits_raw_spec(
        gl,
        gate_spec(Feature::BufferBits, v, e),
        DEPTH,
        FRAMEBUFFER_ATTACHMENT_DEPTH_SIZE,
        DEPTH_BITS,
    ))
    &&& s.stencil_bits == bits_spec(buffer_bits_raw_spec(
        gl,
        gate_spec(Feature::BufferBits, v, e),
        STENCIL,
        FRAMEBUFFER_ATTACHMENT_STENCIL_SIZE,
        STENCIL_BITS,
    ))
    &&& s.raw_texture_units == gl.integer_of(MAX_COMBINED_TEXTURE_IMAGE_UNITS)
    &&& s.max_texture_max_anisotropy == if gate_spec(Feature::TextureMaxAnisotropy, v, e) == GatePath::Unsupported {
        None
    } else {
        Some(gl.float_bits_of(MAX_TEXTURE_MAX_ANISOTROPY_EXT))
    }
    &&& s.max_texture_buffer_size == if gate_spec(Feature::TextureBufferSize, v, e) == GatePath::Unsupported {
        None
    } else {
        Some(gl.integer_of(MAX_TEXTURE_BUFFER_SIZE))
    }
    &&& s.max_viewport_dims == gl.integer_pair_of(MAX_VIEWPORT_DIMS)

}

/// The bind points and other gated limits read from the answers of `gl`.
spec fn bind_limits_spec<Q: StateQuery>(b: BindLimits, gl: &Q, v: Version, e: ExtensionsList) -> bool {
    &&& b.max_draw_buffers == if gate_spec(Feature::DrawBuffers, v, e) == GatePath::Unsupported {
        1
    } else {
        gl.integer_of(MAX_DRAW_BUFFERS)
    }
    &&& b.max_patch_vertices == if gate_spec(Feature::PatchVertices, v, e) == GatePath::Unsupported {
        None
    } else {
        Some(gl.integer_of(MAX_PATCH_VERTICES))
    }
    &&& b.max_indexed_atomic_counter_buffer == if gate_spec(Feature::AtomicCounterBuffers, v, e)
        == GatePath::Unsupported {
        0
    } else {
        gl.integer_of(MAX_ATOMIC_COUNTER_BUFFER_BINDINGS)
    }
    &&& b.max_indexed_shader_storage_buffer == if gate_spec(Feature::ShaderStorageBuffers, v, e)
        == GatePath::Unsupported {
        0
    } else {
        gl.integer_of(MAX_SHADER_STORAGE_BUFFER_BINDINGS)
    }
    &&& b.max_indexed_transform_feedback_buffer == match gate_spec(Feature::TransformFeedbackBuffers, v, e) {
        GatePath::Primary => gl.integer_of(MAX_TRANSFORM_FEEDBACK_BUFFERS),
        GatePath::Alternate => gl.integer_of(MAX_TRANSFORM_FEEDBACK_SEPARATE_ATTRIBS_EXT),
        GatePath::Unsupported => 0,
    }
    &&& b.max_indexed_uniform_buffer == if gate_spec(Feature::UniformBuffers, v, e) == GatePath::Unsupported {
        0
    } else {
        gl.integer_of(MAX_UNIFORM_BUFFER_BINDINGS)
    }
    &&& b.max_compute_work_group_count == if gate_spec(Feature::ComputeWorkGroupCount, v, e)
        == GatePath::Unsupported {
        (0i32, 0i32, 0i32)
    } else {
        (
            gl.indexed_integer_of(MAX_COMPUTE_WORK_GROUP_COUNT, 0),
            gl.indexed_integer_of(MAX_COMPUTE_WORK_GROUP_COUNT, 1),
            gl.indexed_integer_of(MAX_COMPUTE_WORK_GROUP_COUNT, 2),
        )
    }
}

/// Reads the framebuffer fields and surface limits.
fn read_surface<Q: StateQuery>(gl: &mut Q, g0: Ghost<Q>, version: &Version, extensions: &ExtensionsList) -> (r: Surface)
    requires
        same_answers(&g0@, old(gl)),
    ensures
        surface_spec(r, &g0@, *version, *extensions),
        final(gl).issued()@ == old(gl).issued()@ + surface_queries(&g0@, *version, *extensions),
        same_answers(&g0@, final(gl)),
{
    let ghost log0 = gl.issued()@;
    let ghost v = *version;
    let ghost e = *extensions;
    let stereo = read_gated_boolean(gl, g0, is_available(Feature::Stereo, version, extensions), STEREO);
    let ghost p1 = gated_queries(gate_spec(Feature::Stereo, v, e), Query::Boolean(STEREO));

    let srgb = read_srgb(gl, g0, version, extensions);
    let ghost p2 = p1 + srgb_queries(v, e);
    proof {
        lemma_log_extend(log0, p1, srgb_queries(v, e));
    }

    let bits_path = is_available(Feature::BufferBits, version, extensions);
    let depth_bits = bits_from_raw(
        read_buffer_bits(gl, g0, bits_path, DEPTH, FRAMEBUFFER_ATTACHMENT_DEPTH_SIZE, DEPTH_BITS),
    );
    let ghost p3 = p2 + buffer_bits_queries(&g0@, bits_path, DEPTH, FRAMEBUFFER_ATTACHMENT_DEPTH_SIZE, DEPTH_BITS);
    proof {
        lemma_log_extend(log0, p2, buffer_bits_queries(&g0@, bits_path, DEPTH, FRAMEBUFFER_ATTACHMENT_DEPTH_SIZE, DEPTH_BITS));
    }
    let stencil_bits = bits_from_raw(
        read_buffer_bits(gl, g0, bits_path, STENCIL, FRAMEBUFFER_ATTACHMENT_STENCIL_SIZE, STENCIL_BITS),
    );
    let ghost p4 = p3 + buffer_bits_queries(
        &g0@,
        bits_path,
        STENCIL,
        FRAMEBUFFER_ATTACHMENT_STENCIL_SIZE,
        STENCIL_BITS,
    );
    proof {
        lemma_log_extend(log0, p3, buffer_bits_queries(
        &g0@,
        bits_path,
        STENCIL,
        FRAMEBUFFER_ATTACHMENT_STENCIL_SIZE,
        STENCIL_BITS,
    ));
    }

    let raw_texture_units = gl.get_integer(MAX_COMBINED_TEXTURE_IMAGE_UNITS);
    proof {
        assert(raw_texture_units == g0@.integer_of(MAX_COMBINED_TEXTURE_IMAGE_UNITS)
            && same_answers(&g0@, gl)) by {
            reveal(same_answers);
        }
    }
    let ghost p5 = p4 + seq![Query::Integer(MAX_COMBINED_TEXTURE_IMAGE_UNITS)];
    proof {
        lemma_log_extend(log0, p4, seq![Query::Integer(MAX_COMBINED_TEXTURE_IMAGE_UNITS)]);
    }

    let max_texture_max_anisotropy = read_gated_float_bits(
        gl,
        g0,
        is_available(Feature::TextureMaxAnisotropy, version, extensions),
        MAX_TEXTURE_MAX_ANISOTROPY_EXT,
    );
    let ghost p6 = p5 + gated_queries(
        gate_spec(Feature::TextureMaxAnisotropy, v, e),
        Query::FloatBits(MAX_TEXTURE_MAX_ANISOTROPY_EXT),
    );
    proof {
        lemma_log_extend(log0, p5, gated_queries(
        gate_spec(Feature::TextureMaxAnisotropy, v, e),
        Query::FloatBits(MAX_TEXTURE_MAX_ANISOTROPY_EXT),
    ));
    }

    let max_texture_buffer_size = read_gated_integer(
        gl,
        g0,
        is_available(Feature::TextureBufferSize, version, extensions),
        MAX_TEXTURE_BUFFER_SIZE,
    );
    let ghost p7 = p6 + gated_queries(gate_spec(Feature::TextureBufferSize, v, e), Query::Integer(MAX_TEXTURE_BUFFER_SIZE));
    proof {
        lemma_log_extend(log0, p6, gated_queries(gate_spec(Feature::TextureBufferSize, v, e), Query::Integer(MAX_TEXTURE_BUFFER_SIZE)));
    }

    let max_viewport_dims = gl.get_integer_pair(MAX_VIEWPORT_DIMS);
    proof {
        assert(max_viewport_dims == g0@.integer_pair_of(MAX_VIEWPORT_DIMS) && same_answers(&g0@, gl)) by {
            reveal(same_answers);
        }
    }
    let ghost p8 = p7 + seq![Query::IntegerPair(MAX_VIEWPORT_DIMS)];
    proof {
        lemma_log_extend(log0, p7, seq![Query::IntegerPair(MAX_VIEWPORT_DIMS)]);
    }

    assert(p8 == surface_queries(&g0@, v, e));
    Surface {
        stereo,
        srgb,
        depth_bits,
        stencil_bits,
        raw_texture_units,
        max_texture_max_anisotropy,
        max_texture_buffer_size,
        max_viewport_dims,
    }
}

/// Reads the bind points and the other gated limits.
fn read_bind_limits<Q: StateQuery>(
    gl: &mut Q,
    g0: Ghost<Q>,
    version: &Version,
    extensions: &ExtensionsList,
) -> (r: BindLimits)
    requires
        same_answers(&g0@, old(gl)),
    ensures
        bind_limits_spec(r, &g0@, *version, *extensions),
        final(gl).issued()@ == old(gl).issued()@ + bind_limits_queries(*version, *extensions),
        same_answers(&g0@, final(gl)),
{
    let ghost log0 = gl.issued()@;
    let ghost v = *version;
    let ghost e = *extensions;
    let max_draw_buffers = match read_gated_integer(
        gl,
        g0,
        is_available(Feature::DrawBuffers, version, extensions),
        MAX_DRAW_BUFFERS,
    ) {
        Some(n) => n,
        None => 1,
    };
    let ghost p9 = gated_queries(gate_spec(Feature::DrawBuffers, v, e), Query::Integer(MAX_DRAW_BUFFERS));

    let max_patch_vertices = read_gated_integer(
        gl,
        g0,
        is_available(Feature::PatchVertices, version, extensions),
        MAX_PATCH_VERTICES,
    );
    let ghost p10 = p9 + gated_queries(gate_spec(Feature::PatchVertices, v, e), Query::Integer(MAX_PATCH_VERTICES));
    proof {
        lemma_log_extend(log0, p9, gated_queries(gate_spec(Feature::PatchVertices, v, e), Query::Integer(MAX_PATCH_VERTICES)));
    }

    let max_indexed_atomic_counter_buffer = match read_gated_integer(
        gl,
        g0,
        is_available(Feature::AtomicCounterBuffers, version, extensions),
        MAX_ATOMIC_COUNTER_BUFFER_BINDINGS,
    ) {
        Some(n) => n,
        None => 0,
    };
    let ghost p11 = p10 + gated_queries(
        gate_spec(Feature::AtomicCounterBuffers, v, e),
        Query::Integer(MAX_ATOMIC_COUNTER_BUFFER_BINDINGS),
    );
    proof {
        lemma_log_extend(log0, p10, gated_queries(
        gate_spec(Feature::AtomicCounterBuffers, v, e),
        Query::Integer(MAX_ATOMIC_COUNTER_BUFFER_BINDINGS),
    ));
    }

    let max_indexed_shader_storage_buffer = match read_gated_integer(
        gl,
        g0,
        is_available(Feature::ShaderStorageBuffers, version, extensions),
        MAX_SHADER_STORAGE_BUFFER_BINDINGS,
    ) {
        Some(n) => n,
        None => 0,
    };
    let ghost p12 = p11 + gated_queries(
        gate_spec(Feature::ShaderStorageBuffers, v, e),
        Query::Integer(MAX_SHADER_STORAGE_BUFFER_BINDINGS),
    );
    proof {
        lemma_log_extend(log0, p11, gated_queries(
        gate_spec(Feature::ShaderStorageBuffers, v, e),
        Query::Integer(MAX_SHADER_STORAGE_BUFFER_BINDINGS),
    ));
    }

    let max_indexed_transform_feedback_buffer = read_transform_feedback(gl, g0, version, extensions);
    let ghost p13 = p12 + transform_feedback_queries(v, e);
    proof {
        lemma_log_extend(log0, p12, transform_feedback_queries(v, e));
    }

    let max_indexed_uniform_buffer = match read_gated_integer(
        gl,
        g0,
        is_available(Feature::UniformBuffers, version, extensions),
        MAX_UNIFORM_BUFFER_BINDINGS,
    ) {
        Some(n) => n,
        None => 0,
    };
    let ghost p14 = p13 + gated_queries(
        gate_spec(Feature::UniformBuffers, v, e),
        Query::Integer(MAX_UNIFORM_BUFFER_BINDINGS),
    );
    proof {
        lemma_log_extend(log0, p13, gated_queries(
        gate_spec(Feature::UniformBuffers, v, e),
        Query::Integer(MAX_UNIFORM_BUFFER_BINDINGS),
    ));
    }

    let max_compute_work_group_count = read_compute(gl, g0, version, extensions);
    let ghost p15 = p14 + compute_queries(v, e);
    proof {
        lemma_log_extend(log0, p14, compute_queries(v, e));
    }

    assert(p15 == bind_limits_queries(v, e));
    BindLimits {
        max_draw_buffers,
        max_patch_vertices,
        max_indexed_atomic_counter_buffer,
        max_indexed_shader_storage_buffer,
        max_indexed_transform_feedback_buffer,
        max_indexed_uniform_buffer,
        max_compute_work_group_count,
    }
}

/// Resolves the capabilities of the context behind `gl`, of version `version`
/// with the extensions `extensions`, whose renderer string is `renderer`.
///
/// Every feature is gated first; a feature whose gates fail takes its fallback
/// without a query. The errata corrections keyed on the renderer come last.
pub fn resolve_capabilities<Q: StateQuery>(
    gl: &mut Q,
    version: &Version,
    extensions: &ExtensionsList,
    renderer: &str,
) -> (r: Result<Capabilities, CapabilityError>)
    ensures
        resolution_error(old(gl), *version, *extensions) matches Some(err)
            ==> r == Err::<Capabilities, CapabilityError>(err),
        resolution_error(old(gl), *version, *extensions) is None
            ==> (r matches Ok(c) && record_spec(c, old(gl), *version, *extensions, renderer@)),
        final(gl).issued()@ == old(gl).issued()@ + resolution_queries(old(gl), *version, *extensions),
        same_answers(old(gl), final(gl)),
{
    proof {
        reveal(same_answers);
    }
    resolve_with(gl, Ghost(*gl), version, extensions, renderer)
}

/// Resolution against the answers of `g0`, which the context behind `gl` gives.
fn resolve_with<Q: StateQuery>(
    gl: &mut Q,
    g0: Ghost<Q>,
    version: &Version,
    extensions: &ExtensionsList,
    renderer: &str,
) -> (r: Result<Capabilities, CapabilityError>)
    requires
        same_answers(&g0@, old(gl)),
    ensures
        resolution_error(&g0@, *version, *extensions) matches Some(err)
            ==> r == Err::<Capabilities, CapabilityError>(err),
        resolution_error(&g0@, *version, *extensions) is None
            ==> (r matches Ok(c) && record_spec(c, &g0@, *version, *extensions, renderer@)),
        final(gl).issued()@ == old(gl).issued()@ + resolution_queries(&g0@, *version, *extensions),
        same_answers(&g0@, final(gl)),
{
    let ghost log0 = gl.issued()@;
    let ghost v = *version;
    let ghost e = *extensions;

    let ghost before = *gl;
    let supported_glsl_versions = get_supported_glsl(gl, version, extensions);
    proof {
        lemma_same_answers_trans(&g0@, &before, gl);
        assert(before.boolean_of(SHADER_COMPILER) == g0@.boolean_of(SHADER_COMPILER)) by {
            reveal(same_answers);
        }
    }
    let robustness = read_robustness(gl, g0, version, extensions);
    proof {
        lemma_log_extend(log0, glsl_queries(v), robustness_queries(v, e));
    }

    let reset = read_gated_integer(
        gl,
        g0,
        is_available(Feature::ResetNotification, version, extensions),
        RESET_NOTIFICATION_STRATEGY,
    );
    proof {
        lemma_log_extend(
            log0,
            glsl_queries(v) + robustness_queries(v, e),
            gated_queries(gate_spec(Feature::ResetNotification, v, e), Query::Integer(RESET_NOTIFICATION_STRATEGY)),
        );
    }
    let can_lose_context = match reset {
        None => false,
        Some(raw) => match decode_reset_notification(raw) {
            Ok(b) => b,
            Err(err) => return Err(err),
        },
    };

    let release = read_gated_integer(
        gl,
        g0,
        is_available(Feature::ReleaseBehavior, version, extensions),
        CONTEXT_RELEASE_BEHAVIOR,
    );
    proof {
        lemma_log_extend(
            log0,
            queries_through_reset(v, e),
            gated_queries(gate_spec(Feature::ReleaseBehavior, v, e), Query::Integer(CONTEXT_RELEASE_BEHAVIOR)),
        );
    }
    let release_behavior = match release {
        None => ReleaseBehavior::Flush,
        Some(raw) => match decode_release_behavior(raw) {
            Ok(b) => b,
            Err(err) => return Err(err),
        },
    };
    let ghost p0 = queries_through_release(v, e);
    let surface = read_surface(gl, g0, version, extensions);
    let ghost p1 = p0 + surface_queries(&g0@, v, e);
    proof {
        lemma_log_extend(log0, p0, surface_queries(&g0@, v, e));
    }
    let limits = read_bind_limits(gl, g0, version, extensions);
    let ghost p2 = p1 + bind_limits_queries(v, e);
    proof {
        lemma_log_extend(log0, p1, bind_limits_queries(v, e));
    }
    assert(p2 == all_queries(&g0@, v, e));

    // Errata corrections, applied once every field has its raw value.
    let max_combined_texture_image_units = clamp_texture_units(surface.raw_texture_units, renderer);

    Ok(Capabilities {
        supported_glsl_versions,
        robustness,
        can_lose_context,
        release_behavior,
        stereo: surface.stereo,
        srgb: surface.srgb,
        depth_bits: surface.depth_bits,
        stencil_bits: surface.stencil_bits,
        max_combined_texture_image_units,
        max_texture_max_anisotropy: surface.max_texture_max_anisotropy,
        max_texture_buffer_size: surface.max_texture_buffer_size,
        max_viewport_dims: surface.max_viewport_dims,
        max_draw_buffers: limits.max_draw_buffers,
        max_patch_vertices: limits.max_patch_vertices,
        max_indexed_atomic_counter_buffer: limits.max_indexed_atomic_counter_buffer,
        max_indexed_shader_storage_buffer: limits.max_indexed_shader_storage_buffer,
        max_indexed_transform_feedback_buffer: limits.max_indexed_transform_feedback_buffer,
        max_indexed_uniform_buffer: limits.max_indexed_uniform_buffer,
        max_compute_work_group_count: limits.max_compute_work_group_count,
    })
}

/// Loads the capabilities of the context behind `gl`, which must be current on
/// the calling thread, of version `version` with the extensions `extensions`.
///
/// The renderer string is read once, first, for the errata corrections. The
/// only failure is an enum answer that matches none of its defined values.
pub fn get_capabilities<Q: StateQuery>(
    gl: &mut Q,
    version: &Version,
    extensions: &ExtensionsList,
) -> (r: Result<Capabilities, CapabilityError>)
    ensures
        resolution_error(old(gl), *version, *extensions) matches Some(err)
            ==> r == Err::<Capabilities, CapabilityError>(err),
        resolution_error(old(gl), *version, *extensions) is None
            ==> (r matches Ok(c) && record_spec(c, old(gl), *version, *extensions, old(gl).string_of(RENDERER)@)),
        final(gl).issued()@ == old(gl).issued()@ + seq![Query::Text(RENDERER)] + resolution_queries(
            old(gl),
            *version,
            *extensions,
        ),
        same_answers(old(gl), final(gl)),
{
    let ghost g0 = *gl;
    let renderer = gl.get_string(RENDERER);
    proof {
        assert(same_answers(&g0, gl)) by {
            reveal(same_answers);
        }
    }
    let r = resolve_with(gl, Ghost(g0), version, extensions, renderer.as_str());
    assert(gl.issued()@ =~= g0.issued()@ + seq![Query::Text(RENDERER)] + resolution_queries(
        &g0,
        *version,
        *extensions,
    ));
    r
}

} // verus!
