//! The state queries a context answers, and the tokens they are asked with.
use vstd::prelude::*;

verus! {

/// Token of the renderer string.
pub const RENDERER: u32 = 0x1F01;
/// Token of the context flags.
pub const CONTEXT_FLAGS: u32 = 0x821E;
/// Bit of the context flags set when buffer access is robust.
pub const CONTEXT_FLAG_ROBUST_ACCESS_BIT: u32 = 0x4;
/// Token of the robust-access boolean of the robustness extensions.
pub const CONTEXT_ROBUST_ACCESS: u32 = 0x90F3;
/// Token of the reset-notification strategy.
pub const RESET_NOTIFICATION_STRATEGY: u32 = 0x8256;
/// Strategy value: the context is lost on a reset.
pub const LOSE_CONTEXT_ON_RESET: u32 = 0x8252;
/// Strategy value: resets are not reported.
pub const NO_RESET_NOTIFICATION: u32 = 0x8261;
/// Strategy value that some AMD drivers return although no specification defines
/// it; it stands for "no reset notification".
pub const AMD_NO_RESET_NOTIFICATION: u32 = 0x31BE;
/// Token of the release behaviour.
pub const CONTEXT_RELEASE_BEHAVIOR: u32 = 0x82FB;
/// Release behaviour value: the command queue is flushed.
pub const CONTEXT_RELEASE_BEHAVIOR_FLUSH: u32 = 0x82FC;
/// The null enumerant.
pub const NONE: u32 = 0;
/// Token of the stereo boolean.
pub const STEREO: u32 = 0x0C33;
/// The framebuffer target.
pub const FRAMEBUFFER: u32 = 0x8D40;
/// The back-left colour buffer of the default framebuffer.
pub const BACK_LEFT: u32 = 0x0402;
/// Attachment parameter: colour encoding.
pub const FRAMEBUFFER_ATTACHMENT_COLOR_ENCODING: u32 = 0x8210;
/// Colour encoding value: sRGB.
pub const SRGB: u32 = 0x8C40;
/// Token of the sRGB-capable boolean of the framebuffer sRGB extension.
pub const FRAMEBUFFER_SRGB_CAPABLE_EXT: u32 = 0x8DBA;
/// The depth attachment of the default framebuffer.
pub const DEPTH: u32 = 0x1801;
/// The stencil attachment of the default framebuffer.
pub const STENCIL: u32 = 0x1802;
/// Attachment parameter: the type of the attached object.
pub const FRAMEBUFFER_ATTACHMENT_OBJECT_TYPE: u32 = 0x8CD0;
/// Attachment parameter: depth size in bits.
pub const FRAMEBUFFER_ATTACHMENT_DEPTH_SIZE: u32 = 0x8216;
/// Attachment parameter: stencil size in bits.
pub const FRAMEBUFFER_ATTACHMENT_STENCIL_SIZE: u32 = 0x8217;
/// Token of the legacy depth size.
pub const DEPTH_BITS: u32 = 0x0D56;
/// Token of the legacy stencil size.
pub const STENCIL_BITS: u32 = 0x0D57;
/// Token of the number of texture image units of a program.
pub const MAX_COMBINED_TEXTURE_IMAGE_UNITS: u32 = 0x8B4D;
/// Token of the maximum anisotropy.
pub const MAX_TEXTURE_MAX_ANISOTROPY_EXT: u32 = 0x84FF;
/// Token of the maximum buffer texture size.
pub const MAX_TEXTURE_BUFFER_SIZE: u32 = 0x8C2B;
/// Token of the maximum viewport width and height.
pub const MAX_VIEWPORT_DIMS: u32 = 0x0D3A;
/// Token of the maximum number of draw buffers.
pub const MAX_DRAW_BUFFERS: u32 = 0x8824;
/// Token of the maximum number of vertices of a patch.
pub const MAX_PATCH_VERTICES: u32 = 0x8E7D;
/// Token of the number of atomic counter buffer bind points.
pub const MAX_ATOMIC_COUNTER_BUFFER_BINDINGS: u32 = 0x92DC;
/// Token of the number of shader storage buffer bind points.
pub const MAX_SHADER_STORAGE_BUFFER_BINDINGS: u32 = 0x90DD;
/// Token of the number of transform feedback buffers.
pub const MAX_TRANSFORM_FEEDBACK_BUFFERS: u32 = 0x8E70;
/// Token of the number of separate transform feedback attributes.
pub const MAX_TRANSFORM_FEEDBACK_SEPARATE_ATTRIBS_EXT: u32 = 0x8C8B;
/// Token of the number of uniform buffer bind points.
pub const MAX_UNIFORM_BUFFER_BINDINGS: u32 = 0x8A2F;
/// Token of the maximum compute work group count, indexed by axis.
pub const MAX_COMPUTE_WORK_GROUP_COUNT: u32 = 0x91BE;
/// Token of the boolean that tells whether a shader compiler is present.
pub const SHADER_COMPILER: u32 = 0x8DFA;

/// One query sent to a context.
#[derive(Copy, Clone, Debug, PartialEq, Eq, Structural)]
pub enum Query {
    /// An integer query of a token.
    Integer(u32),
    /// A two-integer query of a token.
    IntegerPair(u32),
    /// An indexed integer query of a token at an index.
    IndexedInteger(u32, u32),
    /// A boolean query of a token.
    Boolean(u32),
    /// A float query of a token.
    FloatBits(u32),
    /// A framebuffer attachment query: target, attachment, parameter.
    FramebufferAttachment(u32, u32, u32),
    /// A string query of a name.
    Text(u32),
}

/// The state queries of a context that is current on the calling thread.
///
/// The spec functions model the context: its answers, and the queries it was
/// sent so far, oldest first. While capabilities are resolved the context's
/// state does not change (the caller guarantees that no other thread touches
/// it), so each query answers as a function of its arguments, and sending one
/// only adds it to the record of issued queries. Outside verified code the model
/// functions are ordinary methods; an implementation defines each answer as the
/// answer of the query it models, and keeps the issued queries in order.
pub trait StateQuery: Sized {
    /// The answer to an integer query of `pname`.
    spec fn integer_of(&self, pname: u32) -> i32;

    /// The answer to a two-integer query of `pname`.
    spec fn integer_pair_of(&self, pname: u32) -> (i32, i32);

    /// The answer to an indexed integer query of `pname` at `index`.
    spec fn indexed_integer_of(&self, pname: u32, index: u32) -> i32;

    /// The answer to a boolean query of `pname`, as the driver encodes it.
    spec fn boolean_of(&self, pname: u32) -> u8;

    /// The answer to a float query of `pname`, as its IEEE-754 bit pattern.
    spec fn float_bits_of(&self, pname: u32) -> u32;

    /// The answer to a framebuffer attachment query.
    spec fn attachment_parameter_of(&self, target: u32, attachment: u32, pname: u32) -> i32;

    /// The string named by `name`.
    spec fn string_of(&self, name: u32) -> String;

    /// The queries issued so far, oldest first.
    spec fn issued(&self) -> Vec<Query>;

    /// One integer of the state named by `pname`.
    fn get_integer(&mut self, pname: u32) -> (r: i32)
        ensures
            r == old(self).integer_of(pname),
            final(self).issued()@ == old(self).issued()@.push(Query::Integer(pname)),
            forall|p: u32| #[trigger] final(self).integer_of(p) == old(self).integer_of(p),
            forall|p: u32| #[trigger] final(self).integer_pair_of(p) == old(self).integer_pair_of(p),
            forall|p: u32, i: u32|
                #[trigger] final(self).indexed_integer_of(p, i) == old(self).indexed_integer_of(p, i),
            forall|p: u32| #[trigger] final(self).boolean_of(p) == old(self).boolean_of(p),
            forall|p: u32| #[trigger] final(self).float_bits_of(p) == old(self).float_bits_of(p),
            forall|t: u32, x: u32, p: u32|
                #[trigger] final(self).attachment_parameter_of(t, x, p) == old(self).attachment_parameter_of(t, x, p),
            forall|n: u32| #[trigger] final(self).string_of(n)@ == old(self).string_of(n)@,
    ;

    /// Two integers of the state named by `pname`.
    fn get_integer_pair(&mut self, pname: u32) -> (r: (i32, i32))
        ensures
            r == old(self).integer_pair_of(pname),
            final(self).issued()@ == old(self).issued()@.push(Query::IntegerPair(pname)),
            forall|p: u32| #[trigger] final(self).integer_of(p) == old(self).integer_of(p),
            forall|p: u32| #[trigger] final(self).integer_pair_of(p) == old(self).integer_pair_of(p),
            forall|p: u32, i: u32|
                #[trigger] final(self).indexed_integer_of(p, i) == old(self).indexed_integer_of(p, i),
            forall|p: u32| #[trigger] final(self).boolean_of(p) == old(self).boolean_of(p),
            forall|p: u32| #[trigger] final(self).float_bits_of(p) == old(self).float_bits_of(p),
            forall|t: u32, x: u32, p: u32|
                #[trigger] final(self).attachment_parameter_of(t, x, p) == old(self).attachment_parameter_of(t, x, p),
            forall|n: u32| #[trigger] final(self).string_of(n)@ == old(self).string_of(n)@,
    ;

    /// The element `index` of the indexed integer state named by `pname`.
    fn get_indexed_integer(&mut self, pname: u32, index: u32) -> (r: i32)
        ensures
            r == old(self).indexed_integer_of(pname, index),
            final(self).issued()@ == old(self).issued()@.push(Query::IndexedInteger(pname, index)),
            forall|p: u32| #[trigger] final(self).integer_of(p) == old(self).integer_of(p),
            forall|p: u32| #[trigger] final(self).integer_pair_of(p) == old(self).integer_pair_of(p),
            forall|p: u32, i: u32|
                #[trigger] final(self).indexed_integer_of(p, i) == old(self).indexed_integer_of(p, i),
            forall|p: u32| #[trigger] final(self).boolean_of(p) == old(self).boolean_of(p),
            forall|p: u32| #[trigger] final(self).float_bits_of(p) == old(self).float_bits_of(p),
            forall|t: u32, x: u32, p: u32|
                #[trigger] final(self).attachment_parameter_of(t, x, p) == old(self).attachment_parameter_of(t, x, p),
            forall|n: u32| #[trigger] final(self).string_of(n)@ == old(self).string_of(n)@,
    ;

    /// A boolean of the state named by `pname`, as the driver encodes it
    /// (zero is false).
    fn get_boolean(&mut self, pname: u32) -> (r: u8)
        ensures
            r == old(self).boolean_of(pname),
            final(self).issued()@ == old(self).issued()@.push(Query::Boolean(pname)),
            forall|p: u32| #[trigger] final(self).integer_of(p) == old(self).integer_of(p),
            forall|p: u32| #[trigger] final(self).integer_pair_of(p) == old(self).integer_pair_of(p),
            forall|p: u32, i: u32|
                #[trigger] final(self).indexed_integer_of(p, i) == old(self).indexed_integer_of(p, i),
            forall|p: u32| #[trigger] final(self).boolean_of(p) == old(self).boolean_of(p),
            forall|p: u32| #[trigger] final(self).float_bits_of(p) == old(self).float_bits_of(p),
            forall|t: u32, x: u32, p: u32|
                #[trigger] final(self).attachment_parameter_of(t, x, p) == old(self).attachment_parameter_of(t, x, p),
            forall|n: u32| #[trigger] final(self).string_of(n)@ == old(self).string_of(n)@,
    ;

    /// A float of the state named by `pname`, as its IEEE-754 bit pattern.
    fn get_float_bits(&mut self, pname: u32) -> (r: u32)
        ensures
            r == old(self).float_bits_of(pname),
            final(self).issued()@ == old(self).issued()@.push(Query::FloatBits(pname)),
            forall|p: u32| #[trigger] final(self).integer_of(p) == old(self).integer_of(p),
            forall|p: u32| #[trigger] final(self).integer_pair_of(p) == old(self).integer_pair_of(p),
            forall|p: u32, i: u32|
                #[trigger] final(self).indexed_integer_of(p, i) == old(self).indexed_integer_of(p, i),
            forall|p: u32| #[trigger] final(self).boolean_of(p) == old(self).boolean_of(p),
            forall|p: u32| #[trigger] final(self).float_bits_of(p) == old(self).float_bits_of(p),
            forall|t: u32, x: u32, p: u32|
                #[trigger] final(self).attachment_parameter_of(t, x, p) == old(self).attachment_parameter_of(t, x, p),
            forall|n: u32| #[trigger] final(self).string_of(n)@ == old(self).string_of(n)@,
    ;

    /// The parameter `pname` of `attachment` of the framebuffer bound to `target`.
    fn get_framebuffer_attachment_parameter(&mut self, target: u32, attachment: u32, pname: u32) -> (r: i32)
        ensures
            r == old(self).attachment_parameter_of(target, attachment, pname),
            final(self).issued()@ == old(self).issued()@.push(Query::FramebufferAttachment(target, attachment, pname)),
            forall|p: u32| #[trigger] final(self).integer_of(p) == old(self).integer_of(p),
            forall|p: u32| #[trigger] final(self).integer_pair_of(p) == old(self).integer_pair_of(p),
            forall|p: u32, i: u32|
                #[trigger] final(self).indexed_integer_of(p, i) == old(self).indexed_integer_of(p, i),
            forall|p: u32| #[trigger] final(self).boolean_of(p) == old(self).boolean_of(p),
            forall|p: u32| #[trigger] final(self).float_bits_of(p) == old(self).float_bits_of(p),
            forall|t: u32, x: u32, p: u32|
                #[trigger] final(self).attachment_parameter_of(t, x, p) == old(self).attachment_parameter_of(t, x, p),
            forall|n: u32| #[trigger] final(self).string_of(n)@ == old(self).string_of(n)@,
    ;

    /// The string named by `name`.
    fn get_string(&mut self, name: u32) -> (r: String)
        ensures
            r@ == old(self).string_of(name)@,
            final(self).issued()@ == old(self).issued()@.push(Query::Text(name)),
            forall|p: u32| #[trigger] final(self).integer_of(p) == old(self).integer_of(p),
            forall|p: u32| #[trigger] final(self).integer_pair_of(p) == old(self).integer_pair_of(p),
            forall|p: u32, i: u32|
                #[trigger] final(self).indexed_integer_of(p, i) == old(self).indexed_integer_of(p, i),
            forall|p: u32| #[trigger] final(self).boolean_of(p) == old(self).boolean_of(p),
            forall|p: u32| #[trigger] final(self).float_bits_of(p) == old(self).float_bits_of(p),
            forall|t: u32, x: u32, p: u32|
                #[trigger] final(self).attachment_parameter_of(t, x, p) == old(self).attachment_parameter_of(t, x, p),
            forall|n: u32| #[trigger] final(self).string_of(n)@ == old(self).string_of(n)@,
    ;
}

/// `a` and `b` give the same answer to every query.
#[verifier::opaque]
pub open spec fn same_answers<Q: StateQuery>(a: &Q, b: &Q) -> bool {
    &&& forall|p: u32| #[trigger] b.integer_of(p) == a.integer_of(p)
    &&& forall|p: u32| #[trigger] b.integer_pair_of(p) == a.integer_pair_of(p)
    &&& forall|p: u32, i: u32| #[trigger] b.indexed_integer_of(p, i) == a.indexed_integer_of(p, i)
    &&& forall|p: u32| #[trigger] b.boolean_of(p) == a.boolean_of(p)
    &&& forall|p: u32| #[trigger] b.float_bits_of(p) == a.float_bits_of(p)
    &&& forall|t: u32, x: u32, p: u32|
        #[trigger] b.attachment_parameter_of(t, x, p) == a.attachment_parameter_of(t, x, p)
    &&& forall|n: u32| #[trigger] b.string_of(n)@ == a.string_of(n)@
}

/// Giving the same answers is transitive.
pub proof fn lemma_same_answers_trans<Q: StateQuery>(a: &Q, b: &Q, c: &Q)
    requires
        same_answers(a, b),
        same_answers(b, c),
    ensures
        same_answers(a, c),
{
    reveal(same_answers);
}

} // verus!
