//! Normalisation of raw query answers: enum decoding, attachment probes, and the
//! corrections for known driver errata.
use vstd::prelude::*;
use crate::query::{
    AMD_NO_RESET_NOTIFICATION, CONTEXT_FLAG_ROBUST_ACCESS_BIT, CONTEXT_RELEASE_BEHAVIOR_FLUSH,
    LOSE_CONTEXT_ON_RESET, NONE, NO_RESET_NOTIFICATION, SRGB,
};

verus! {

/// What happens when another context is made current.
#[derive(Copy, Clone, Debug, PartialEq, Eq, Structural)]
pub enum ReleaseBehavior {
    /// Nothing is done when using another context.
    NoFlush,
    /// The command queue of the current context is flushed.
    Flush,
}

/// An answer of the driver that matches none of the values defined for it.
///
/// Capability values steer decisions that must be right, so such an answer
/// stops resolution instead of being guessed at.
#[derive(Copy, Clone, Debug, PartialEq, Eq, Structural)]
pub enum CapabilityError {
    /// The reset-notification strategy had this value.
    UnknownResetNotificationStrategy(i32),
    /// The release behaviour had this value.
    UnknownReleaseBehavior(i32),
}

/// The ceiling on texture image units for renderers with the texture-unit erratum.
pub const CLAMPED_TEXTURE_UNITS: i32 = 32;

/// The reset-notification strategy values that decode, and what each means:
/// whether the context can be lost.
pub open spec fn reset_notification_spec(raw: i32) -> Option<bool> {
    if raw == LOSE_CONTEXT_ON_RESET as i32 {
        Some(true)
    } else if raw == NO_RESET_NOTIFICATION as i32 || raw == AMD_NO_RESET_NOTIFICATION as i32 {
        Some(false)
    } else {
        None
    }
}

/// Decodes a reset-notification strategy into whether the context can be lost.
///
/// The out-of-specification value that some AMD drivers return is read as
/// "no reset notification".
pub fn decode_reset_notification(raw: i32) -> (r: Result<bool, CapabilityError>)
    ensures
        reset_notification_spec(raw) matches Some(b) ==> r == Ok::<bool, CapabilityError>(b),
        reset_notification_spec(raw) is None ==> r == Err::<bool, CapabilityError>(
            CapabilityError::UnknownResetNotificationStrategy(raw),
        ),
{
    if raw == LOSE_CONTEXT_ON_RESET as i32 {
        Ok(true)
    } else if raw == NO_RESET_NOTIFICATION as i32 || raw == AMD_NO_RESET_NOTIFICATION as i32 {
        Ok(false)
    } else {
        Err(CapabilityError::UnknownResetNotificationStrategy(raw))
    }
}

/// The release behaviour values that decode.
pub open spec fn release_behavior_spec(raw: i32) -> Option<ReleaseBehavior> {
    if raw == NONE as i32 {
        Some(ReleaseBehavior::NoFlush)
    } else if raw == CONTEXT_RELEASE_BEHAVIOR_FLUSH as i32 {
        Some(ReleaseBehavior::Flush)
    } else {
        None
    }
}

/// Decodes a release behaviour.
pub fn decode_release_behavior(raw: i32) -> (r: Result<ReleaseBehavior, CapabilityError>)
    ensures
        release_behavior_spec(raw) matches Some(b) ==> r == Ok::<ReleaseBehavior, CapabilityError>(b),
        release_behavior_spec(raw) is None ==> r == Err::<ReleaseBehavior, CapabilityError>(
            CapabilityError::UnknownReleaseBehavior(raw),
        ),
{
    if raw == NONE as i32 {
        Ok(ReleaseBehavior::NoFlush)
    } else if raw == CONTEXT_RELEASE_BEHAVIOR_FLUSH as i32 {
        Ok(ReleaseBehavior::Flush)
    } else {
        Err(CapabilityError::UnknownReleaseBehavior(raw))
    }
}

/// Whether the context flags `flags` hold the robust-access bit.
pub fn robust_access_from_flags(flags: i32) -> (r: bool)
    ensures
        r == (flags as u32 & CONTEXT_FLAG_ROBUST_ACCESS_BIT != 0),
{
    flags as u32 & CONTEXT_FLAG_ROBUST_ACCESS_BIT != 0
}

/// Whether a colour encoding is sRGB.
pub fn srgb_from_encoding(encoding: i32) -> (r: bool)
    ensures
        r == (encoding == SRGB as i32),
{
    encoding == SRGB as i32
}

/// Whether an attachment-type probe found an attached object. When it did not,
/// the size of the attachment is not queried: it is zero.
pub fn attachment_present(object_type: i32) -> (r: bool)
    ensures
        r == (object_type != NONE as i32),
{
    object_type != NONE as i32
}

/// A bit count as recorded: zero means the buffer is absent.
pub open spec fn bits_spec(raw: i32) -> Option<u16> {
    if raw == 0 {
        None
    } else {
        Some(raw as u16)
    }
}

/// Turns a raw bit count into the recorded value: `None` for zero, the count
/// (cut to 16 bits) otherwise.
pub fn bits_from_raw(raw: i32) -> (r: Option<u16>)
    ensures
        r == bits_spec(raw),
{
    if raw == 0 {
        None
    } else {
        Some(raw as u16)
    }
}

/// `p` occurs in `s` as a contiguous run of characters.
pub open spec fn contains_spec(s: Seq<char>, p: Seq<char>) -> bool {
    exists|i: int| 0 <= i && i + p.len() <= s.len() && #[trigger] s.subrange(i, i + p.len()) == p
}

/// Relies on `str::contains`: true exactly when the pattern matches a sub-slice
/// of the string.
#[verifier::external_body]
fn str_contains(s: &str, p: &str) -> (r: bool)
    ensures
        r == contains_spec(s@, p@),
{
    s.contains(p)
}

/// The renderer names a Radeon GPU.
pub open spec fn radeon_renderer(renderer: Seq<char>) -> bool {
    contains_spec(renderer, "Radeon"@)
}

/// The recorded texture-unit count: the raw count, capped at the ceiling for a
/// Radeon renderer.
pub open spec fn texture_units_spec(raw: i32, renderer: Seq<char>) -> i32 {
    if radeon_renderer(renderer) && raw > CLAMPED_TEXTURE_UNITS {
        CLAMPED_TEXTURE_UNITS
    } else {
        raw
    }
}

/// The number of texture image units as recorded: some Radeon drivers crash
/// on units past the ceiling, so for them the count is capped; for every other
/// renderer the raw count stands.
pub fn clamp_texture_units(raw: i32, renderer: &str) -> (r: i32)
    ensures
        r == texture_units_spec(raw, renderer@),
{
    if str_contains(renderer, "Radeon") && raw > CLAMPED_TEXTURE_UNITS {
        CLAMPED_TEXTURE_UNITS
    } else {
        raw
    }
}

} // verus!
