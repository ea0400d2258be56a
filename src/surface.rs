use vstd::prelude::*;

verus! {

/// A color format that a presentation surface may advertise.
///
/// Only the formats that the selection policy can pick are told apart; every other
/// format a surface reports is `Other`.
#[derive(Clone, Copy, Debug, PartialEq, Eq, Structural)]
pub enum ColorFormat {
    Rgba8Unorm,
    Bgra8Unorm,
    Other,
}

/// Texture usage bit: the texture may be the destination of a copy.
pub const COPY_DST: u32 = 2;

/// Texture usage bit: the texture may be a render pass attachment.
pub const RENDER_ATTACHMENT: u32 = 16;

/// The formats tried for a surface, best first.
pub open spec fn priority_formats() -> Seq<ColorFormat> {
    seq![ColorFormat::Rgba8Unorm, ColorFormat::Bgra8Unorm]
}

/// The format chosen among `available`: the first of `priority_formats()` that it holds,
/// or none when it holds neither.
pub open spec fn chosen_format(available: Seq<ColorFormat>) -> Option<ColorFormat> {
    if available.contains(priority_formats()[0]) {
        Some(priority_formats()[0])
    } else if available.contains(priority_formats()[1]) {
        Some(priority_formats()[1])
    } else {
        None
    }
}

/// Whether a usage bit set allows a surface texture to be a copy destination.
pub open spec fn allows_copy_dst(usages: u32) -> bool {
    usages & COPY_DST == COPY_DST
}

/// The usages requested for a surface that supports `usages`.
pub open spec fn chosen_usage(usages: u32) -> u32 {
    if allows_copy_dst(usages) {
        RENDER_ATTACHMENT | COPY_DST
    } else {
        RENDER_ATTACHMENT
    }
}

/// Whether `format` occurs in `available`.
pub fn has_format(available: &[ColorFormat], format: ColorFormat) -> (r: bool)
    ensures
        r == available@.contains(format),
{
    let mut i: usize = 0;
    while i < available.len()
        invariant
            i <= available@.len(),
            forall|j: int| 0 <= j < i ==> available@[j] != format,
        decreases available@.len() - i,
    {
        if available[i] == format {
            return true;
        }
        i = i + 1;
    }
    false
}

/// Picks the surface format: the first of the priority list (RGBA8 before BGRA8) that
/// `available` holds, whatever order `available` lists them in.
pub fn select_format(available: &[ColorFormat]) -> (r: Option<ColorFormat>)
    ensures
        r == chosen_format(available@),
{
    if has_format(available, ColorFormat::Rgba8Unorm) {
        Some(ColorFormat::Rgba8Unorm)
    } else if has_format(available, ColorFormat::Bgra8Unorm) {
        Some(ColorFormat::Bgra8Unorm)
    } else {
        None
    }
}

/// Picks the usages to request: render attachment, plus copy destination where the
/// surface supports it.
pub fn select_usage(usages: u32) -> (r: u32)
    ensures
        r == chosen_usage(usages),
{
    if usages & COPY_DST == COPY_DST {
        RENDER_ATTACHMENT | COPY_DST
    } else {
        RENDER_ATTACHMENT
    }
}

/// When the available formats hold both RGBA8 and BGRA8, RGBA8 is chosen.
pub proof fn lemma_rgba_preferred(available: Seq<ColorFormat>)
    requires
        available.contains(ColorFormat::Rgba8Unorm),
        available.contains(ColorFormat::Bgra8Unorm),
    ensures
        chosen_format(available) == Some(ColorFormat::Rgba8Unorm),
{
}

/// The chosen format depends only on which formats are available, not on their order or
/// repetition.
pub proof fn lemma_format_order_irrelevant(a: Seq<ColorFormat>, b: Seq<ColorFormat>)
    requires
        forall|f: ColorFormat| a.contains(f) <==> b.contains(f),
    ensures
        chosen_format(a) == chosen_format(b),
{
    assert(a.contains(ColorFormat::Rgba8Unorm) <==> b.contains(ColorFormat::Rgba8Unorm));
    assert(a.contains(ColorFormat::Bgra8Unorm) <==> b.contains(ColorFormat::Bgra8Unorm));
}

/// No format is chosen exactly when neither RGBA8 nor BGRA8 is available.
pub proof fn lemma_no_format(available: Seq<ColorFormat>)
    ensures
        chosen_format(available) is None <==> (!available.contains(ColorFormat::Rgba8Unorm)
            && !available.contains(ColorFormat::Bgra8Unorm)),
{
}

/// Without copy-destination support the requested usage is render attachment alone, with
/// no copy-destination bit; with it, render attachment and copy destination.
pub proof fn lemma_usage_fallback(usages: u32)
    ensures
        !allows_copy_dst(usages) ==> chosen_usage(usages) == RENDER_ATTACHMENT && chosen_usage(
            usages,
        ) & COPY_DST == 0,
        allows_copy_dst(usages) ==> chosen_usage(usages) == RENDER_ATTACHMENT | COPY_DST
            && chosen_usage(usages) & COPY_DST == COPY_DST,
{
    assert(16u32 & 2u32 == 0u32) by (bit_vector);
    assert((16u32 | 2u32) & 2u32 == 2u32) by (bit_vector);
}

} // verus!
