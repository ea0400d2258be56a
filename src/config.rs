use vstd::prelude::*;

use crate::setup::SetupError;
use crate::surface::{
    allows_copy_dst, chosen_format, chosen_usage, select_format, select_usage, ColorFormat, COPY_DST,
};

verus! {

/// The frame latency asked of every configured surface.
pub const FRAME_LATENCY: u32 = 2;

/// What a surface reports it can do with a given adapter.
///
/// `M` is the present mode type and `A` the alpha mode type of the graphics API; they are
/// carried through unread.
pub struct SurfaceCaps<M, A> {
    pub formats: Vec<ColorFormat>,
    pub usages: u32,
    pub present_modes: Vec<M>,
    pub alpha_modes: Vec<A>,
}

/// The configuration that a surface is given.
pub struct SurfacePlan<M, A> {
    pub usage: u32,
    pub format: ColorFormat,
    pub width: u32,
    pub height: u32,
    pub present_mode: M,
    pub alpha_mode: A,
    pub frame_latency: u32,
    pub view_formats: Vec<ColorFormat>,
    /// Set when the surface cannot be a copy destination, so only rendering is requested.
    pub compatibility_mode: bool,
}

impl<M, A> SurfaceCaps<M, A> {
    /// Both mode lists have a first entry to take.
    pub open spec fn has_modes(&self) -> bool {
        self.present_modes@.len() > 0 && self.alpha_modes@.len() > 0
    }
}

/// Whether `plan` is the configuration owed to a surface with capabilities `caps` inside a
/// window of `width` by `height` pixels.
pub open spec fn plans<M, A>(
    caps: SurfaceCaps<M, A>,
    width: u32,
    height: u32,
    plan: SurfacePlan<M, A>,
) -> bool {
    &&& chosen_format(caps.formats@) == Some(plan.format)
    &&& plan.usage == chosen_usage(caps.usages)
    &&& plan.compatibility_mode == !allows_copy_dst(caps.usages)
    &&& plan.width == width
    &&& plan.height == height
    &&& plan.present_mode == caps.present_modes@[0]
    &&& plan.alpha_mode == caps.alpha_modes@[0]
    &&& plan.frame_latency == FRAME_LATENCY
    &&& plan.view_formats@.len() == 0
}

/// Computes the configuration of a surface from its capabilities and the window's inner
/// size: the prioritized format, the usages it supports, its first present and alpha modes.
///
/// Fails with `UnsupportedSurfaceFormat` exactly when the surface offers neither
/// prioritized format.
pub fn plan_surface<M: Copy, A: Copy>(
    caps: &SurfaceCaps<M, A>,
    width: u32,
    height: u32,
) -> (r: Result<SurfacePlan<M, A>, SetupError>)
    requires
        caps.has_modes(),
    ensures
        chosen_format(caps.formats@) is None <==> r == Err::<SurfacePlan<M, A>, SetupError>(
            SetupError::UnsupportedSurfaceFormat,
        ),
        r is Ok ==> plans(*caps, width, height, r->Ok_0),
        chosen_format(caps.formats@) is Some ==> r is Ok,
{
    let usage = select_usage(caps.usages);
    let compatibility_mode = caps.usages & COPY_DST != COPY_DST;
    let format = match select_format(caps.formats.as_slice()) {
        Some(f) => f,
        None => {
            return Err(SetupError::UnsupportedSurfaceFormat);
        },
    };
    Ok(
        SurfacePlan {
            usage,
            format,
            width,
            height,
            present_mode: caps.present_modes[0],
            alpha_mode: caps.alpha_modes[0],
            frame_latency: FRAME_LATENCY,
            view_formats: Vec::new(),
            compatibility_mode,
        },
    )
}

} // verus!
