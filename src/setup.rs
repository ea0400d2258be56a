use vstd::prelude::*;

use crate::config::{plan_surface, plans, SurfaceCaps, SurfacePlan};
use crate::surface::chosen_format;

verus! {

/// Why building a manager failed.
#[derive(Clone, Copy, Debug, PartialEq, Eq, Structural)]
pub enum SetupError {
    /// No adapter matches the requested backends and surface.
    AdapterUnavailable,
    /// The adapter could not provide a device for the requested descriptor.
    DeviceCreationFailed,
    /// The platform could not create the window.
    WindowCreationFailed,
    /// The instance could not bind a surface to the window.
    SurfaceCreationFailed,
    /// The surface offers none of the prioritized formats.
    UnsupportedSurfaceFormat,
}

} // verus!

verus! {

/// A step of building a manager.
#[derive(Clone, Copy, Debug, PartialEq, Eq, Structural)]
pub enum Stage {
    /// Creating the API instance over all backends.
    Instance,
    /// Creating the window, maximized, not resizable, with a fixed title.
    Window,
    /// Binding a presentation surface to the window.
    Surface,
    /// Requesting an adapter, compatible with the surface if there is one.
    Adapter,
    /// Requesting the device and its queue, with no required features.
    Device,
    /// Choosing the surface configuration and applying it.
    Configuration,
    /// Every step succeeded.
    Ready,
}

/// The steps taken, in order, by a headless or a windowed build.
pub open spec fn stages(windowed: bool) -> Seq<Stage> {
    if windowed {
        seq![
            Stage::Instance,
            Stage::Window,
            Stage::Surface,
            Stage::Adapter,
            Stage::Device,
            Stage::Configuration,
            Stage::Ready,
        ]
    } else {
        seq![Stage::Instance, Stage::Adapter, Stage::Device, Stage::Ready]
    }
}

/// Whether `next` directly follows `cur` in the steps of a build.
pub open spec fn follows(windowed: bool, cur: Stage, next: Stage) -> bool {
    exists|i: int|
        0 <= i < stages(windowed).len() - 1 && #[trigger] stages(windowed)[i] == cur && stages(
            windowed,
        )[i + 1] == next
}

/// The error reported when the step `stage` fails; `None` for steps that cannot fail.
pub open spec fn failure_of(stage: Stage) -> Option<SetupError> {
    match stage {
        Stage::Window => Some(SetupError::WindowCreationFailed),
        Stage::Surface => Some(SetupError::SurfaceCreationFailed),
        Stage::Adapter => Some(SetupError::AdapterUnavailable),
        Stage::Device => Some(SetupError::DeviceCreationFailed),
        Stage::Configuration => Some(SetupError::UnsupportedSurfaceFormat),
        _ => None,
    }
}

/// The progress of one build of a manager: which mode it builds and the step it is at.
///
/// The caller performs each step and reports how it went; the build fails at the first
/// step that fails and is not retried.
pub struct Setup {
    windowed: bool,
    stage: Stage,
}

impl Setup {
    pub closed spec fn is_windowed_spec(&self) -> bool {
        self.windowed
    }

    pub closed spec fn stage_spec(&self) -> Stage {
        self.stage
    }

    /// The build is at one of the steps of its mode.
    pub open spec fn wf(&self) -> bool {
        stages(self.is_windowed_spec()).contains(self.stage_spec())
    }

    /// Starts a build without a window: device and queue only.
    pub fn headless() -> (r: Setup)
        ensures
            r.wf(),
            !r.is_windowed_spec(),
            r.stage_spec() == Stage::Instance,
    {
        let r = Setup { windowed: false, stage: Stage::Instance };
        assert(stages(false)[0] == Stage::Instance);
        r
    }

    /// Starts a build that also creates a window and configures its surface.
    pub fn windowed() -> (r: Setup)
        ensures
            r.wf(),
            r.is_windowed_spec(),
            r.stage_spec() == Stage::Instance,
    {
        let r = Setup { windowed: true, stage: Stage::Instance };
        assert(stages(true)[0] == Stage::Instance);
        r
    }

    pub fn is_windowed(&self) -> (r: bool)
        ensures
            r == self.is_windowed_spec(),
    {
        self.windowed
    }

    pub fn stage(&self) -> (r: Stage)
        ensures
            r == self.stage_spec(),
    {
        self.stage
    }

    /// Records that the current step succeeded and moves to the next one.
    pub fn advance(&mut self)
        requires
            old(self).wf(),
            old(self).stage_spec() != Stage::Ready,
        ensures
            final(self).wf(),
            final(self).is_windowed_spec() == old(self).is_windowed_spec(),
            follows(old(self).is_windowed_spec(), old(self).stage_spec(), final(self).stage_spec()),
    {
        let w = self.windowed;
        let ghost s = stages(w);
        let next = if w {
            match self.stage {
                Stage::Instance => {
                    assert(s[0] == Stage::Instance && s[1] == Stage::Window);
                    Stage::Window
                },
                Stage::Window => {
                    assert(s[1] == Stage::Window && s[2] == Stage::Surface);
                    Stage::Surface
                },
                Stage::Surface => {
                    assert(s[2] == Stage::Surface && s[3] == Stage::Adapter);
                    Stage::Adapter
                },
                Stage::Adapter => {
                    assert(s[3] == Stage::Adapter && s[4] == Stage::Device);
                    Stage::Device
                },
                Stage::Device => {
                    assert(s[4] == Stage::Device && s[5] == Stage::Configuration);
                    Stage::Configuration
                },
                _ => {
                    assert(s[5] == Stage::Configuration && s[6] == Stage::Ready);
                    Stage::Ready
                },
            }
        } else {
            match self.stage {
                Stage::Instance => {
                    assert(s[0] == Stage::Instance && s[1] == Stage::Adapter);
                    Stage::Adapter
                },
                Stage::Adapter => {
                    assert(s[1] == Stage::Adapter && s[2] == Stage::Device);
                    Stage::Device
                },
                _ => {
                    assert(s[2] == Stage::Device && s[3] == Stage::Ready);
                    Stage::Ready
                },
            }
        };
        self.stage = next;
        assert(s.contains(next));
    }

    /// The error that the build reports when its current step fails.
    pub fn failure(&self) -> (r: SetupError)
        requires
            failure_of(self.stage_spec()) is Some,
        ensures
            failure_of(self.stage_spec()) == Some(r),
    {
        match self.stage {
            Stage::Window => SetupError::WindowCreationFailed,
            Stage::Surface => SetupError::SurfaceCreationFailed,
            Stage::Adapter => SetupError::AdapterUnavailable,
            Stage::Device => SetupError::DeviceCreationFailed,
            _ => SetupError::UnsupportedSurfaceFormat,
        }
    }

    /// Runs the configuration step: chooses the surface configuration from the surface's
    /// capabilities and the window's inner size. On success the build is ready and the
    /// configuration is to be applied; when no prioritized format is offered the build fails
    /// there and nothing is to be applied.
    pub fn configure<M: Copy, A: Copy>(
        &mut self,
        caps: &SurfaceCaps<M, A>,
        width: u32,
        height: u32,
    ) -> (r: Result<SurfacePlan<M, A>, SetupError>)
        requires
            old(self).wf(),
            old(self).stage_spec() == Stage::Configuration,
            caps.has_modes(),
        ensures
            final(self).wf(),
            final(self).is_windowed_spec() == old(self).is_windowed_spec(),
            r is Ok <==> chosen_format(caps.formats@) is Some,
            r is Ok ==> plans(*caps, width, height, r->Ok_0) && final(self).stage_spec()
                == Stage::Ready,
            r is Err ==> r == Err::<SurfacePlan<M, A>, SetupError>(
                SetupError::UnsupportedSurfaceFormat,
            ) && final(self).stage_spec() == Stage::Configuration,
    {
        let r = plan_surface(caps, width, height);
        if r.is_ok() {
            self.stage = Stage::Ready;
            assert(stages(self.windowed)[6] == Stage::Ready);
        }
        r
    }
}

/// A headless build never creates a window or a surface and never configures one; a
/// windowed build does all three.
pub proof fn lemma_modes_exclusive()
    ensures
        !stages(false).contains(Stage::Window),
        !stages(false).contains(Stage::Surface),
        !stages(false).contains(Stage::Configuration),
        stages(true).contains(Stage::Window),
        stages(true).contains(Stage::Surface),
        stages(true).contains(Stage::Configuration),
{
    let h = stages(false);
    let w = stages(true);
    assert(forall|i: int| 0 <= i < h.len() ==> h[i] != Stage::Window && h[i] != Stage::Surface
        && h[i] != Stage::Configuration);
    assert(w[1] == Stage::Window && w[2] == Stage::Surface && w[5] == Stage::Configuration);
}

} // verus!
