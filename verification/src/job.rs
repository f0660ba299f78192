use crate::error::LoadSkyboxError;
use crate::images::CubeImageDesc;
use crate::plan::BakePlan;
use vstd::prelude::*;

verus! {

/// Whether a bake job is currently running on the background thread.
#[derive(Debug, Clone, Copy, PartialEq, Eq, Structural)]
pub enum JobPhase {
    Idle,
    Loading,
}

/// The environment binding the shading pipeline reads: the three cube
/// images of the last successful bake. It is replaced whole on completion,
/// never mutated in place; `generation` counts the replacements so stale
/// bindings are distinguishable.
#[derive(Debug, Clone, Copy, PartialEq, Eq, Structural)]
pub struct EnvBinding {
    pub raw: CubeImageDesc,
    pub irradiance: CubeImageDesc,
    pub specular: CubeImageDesc,
    pub generation: u64,
}

/// The startup binding: a one-texel placeholder cube in every slot, in
/// place until the first bake finishes.
pub open spec fn spec_placeholder_binding() -> EnvBinding {
    EnvBinding {
        raw: CubeImageDesc { size: 1, mips: 1 },
        irradiance: CubeImageDesc { size: 1, mips: 1 },
        specular: CubeImageDesc { size: 1, mips: 1 },
        generation: 0,
    }
}

/// What the caller of `load` must do next: spawn a background bake, or
/// nothing because one is already in flight.
#[derive(Debug, Clone, Copy, PartialEq, Eq, Structural)]
pub enum LoadAction {
    Spawn,
    Ignore,
}

/// What the caller of `update` must do next: install the freshly completed
/// binding into the shading pipeline's descriptor slot, or leave the
/// current one bound.
#[derive(Debug, Clone, Copy, PartialEq, Eq, Structural)]
pub enum UpdateAction {
    Install,
    Keep,
}

/// The owner-side state of the skybox: the phase of the background job and
/// the environment binding currently active. The thread itself, the GPU
/// resources and the decoded pixels live with the renderer; every decision
/// about them is taken here.
pub struct Skybox {
    pub phase: JobPhase,
    pub env: EnvBinding,
}

/// The `load` transition: a no-op while a job is in flight, otherwise the
/// job starts and the active binding stays as it is.
pub open spec fn spec_load(s: Skybox) -> (Skybox, LoadAction) {
    if s.phase is Loading {
        (s, LoadAction::Ignore)
    } else {
        (Skybox { phase: JobPhase::Loading, env: s.env }, LoadAction::Spawn)
    }
}

/// The `update` transition for the result the finished job handed back, or
/// `None` while it is still running: only a successful bake replaces the
/// active binding, and only then is the new binding installed.
pub open spec fn spec_update(
    s: Skybox,
    result: Option<Result<BakePlan, LoadSkyboxError>>,
) -> (Skybox, UpdateAction) {
    if s.phase is Loading && result is Some {
        match result->0 {
            Ok(plan) => (
                Skybox {
                    phase: JobPhase::Idle,
                    env: EnvBinding {
                        raw: plan.raw,
                        irradiance: plan.irradiance,
                        specular: plan.specular,
                        generation: (s.env.generation + 1) as u64,
                    },
                },
                UpdateAction::Install,
            ),
            Err(_) => (Skybox { phase: JobPhase::Idle, env: s.env }, UpdateAction::Keep),
        }
    } else {
        (s, UpdateAction::Keep)
    }
}

impl Skybox {
    /// Starts idle, bound to the one-texel placeholder environment.
    pub fn new() -> (r: Skybox)
        ensures
            r.phase is Idle,
            r.env == spec_placeholder_binding(),
    {
        Skybox {
            phase: JobPhase::Idle,
            env: EnvBinding {
                raw: CubeImageDesc { size: 1, mips: 1 },
                irradiance: CubeImageDesc { size: 1, mips: 1 },
                specular: CubeImageDesc { size: 1, mips: 1 },
                generation: 0,
            },
        }
    }

    /// Requests a bake. While one is already loading this is a no-op and
    /// the caller must not spawn a second thread; otherwise the job enters
    /// `Loading` and the caller spawns exactly one background bake. The
    /// active environment is untouched either way.
    pub fn load(&mut self) -> (action: LoadAction)
        ensures
            (*final(self), action) == spec_load(*old(self)),
            old(self).phase is Loading ==> *final(self) == *old(self) && action is Ignore,
            old(self).phase is Idle ==> final(self).phase is Loading && action is Spawn,
            final(self).env == old(self).env,
    {
        match self.phase {
            JobPhase::Loading => LoadAction::Ignore,
            JobPhase::Idle => {
                self.phase = JobPhase::Loading;
                LoadAction::Spawn
            },
        }
    }

    /// Whether a bake job is in flight.
    pub fn loading(&self) -> (r: bool)
        ensures
            r <==> self.phase is Loading,
    {
        match self.phase {
            JobPhase::Loading => true,
            JobPhase::Idle => false,
        }
    }

    /// Consumes the result of the background job, polled once per frame:
    /// `None` while the job still runs, `Some` once it finished. A
    /// successful bake becomes the new active binding, one generation up;
    /// a failed bake leaves the active environment exactly as it was.
    pub fn update(&mut self, result: Option<Result<BakePlan, LoadSkyboxError>>) -> (action:
        UpdateAction)
        requires
            old(self).env.generation < u64::MAX,
        ensures
            (*final(self), action) == spec_update(*old(self), result),
            result is None ==> *final(self) == *old(self) && action is Keep,
            old(self).phase is Idle ==> *final(self) == *old(self) && action is Keep,
            old(self).phase is Loading && (result matches Some(Err(_))) ==> {
                &&& final(self).env == old(self).env
                &&& final(self).phase is Idle
                &&& action is Keep
            },
            old(self).phase is Loading ==> (result matches Some(Ok(plan)) ==> {
                &&& final(self).phase is Idle
                &&& action is Install
                &&& final(self).env.raw == plan.raw
                &&& final(self).env.irradiance == plan.irradiance
                &&& final(self).env.specular == plan.specular
                &&& final(self).env.generation == old(self).env.generation + 1
            }),
    {
        if let JobPhase::Loading = self.phase {
            match result {
                None => UpdateAction::Keep,
                Some(Ok(plan)) => {
                    self.phase = JobPhase::Idle;
                    self.env = EnvBinding {
                        raw: plan.raw,
                        irradiance: plan.irradiance,
                        specular: plan.specular,
                        generation: self.env.generation + 1,
                    };
                    UpdateAction::Install
                },
                Some(Err(_)) => {
                    self.phase = JobPhase::Idle;
                    UpdateAction::Keep
                },
            }
        } else {
            UpdateAction::Keep
        }
    }
}

/// Single-flight: after any `load`, a second `load` before the job
/// completes changes nothing and spawns no second background thread.
pub proof fn lemma_single_flight(s: Skybox)
    ensures
        ({
            let (s1, _) = spec_load(s);
            spec_load(s1) == (s1, LoadAction::Ignore)
        }),
{
}

/// A failed bake leaves the active environment binding unchanged, whatever
/// the error was and whatever was active before.
pub proof fn lemma_failed_bake_keeps_env(s: Skybox, e: LoadSkyboxError)
    ensures
        spec_update(s, Some(Err(e))).0.env == s.env,
        spec_update(s, Some(Err(e))).1 == UpdateAction::Keep,
{
}

/// The environment binding changes only when a finished job hands back a
/// successful bake; polling a running or idle job keeps it bitwise intact.
pub proof fn lemma_env_changes_only_on_success(
    s: Skybox,
    result: Option<Result<BakePlan, LoadSkyboxError>>,
)
    requires
        spec_update(s, result).0.env != s.env,
    ensures
        s.phase is Loading,
        result matches Some(Ok(_)),
{
}

} // verus!
