use vstd::prelude::*;
use crate::error::{BringUpError, Error};

verus! {

/// The stages of GPU context bring-up, strictly ordered. `Active` is
/// terminal: after it, drawing and presenting are permitted and no
/// further bring-up step is.
#[derive(Clone, Copy, PartialEq, Eq, Structural, Debug)]
pub enum Stage {
    Uninitialized,
    DisplayAcquired,
    DisplayInitialized,
    ConfigChosen,
    ApiBound,
    ContextCreated,
    SurfaceCreated,
    Active,
}

/// The one-time negotiation steps, one per stage transition.
#[derive(Clone, Copy, PartialEq, Eq, Structural, Debug)]
pub enum Step {
    AcquireDisplay,
    InitializeDisplay,
    ChooseConfig,
    BindApi,
    CreateContext,
    CreateSurface,
    MakeCurrent,
}

/// Position of a stage in the bring-up order.
pub open spec fn stage_rank(s: Stage) -> int {
    match s {
        Stage::Uninitialized => 0,
        Stage::DisplayAcquired => 1,
        Stage::DisplayInitialized => 2,
        Stage::ConfigChosen => 3,
        Stage::ApiBound => 4,
        Stage::ContextCreated => 5,
        Stage::SurfaceCreated => 6,
        Stage::Active => 7,
    }
}

/// The single step a stage expects next; the terminal stage expects none.
pub open spec fn expected_step(s: Stage) -> Option<Step> {
    match s {
        Stage::Uninitialized => Some(Step::AcquireDisplay),
        Stage::DisplayAcquired => Some(Step::InitializeDisplay),
        Stage::DisplayInitialized => Some(Step::ChooseConfig),
        Stage::ConfigChosen => Some(Step::BindApi),
        Stage::ApiBound => Some(Step::CreateContext),
        Stage::ContextCreated => Some(Step::CreateSurface),
        Stage::SurfaceCreated => Some(Step::MakeCurrent),
        Stage::Active => None,
    }
}

/// The stage reached when the expected step succeeds.
pub open spec fn next_stage(s: Stage) -> Stage {
    match s {
        Stage::Uninitialized => Stage::DisplayAcquired,
        Stage::DisplayAcquired => Stage::DisplayInitialized,
        Stage::DisplayInitialized => Stage::ConfigChosen,
        Stage::ConfigChosen => Stage::ApiBound,
        Stage::ApiBound => Stage::ContextCreated,
        Stage::ContextCreated => Stage::SurfaceCreated,
        Stage::SurfaceCreated => Stage::Active,
        Stage::Active => Stage::Active,
    }
}

/// The GPU rendering context as the bring-up state machine sees it: the
/// native handles (display, config, context, surface) live on the
/// unverified side of the seam; what the core tracks and enforces is the
/// stage the negotiation has reached.
#[derive(Clone, Copy, PartialEq, Eq, Structural, Debug)]
pub struct Context {
    stage: Stage,
}

impl View for Context {
    type V = Stage;

    closed spec fn view(&self) -> Stage {
        self.stage
    }
}

impl Context {
    /// A fresh context: no negotiation has happened yet.
    pub fn new() -> (c: Context)
        ensures
            c@ == Stage::Uninitialized,
    {
        Context { stage: Stage::Uninitialized }
    }

    /// The stage the bring-up has reached.
    pub fn current_stage(&self) -> (s: Stage)
        ensures
            s == self@,
    {
        self.stage
    }

    /// Whether the context reached the terminal `Active` stage, after
    /// which drawing and presenting are permitted.
    pub fn is_active(&self) -> (b: bool)
        ensures
            b == (self@ is Active),
    {
        match self.stage {
            Stage::Active => true,
            _ => false,
        }
    }

    /// The single forward-only transition of the bring-up state machine.
    ///
    /// `step` names the negotiation step the caller performed and
    /// `succeeded` reports the driver's verdict on it. The transition
    /// advances exactly when `step` is the one the current stage expects
    /// and it succeeded; a failed expected step and any out-of-order
    /// step (skipped, repeated, or after `Active`) are rejected with a
    /// typed fatal error and leave the stage unchanged.
    pub fn advance(&mut self, step: Step, succeeded: bool) -> (r: Result<(), Error>)
        ensures
            expected_step(old(self)@) == Some(step) && succeeded ==> r == Ok::<(), Error>(())
                && final(self)@ == next_stage(old(self)@),
            expected_step(old(self)@) == Some(step) && !succeeded ==> r == Err::<(), Error>(
                Error::BringUp(BringUpError::StepFailed { step })) && final(self)@ == old(self)@,
            expected_step(old(self)@) != Some(step) ==> r == Err::<(), Error>(
                Error::BringUp(BringUpError::OutOfOrder { step })) && final(self)@ == old(self)@,
            r is Ok <==> expected_step(old(self)@) == Some(step) && succeeded,
    {
        let expected: Option<Step> = match self.stage {
            Stage::Uninitialized => Some(Step::AcquireDisplay),
            Stage::DisplayAcquired => Some(Step::InitializeDisplay),
            Stage::DisplayInitialized => Some(Step::ChooseConfig),
            Stage::ConfigChosen => Some(Step::BindApi),
            Stage::ApiBound => Some(Step::CreateContext),
            Stage::ContextCreated => Some(Step::CreateSurface),
            Stage::SurfaceCreated => Some(Step::MakeCurrent),
            Stage::Active => None,
        };
        match expected {
            Some(e) => {
                if e == step {
                    if succeeded {
                        self.stage = match self.stage {
                            Stage::Uninitialized => Stage::DisplayAcquired,
                            Stage::DisplayAcquired => Stage::DisplayInitialized,
                            Stage::DisplayInitialized => Stage::ConfigChosen,
                            Stage::ConfigChosen => Stage::ApiBound,
                            Stage::ApiBound => Stage::ContextCreated,
                            Stage::ContextCreated => Stage::SurfaceCreated,
                            Stage::SurfaceCreated => Stage::Active,
                            Stage::Active => Stage::Active,
                        };
                        Ok(())
                    } else {
                        Err(Error::BringUp(BringUpError::StepFailed { step }))
                    }
                } else {
                    Err(Error::BringUp(BringUpError::OutOfOrder { step }))
                }
            },
            None => Err(Error::BringUp(BringUpError::OutOfOrder { step })),
        }
    }
}

/// Attribute key for the red channel depth of a configuration.
pub const ATTRIB_RED_SIZE: i32 = 0x3024;

/// Attribute key for the green channel depth of a configuration.
pub const ATTRIB_GREEN_SIZE: i32 = 0x3023;

/// Attribute key for the blue channel depth of a configuration.
pub const ATTRIB_BLUE_SIZE: i32 = 0x3022;

/// Attribute key for the alpha channel depth of a configuration.
pub const ATTRIB_ALPHA_SIZE: i32 = 0x3021;

/// Attribute key for the surface types a configuration must support.
pub const ATTRIB_SURFACE_TYPE: i32 = 0x3033;

/// Surface-type bit for window surfaces.
pub const WINDOW_SURFACE_BIT: i32 = 0x0004;

/// Attribute key for the client API version of a context.
pub const ATTRIB_CONTEXT_CLIENT_VERSION: i32 = 0x3098;

/// Terminator of every attribute list.
pub const ATTRIB_LIST_END: i32 = 0x3038;

/// The capability request of the configuration-selection step: channel
/// depths in bits, and whether the configuration must support window
/// surfaces.
#[derive(Clone, Copy, PartialEq, Eq, Structural, Debug)]
pub struct ConfigRequest {
    pub red_bits: u8,
    pub green_bits: u8,
    pub blue_bits: u8,
    pub alpha_bits: u8,
    pub window_surface: bool,
}

/// The one capability request of this design: an RGBA window-surface
/// configuration with eight bits per channel. Exactly one candidate is
/// requested, with no fallback ranking.
pub fn rgba8888_window_config() -> (c: ConfigRequest)
    ensures
        c == (ConfigRequest {
            red_bits: 8,
            green_bits: 8,
            blue_bits: 8,
            alpha_bits: 8,
            window_surface: true,
        }),
{
    ConfigRequest { red_bits: 8, green_bits: 8, blue_bits: 8, alpha_bits: 8, window_surface: true }
}

/// The key/value attribute list of the configuration request, in the
/// layout the configuration-selection call consumes, closed by the list
/// terminator.
pub fn config_attrib_list(c: &ConfigRequest) -> (v: Vec<i32>)
    ensures
        v@ == seq![
            ATTRIB_RED_SIZE as i32, c.red_bits as i32,
            ATTRIB_GREEN_SIZE as i32, c.green_bits as i32,
            ATTRIB_BLUE_SIZE as i32, c.blue_bits as i32,
            ATTRIB_ALPHA_SIZE as i32, c.alpha_bits as i32,
            ATTRIB_SURFACE_TYPE as i32, (if c.window_surface { WINDOW_SURFACE_BIT as i32 } else { 0i32 }),
            ATTRIB_LIST_END as i32,
        ],
{
    let mut v: Vec<i32> = Vec::new();
    v.push(ATTRIB_RED_SIZE);
    v.push(c.red_bits as i32);
    v.push(ATTRIB_GREEN_SIZE);
    v.push(c.green_bits as i32);
    v.push(ATTRIB_BLUE_SIZE);
    v.push(c.blue_bits as i32);
    v.push(ATTRIB_ALPHA_SIZE);
    v.push(c.alpha_bits as i32);
    v.push(ATTRIB_SURFACE_TYPE);
    if c.window_surface {
        v.push(WINDOW_SURFACE_BIT);
    } else {
        v.push(0);
    }
    v.push(ATTRIB_LIST_END);
    proof {
        assert(v@ =~= seq![
            ATTRIB_RED_SIZE as i32, c.red_bits as i32,
            ATTRIB_GREEN_SIZE as i32, c.green_bits as i32,
            ATTRIB_BLUE_SIZE as i32, c.blue_bits as i32,
            ATTRIB_ALPHA_SIZE as i32, c.alpha_bits as i32,
            ATTRIB_SURFACE_TYPE as i32, (if c.window_surface { WINDOW_SURFACE_BIT as i32 } else { 0i32 }),
            ATTRIB_LIST_END as i32,
        ]);
    }
    v
}

/// The attribute list of the context-creation step: it requests the
/// given client API version (the design asks for version 2 semantics),
/// closed by the list terminator.
pub fn context_attrib_list(client_version: i32) -> (v: Vec<i32>)
    ensures
        v@ == seq![ATTRIB_CONTEXT_CLIENT_VERSION as i32, client_version, ATTRIB_LIST_END as i32],
{
    let mut v: Vec<i32> = Vec::new();
    v.push(ATTRIB_CONTEXT_CLIENT_VERSION);
    v.push(client_version);
    v.push(ATTRIB_LIST_END);
    proof {
        assert(v@ =~= seq![
            ATTRIB_CONTEXT_CLIENT_VERSION as i32,
            client_version,
            ATTRIB_LIST_END as i32,
        ]);
    }
    v
}

/// Bring-up is order-sensitive and forward-only: each stage has at most
/// one step it accepts, a successful step advances the rank by exactly
/// one (no stage is ever skipped or repeated), and only the terminal
/// `Active` stage accepts no step at all.
pub proof fn lemma_bring_up_forward_only(s: Stage, step: Step)
    ensures
        expected_step(s) == Some(step) ==> stage_rank(next_stage(s)) == stage_rank(s) + 1,
        expected_step(s) is None <==> s is Active,
        forall|t: Step|
            expected_step(s) == Some(step) && expected_step(s) == Some(t) ==> t == step,
{
}

} // verus!
