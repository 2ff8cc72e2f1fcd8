use vstd::prelude::*;
use crate::color::{trimmed_color, trimmed_of, Rgba8};
use crate::error::GlassError;

verus! {

/// What the caller asks of a new glass surface. Whether the corners are
/// rounded is decided by the caller from its corner radius (a radius above
/// zero rounds them); the radius itself stays with the toolkit layer.
#[derive(Debug, Clone)]
pub struct EffectOptions {
    /// Insert an opaque backing surface behind the effect surface.
    pub opaque: bool,
    /// Enable layer backing, corner rounding and clipping.
    pub round_corners: bool,
    /// Tint colour as `#RRGGBB` or `#RRGGBBAA`.
    pub tint_color: Option<String>,
}

/// The fixed sub-properties of the fallback effect surface.
#[derive(Debug, Clone, Copy, PartialEq, Eq)]
pub struct FallbackConfig {
    /// Blending mode; 0 blends with what is behind the window.
    pub blending_mode: i64,
    /// Material; 0 is the default material.
    pub material: i64,
    /// State; 1 is always active.
    pub state: i64,
}

/// Behind-window blending, default material, active state.
pub open spec fn standard_fallback() -> FallbackConfig {
    FallbackConfig { blending_mode: 0, material: 0, state: 1 }
}

impl FallbackConfig {
    /// The configuration every fallback surface receives.
    pub fn standard() -> (r: FallbackConfig)
        ensures
            r == standard_fallback(),
    {
        FallbackConfig { blending_mode: 0, material: 0, state: 1 }
    }
}

/// Where the creation of a surface stands: what it waits for next.
#[derive(Debug, Clone, Copy, PartialEq, Eq)]
pub enum AddStage {
    /// The opaque backing surface is to be created.
    NeedBacking,
    /// The preferred effect class is to be probed.
    NeedProbe,
    /// The preferred effect surface is to be created.
    NeedPreferred,
    /// The fallback effect surface is to be created.
    NeedFallback,
    /// The surfaces are to be attached to the host view.
    NeedAttach,
    /// The shared configuration is to be applied.
    NeedConfigure,
}

/// What the toolkit layer reports back after performing an action.
#[derive(Debug, Clone, Copy, PartialEq, Eq)]
pub enum AddEvent {
    /// A constructor returned this handle; 0 is a null object.
    Created(usize),
    /// Whether the preferred effect class exists in the process.
    Probed(bool),
    /// An attach or configure action was carried out.
    Performed,
}

/// Native work that the toolkit layer is asked to perform.
#[derive(Debug, Clone, Copy, PartialEq, Eq)]
pub enum AddAction {
    /// Construct an opaque backing surface filled with the window
    /// background colour, sized to the host and resizing with it.
    CreateBacking,
    /// Ask whether the preferred effect class exists.
    ProbePreferred,
    /// Construct the preferred effect surface, resizing with its parent.
    CreatePreferred,
    /// Construct the fallback effect surface with these sub-properties,
    /// resizing with its parent.
    CreateFallback(FallbackConfig),
    /// Attach the backing surface, if any, to the host view, then the
    /// effect surface directly above it.
    Attach { backing: Option<usize>, effect: usize },
    /// Round the corners if asked (layer backing, radius, clipping), then
    /// apply the tint, if any, through the surface's tint setter when it
    /// has one and as the layer background otherwise.
    Configure { effect: usize, round_corners: bool, tint: Option<Rgba8> },
}

/// A surface creation in progress. Sessions come from
/// `GlassViewManager::begin_add` and move on through `advance`.
#[derive(Debug)]
pub struct AddSession {
    pub stage: AddStage,
    /// The backing surface, once created.
    pub backing: Option<usize>,
    /// The effect surface, once created; 0 before.
    pub effect: usize,
    pub round_corners: bool,
    /// The parsed tint colour.
    pub tint: Option<Rgba8>,
    /// The error of a tint colour that did not parse, reported once the
    /// rest of the configuration is done.
    pub tint_error: Option<GlassError>,
}

/// One step of a surface creation: go on with an action, or the end.
#[derive(Debug)]
pub enum AddStep {
    Continue(AddSession, AddAction),
    Done(Result<i32, GlassError>),
}

/// Where an event takes a session.
pub enum Transition {
    /// The session goes on in this state.
    Next(AddSession),
    /// The creation fails with this error.
    Fail(GlassError),
    /// The effect surface with this handle is complete and is registered.
    Register(usize),
}

/// What the tint of a new session is, for the tint option given.
pub open spec fn tint_parsed(s: AddSession, tint_color: Option<String>) -> bool {
    match tint_color {
        None => s.tint is None && s.tint_error is None,
        Some(t) => match trimmed_color(trimmed_of(t@)) {
            Some(c) => s.tint == Some(c) && s.tint_error is None,
            None => s.tint is None && (s.tint_error matches Some(GlassError::InvalidColor(m)) && m@ == t@),
        },
    }
}

impl AddSession {
    /// Handles that were created are never null.
    pub open spec fn wf(self) -> bool {
        &&& (self.backing matches Some(h) ==> h != 0)
        &&& ((self.stage == AddStage::NeedAttach || self.stage == AddStage::NeedConfigure) ==> self.effect != 0)
    }

    /// The action that the session waits on.
    pub open spec fn spec_action(self) -> AddAction {
        match self.stage {
            AddStage::NeedBacking => AddAction::CreateBacking,
            AddStage::NeedProbe => AddAction::ProbePreferred,
            AddStage::NeedPreferred => AddAction::CreatePreferred,
            AddStage::NeedFallback => AddAction::CreateFallback(standard_fallback()),
            AddStage::NeedAttach => AddAction::Attach { backing: self.backing, effect: self.effect },
            AddStage::NeedConfigure => AddAction::Configure {
                effect: self.effect,
                round_corners: self.round_corners,
                tint: self.tint,
            },
        }
    }

    /// The session in another stage.
    pub open spec fn at(self, stage: AddStage) -> AddSession {
        AddSession { stage, ..self }
    }

    /// How an event moves the session on. An event that does not answer
    /// the pending action leaves the session as it is.
    pub open spec fn transition(self, ev: AddEvent) -> Transition {
        match (self.stage, ev) {
            (AddStage::NeedBacking, AddEvent::Created(h)) => if h == 0 {
                Transition::Fail(GlassError::CreationFailed)
            } else {
                Transition::Next(AddSession { stage: AddStage::NeedProbe, backing: Some(h), ..self })
            },
            (AddStage::NeedProbe, AddEvent::Probed(available)) => if available {
                Transition::Next(self.at(AddStage::NeedPreferred))
            } else {
                Transition::Next(self.at(AddStage::NeedFallback))
            },
            (AddStage::NeedPreferred, AddEvent::Created(h)) => if h == 0 {
                Transition::Next(self.at(AddStage::NeedFallback))
            } else {
                Transition::Next(AddSession { stage: AddStage::NeedAttach, effect: h, ..self })
            },
            (AddStage::NeedFallback, AddEvent::Created(h)) => if h == 0 {
                Transition::Fail(GlassError::CreationFailed)
            } else {
                Transition::Next(AddSession { stage: AddStage::NeedAttach, effect: h, ..self })
            },
            (AddStage::NeedAttach, AddEvent::Performed) => Transition::Next(self.at(AddStage::NeedConfigure)),
            (AddStage::NeedConfigure, AddEvent::Performed) => match self.tint_error {
                Some(e) => Transition::Fail(e),
                None => Transition::Register(self.effect),
            },
            _ => Transition::Next(self),
        }
    }

    /// The action that the session waits on.
    pub fn action(&self) -> (r: AddAction)
        ensures
            r == self.spec_action(),
    {
        match self.stage {
            AddStage::NeedBacking => AddAction::CreateBacking,
            AddStage::NeedProbe => AddAction::ProbePreferred,
            AddStage::NeedPreferred => AddAction::CreatePreferred,
            AddStage::NeedFallback => AddAction::CreateFallback(FallbackConfig::standard()),
            AddStage::NeedAttach => AddAction::Attach { backing: self.backing, effect: self.effect },
            AddStage::NeedConfigure => AddAction::Configure {
                effect: self.effect,
                round_corners: self.round_corners,
                tint: self.tint,
            },
        }
    }
}

/// When the preferred effect class is absent, the fallback surface with
/// the standard configuration is created, and once it exists it is the
/// surface that gets attached and configured.
pub proof fn lemma_absent_preferred_uses_fallback(s: AddSession, h: usize)
    requires
        s.stage == AddStage::NeedProbe,
        s.wf(),
        h != 0,
    ensures
        s.transition(AddEvent::Probed(false)) matches Transition::Next(f)
            && f.spec_action() == AddAction::CreateFallback(standard_fallback())
            && f.wf()
            && (f.transition(AddEvent::Created(h)) matches Transition::Next(g)
                && g.spec_action() == (AddAction::Attach { backing: s.backing, effect: h })
                && g.wf()),
{
}

} // verus!
