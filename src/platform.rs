use vstd::prelude::*;
use vstd::string::StringExecFns;
use std::collections::HashMap;
use crate::attach::{AddSession, AddStage, AddStep, AddEvent, EffectOptions, Transition, tint_parsed};
use crate::color::parse_hex_color;
use crate::error::GlassError;
use crate::setter::{private_setter, public_setter, upper_of, PropertyRequest};
use crate::variant::GlassMaterialVariant;

verus! {

broadcast use vstd::std_specs::hash::group_hash_axioms;

/// The state of a manager: whether the platform has native glass effects,
/// the next id to issue, and the live surfaces by id.
pub struct ManagerModel {
    pub native: bool,
    pub next_id: i32,
    pub views: Map<i32, usize>,
}

/// A registry change, for reasoning about runs of operations.
pub enum RegistryOp {
    /// A surface with this handle completed and was registered.
    Add(usize),
    /// A removal of this id was asked for.
    Remove(i32),
}

impl ManagerModel {
    /// Every live id was issued before (it is below `next_id`), and no live
    /// surface has a null handle.
    pub open spec fn wf(self) -> bool {
        &&& 0 <= self.next_id
        &&& forall|k: i32| #[trigger] self.views.contains_key(k) ==> 0 <= k < self.next_id && self.views[k] != 0
    }

    /// The state after registering a surface under the next id.
    pub open spec fn with_surface(self, h: usize) -> ManagerModel {
        ManagerModel { native: self.native, next_id: (self.next_id + 1) as i32, views: self.views.insert(self.next_id, h) }
    }

    /// The handle of a live surface, or why there is none.
    pub open spec fn lookup(self, id: i32) -> Result<usize, GlassError> {
        if !self.native {
            Err(GlassError::UnsupportedPlatform)
        } else if self.views.contains_key(id) {
            Ok(self.views[id])
        } else {
            Err(GlassError::InvalidViewId(id))
        }
    }

    /// The state after a removal of `id`: the entry is gone if it was live.
    pub open spec fn without(self, id: i32) -> ManagerModel {
        if self.lookup(id) is Ok {
            ManagerModel { views: self.views.remove(id), ..self }
        } else {
            self
        }
    }

    pub open spec fn apply(self, op: RegistryOp) -> ManagerModel {
        match op {
            RegistryOp::Add(h) => self.with_surface(h),
            RegistryOp::Remove(id) => self.without(id),
        }
    }

    /// The ids issued, in order, by a run of registry changes.
    pub open spec fn issued(self, ops: Seq<RegistryOp>) -> Seq<i32>
        decreases ops.len(),
    {
        if ops.len() == 0 {
            Seq::empty()
        } else {
            let rest = self.apply(ops[0]).issued(ops.drop_first());
            match ops[0] {
                RegistryOp::Add(_) => seq![self.next_id] + rest,
                RegistryOp::Remove(_) => rest,
            }
        }
    }
}

/// The number of registrations in a run of registry changes.
pub open spec fn adds_in(ops: Seq<RegistryOp>) -> nat
    decreases ops.len(),
{
    if ops.len() == 0 {
        0
    } else {
        adds_in(ops.drop_first()) + if ops[0] is Add { 1nat } else { 0nat }
    }
}

/// Ids come out strictly increasing over any run of registrations and
/// removals, so no two registrations share an id, and a removed id never
/// comes back.
pub proof fn lemma_issued_ids_increase(m: ManagerModel, ops: Seq<RegistryOp>)
    requires
        m.next_id + adds_in(ops) <= i32::MAX,
    ensures
        forall|i: int, j: int| 0 <= i < j < m.issued(ops).len() ==> m.issued(ops)[i] < m.issued(ops)[j],
        forall|i: int| 0 <= i < m.issued(ops).len() ==> m.next_id <= #[trigger] m.issued(ops)[i],
    decreases ops.len(),
{
    if ops.len() > 0 {
        let n = m.apply(ops[0]);
        lemma_issued_ids_increase(n, ops.drop_first());
        assert(n.next_id >= m.next_id);
        match ops[0] {
            RegistryOp::Add(_) => {
                assert(n.next_id == m.next_id + 1);
                assert(m.issued(ops) == seq![m.next_id] + n.issued(ops.drop_first()));
            },
            RegistryOp::Remove(_) => {},
        }
    }
}

/// Removing the same id twice: once the first removal succeeds, the second
/// fails with `InvalidViewId`.
pub proof fn lemma_second_removal_fails(m: ManagerModel, id: i32)
    requires
        m.lookup(id) is Ok,
    ensures
        m.without(id).lookup(id) == Err::<usize, GlassError>(GlassError::InvalidViewId(id)),
{
}

/// An id that was never issued names no surface: property changes and
/// removals on it fail with `InvalidViewId`.
pub proof fn lemma_unissued_id_rejected(m: ManagerModel, id: i32)
    requires
        m.wf(),
        m.native,
        !(0 <= id < m.next_id),
    ensures
        m.lookup(id) == Err::<usize, GlassError>(GlassError::InvalidViewId(id)),
{
}

/// Whether `r` is the property request for `key` with `value` on the
/// surface `id` names, or the error of that lookup.
pub open spec fn property_outcome(
    m: ManagerModel,
    id: i32,
    key: Seq<char>,
    value: i64,
    r: Result<PropertyRequest, GlassError>,
) -> bool {
    match m.lookup(id) {
        Ok(h) => r matches Ok(q) && q.view == h && q.key@ == key && q.value == value
            && q.private_selector@ == private_setter(key)
            && q.public_selector@ == public_setter(upper_of(key[0]), key),
        Err(e) => r == Err::<PropertyRequest, GlassError>(e),
    }
}

/// Tracks the glass surfaces attached through it. Calls on one manager are
/// meant to be serialised by the caller (one lock around the manager).
/// Only creation checks that it runs on the UI thread; property changes and
/// removal rely on the caller to call them there.
pub struct GlassViewManager {
    native: bool,
    next_id: i32,
    views: HashMap<i32, usize>,
}

impl View for GlassViewManager {
    type V = ManagerModel;

    closed spec fn view(&self) -> ManagerModel {
        ManagerModel { native: self.native, next_id: self.next_id, views: self.views@ }
    }
}

impl GlassViewManager {
    /// A manager on a platform with native glass effects: no surfaces yet,
    /// ids start at 0.
    pub fn new() -> (r: GlassViewManager)
        ensures
            r@.native,
            r@.next_id == 0,
            r@.views == Map::<i32, usize>::empty(),
            r@.wf(),
    {
        GlassViewManager { native: true, next_id: 0, views: HashMap::new() }
    }

    /// A manager on a platform without native glass effects: every
    /// operation reports `UnsupportedPlatform`.
    pub fn unsupported() -> (r: GlassViewManager)
        ensures
            !r@.native,
            r@.next_id == 0,
            r@.views == Map::<i32, usize>::empty(),
            r@.wf(),
    {
        GlassViewManager { native: false, next_id: 0, views: HashMap::new() }
    }

    /// Whether the platform has native glass effects.
    pub fn is_supported(&self) -> (r: bool)
        ensures
            r == self@.native,
    {
        self.native
    }

    /// Whether another surface can still be given an id.
    pub fn has_free_id(&self) -> (r: bool)
        ensures
            r == (self@.next_id < i32::MAX),
    {
        self.next_id < i32::MAX
    }

    /// Starts attaching a glass surface to the host view `window` (0 is a
    /// null handle). `on_ui_thread` tells whether the call runs on the
    /// toolkit's UI thread. The checks come in this order: null handle,
    /// platform support, thread.
    pub fn begin_add(&self, window: usize, on_ui_thread: bool, options: &EffectOptions) -> (r: AddStep)
        ensures
            window == 0 ==> r == AddStep::Done(Err(GlassError::InvalidHandle)),
            window != 0 && !self@.native ==> r == AddStep::Done(Err(GlassError::UnsupportedPlatform)),
            window != 0 && self@.native && !on_ui_thread ==> (r matches AddStep::Done(Err(GlassError::RuntimeError(m)))
                && m@ == "Must be called from main thread"@),
            window != 0 && self@.native && on_ui_thread ==> (r matches AddStep::Continue(s, a)
                && s.stage == (if options.opaque { AddStage::NeedBacking } else { AddStage::NeedProbe })
                && s.backing is None
                && s.round_corners == options.round_corners
                && tint_parsed(s, options.tint_color)
                && s.wf()
                && a == s.spec_action()),
    {
        if window == 0 {
            return AddStep::Done(Err(GlassError::InvalidHandle));
        }
        if !self.native {
            return AddStep::Done(Err(GlassError::UnsupportedPlatform));
        }
        if !on_ui_thread {
            return AddStep::Done(Err(GlassError::RuntimeError(String::from_str("Must be called from main thread"))));
        }
        let (tint, tint_error) = match &options.tint_color {
            None => (None, None),
            Some(t) => match parse_hex_color(t.as_str()) {
                Ok(c) => (Some(c), None),
                Err(e) => (None, Some(e)),
            },
        };
        let stage = if options.opaque { AddStage::NeedBacking } else { AddStage::NeedProbe };
        let s = AddSession { stage, backing: None, effect: 0, round_corners: options.round_corners, tint, tint_error };
        let a = s.action();
        AddStep::Continue(s, a)
    }

    /// Moves a surface creation on with the outcome of its pending action.
    /// When the configuration is done and the tint was valid, the effect
    /// surface is registered under the next id, which is returned.
    pub fn advance(&mut self, session: AddSession, event: AddEvent) -> (r: AddStep)
        requires
            old(self)@.wf(),
            old(self)@.native,
            old(self)@.next_id < i32::MAX,
            session.wf(),
        ensures
            final(self)@.wf(),
            match session.transition(event) {
                Transition::Next(s) => r == AddStep::Continue(s, s.spec_action()) && s.wf() && final(self)@ == old(self)@,
                Transition::Fail(e) => r == AddStep::Done(Err(e)) && final(self)@ == old(self)@,
                Transition::Register(h) => r == AddStep::Done(Ok(old(self)@.next_id))
                    && final(self)@ == old(self)@.with_surface(h),
            },
    {
        match (session.stage, event) {
            (AddStage::NeedBacking, AddEvent::Created(h)) => {
                if h == 0 {
                    AddStep::Done(Err(GlassError::CreationFailed))
                } else {
                    let s = AddSession { stage: AddStage::NeedProbe, backing: Some(h), ..session };
                    let a = s.action();
                    AddStep::Continue(s, a)
                }
            },
            (AddStage::NeedProbe, AddEvent::Probed(available)) => {
                let stage = if available { AddStage::NeedPreferred } else { AddStage::NeedFallback };
                let s = AddSession { stage, ..session };
                let a = s.action();
                AddStep::Continue(s, a)
            },
            (AddStage::NeedPreferred, AddEvent::Created(h)) => {
                let s = if h == 0 {
                    AddSession { stage: AddStage::NeedFallback, ..session }
                } else {
                    AddSession { stage: AddStage::NeedAttach, effect: h, ..session }
                };
                let a = s.action();
                AddStep::Continue(s, a)
            },
            (AddStage::NeedFallback, AddEvent::Created(h)) => {
                if h == 0 {
                    AddStep::Done(Err(GlassError::CreationFailed))
                } else {
                    let s = AddSession { stage: AddStage::NeedAttach, effect: h, ..session };
                    let a = s.action();
                    AddStep::Continue(s, a)
                }
            },
            (AddStage::NeedAttach, AddEvent::Performed) => {
                let s = AddSession { stage: AddStage::NeedConfigure, ..session };
                let a = s.action();
                AddStep::Continue(s, a)
            },
            (AddStage::NeedConfigure, AddEvent::Performed) => {
                match session.tint_error {
                    Some(e) => AddStep::Done(Err(e)),
                    None => {
                        let id = self.next_id;
                        self.views.insert(id, session.effect);
                        self.next_id = id + 1;
                        assert(self@.views =~= old(self)@.views.insert(id, session.effect));
                        AddStep::Done(Ok(id))
                    },
                }
            },
            _ => {
                let a = session.action();
                AddStep::Continue(session, a)
            },
        }
    }

    /// Prepares setting the integer property `key` of the surface `view_id`.
    pub fn set_int_property(&self, view_id: i32, key: &str, value: i64) -> (r: Result<PropertyRequest, GlassError>)
        requires
            key@.len() > 0,
        ensures
            property_outcome(self@, view_id, key@, value, r),
    {
        if !self.native {
            return Err(GlassError::UnsupportedPlatform);
        }
        match self.views.get(&view_id) {
            Some(h) => Ok(PropertyRequest::new(*h, key, value)),
            None => Err(GlassError::InvalidViewId(view_id)),
        }
    }

    /// Prepares setting the material variant of the surface `view_id`: the
    /// property `variant` with the variant's code.
    pub fn set_variant(&self, view_id: i32, variant: GlassMaterialVariant) -> (r: Result<PropertyRequest, GlassError>)
        ensures
            property_outcome(self@, view_id, "variant"@, variant.spec_code(), r),
    {
        proof {
            reveal_strlit("variant");
        }
        self.set_int_property(view_id, "variant", variant.code())
    }

    /// Prepares setting the scrim state of the surface `view_id`; the state
    /// is passed through unchecked.
    pub fn set_scrim_state(&self, view_id: i32, state: i64) -> (r: Result<PropertyRequest, GlassError>)
        ensures
            property_outcome(self@, view_id, "scrimState"@, state, r),
    {
        proof {
            reveal_strlit("scrimState");
        }
        self.set_int_property(view_id, "scrimState", state)
    }

    /// Prepares setting the subdued state of the surface `view_id`; the
    /// state is passed through unchecked.
    pub fn set_subdued_state(&self, view_id: i32, state: i64) -> (r: Result<PropertyRequest, GlassError>)
        ensures
            property_outcome(self@, view_id, "subduedState"@, state, r),
    {
        proof {
            reveal_strlit("subduedState");
        }
        self.set_int_property(view_id, "subduedState", state)
    }

    /// Forgets the surface `view_id` and hands back its handle, which the
    /// toolkit layer detaches from its parent. A second removal of the same
    /// id fails.
    pub fn remove_view(&mut self, view_id: i32) -> (r: Result<usize, GlassError>)
        requires
            old(self)@.wf(),
        ensures
            r == old(self)@.lookup(view_id),
            final(self)@ == old(self)@.without(view_id),
            final(self)@.wf(),
    {
        if !self.native {
            return Err(GlassError::UnsupportedPlatform);
        }
        match self.views.remove(&view_id) {
            Some(h) => Ok(h),
            None => {
                assert(self@.views =~= old(self)@.views);
                Err(GlassError::InvalidViewId(view_id))
            },
        }
    }
}

} // verus!
