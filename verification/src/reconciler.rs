use vstd::prelude::*;

verus! {

/// Lifecycle phase of the display surface.
///
/// `Reconfiguring` is the transient phase while a teardown-and-recreate
/// is in flight. The state machine emits the whole action list of a
/// reconfiguration atomically, so a step never leaves this phase at
/// rest: `handle` both requires and guarantees `wf`, which excludes it.
#[derive(Clone, Copy, Debug, PartialEq, Eq, Structural)]
pub enum Phase {
    Uninitialized,
    Bound,
    Reconfiguring,
    Closed,
}

/// One instruction for the platform layer, which owns the compositor
/// connection and the graphics context. The state machine decides;
/// the platform layer performs these in order.
#[derive(Clone, Copy, Debug, PartialEq, Eq, Structural)]
pub enum SurfaceAction {
    /// Create the initial layer surface, anchored to no particular output.
    CreateInitialSurface { width: u32, height: u32 },
    /// Create a fresh layer surface anchored to the event's output.
    CreateOutputSurface { width: u32, height: u32 },
    /// Destroy the previously bound platform surface.
    DestroyPlatformSurface,
    /// Destroy the graphics-surface binding (the context itself survives).
    DestroyContextSurface,
    /// Recreate the native window handle at the new dimensions.
    CreateNativeWindow { width: u32, height: u32 },
    /// Recreate the graphics-surface binding against the unchanged context.
    CreateContextSurface,
    /// Rebind the graphics context as current.
    MakeContextCurrent,
    /// Update the viewport transform to the new dimensions.
    SetViewport { width: u32, height: u32 },
    /// Draw one frame synchronously, so no stale frame stays visible.
    Draw,
}

/// A notification from the compositor, already reduced to plain values.
pub enum CompositorEvent {
    /// The surface was given a new size.
    Configure { width: u32, height: u32 },
    /// A new output appeared, with its advertised name and logical size.
    OutputAdded { name: Option<String>, width: u32, height: u32 },
    /// An already known output changed, same payload as `OutputAdded`.
    OutputUpdated { name: Option<String>, width: u32, height: u32 },
    /// An output disappeared.
    OutputRemoved,
    /// The compositor is ready for the next frame.
    FrameReady,
}

/// The surface reconciler: owns the surface lifecycle and decides,
/// for every compositor event, which actions the platform layer must
/// perform and what the next state is.
pub struct Reconciler {
    pub phase: Phase,
    pub width: u32,
    pub height: u32,
    /// The configured output preference, fixed for the process lifetime.
    pub preferred_output: Option<String>,
    /// Whether the surface is anchored to a specific output yet.
    pub anchored: bool,
    /// The name the anchored output was advertised under, if any.
    pub anchored_name: Option<String>,
}

/// Optional output names denote the same output.
pub open spec fn opt_name_eq(a: Option<String>, b: Option<String>) -> bool {
    match (a, b) {
        (Option::None, Option::None) => true,
        (Option::Some(x), Option::Some(y)) => x@ == y@,
        _ => false,
    }
}

/// The event's output is the one the preference asks for.
pub open spec fn spec_pref_match(pref: Option<String>, name: Option<String>) -> bool {
    match (pref, name) {
        (Option::Some(p), Option::Some(n)) => p@ == n@,
        _ => false,
    }
}

/// The discovered output should become the anchor: it matches the
/// preference but is not the current anchor, or there is no preference
/// and nothing is anchored yet (first reported output wins; later
/// outputs are ignored).
pub open spec fn spec_wants_migrate(pre: Reconciler, name: Option<String>) -> bool {
    match pre.preferred_output {
        Option::Some(_) => spec_pref_match(pre.preferred_output, name) && !(pre.anchored
            && opt_name_eq(pre.anchored_name, name)),
        Option::None => !pre.anchored,
    }
}

/// The event concerns the output the surface is already anchored to,
/// so the surface is rebuilt in place at the event's dimensions.
pub open spec fn spec_wants_reconfigure(pre: Reconciler, name: Option<String>) -> bool {
    &&& pre.anchored
    &&& opt_name_eq(pre.anchored_name, name)
    &&& match pre.preferred_output {
        Option::Some(_) => spec_pref_match(pre.preferred_output, name),
        Option::None => true,
    }
}

/// The full teardown-and-recreate sequence for new dimensions: destroy
/// the context binding, recreate the native window and the binding,
/// rebind the context, update the viewport, and draw once immediately
/// so the surface never shows a stale frame.
pub open spec fn reconfigure_actions(width: u32, height: u32) -> Seq<SurfaceAction> {
    seq![
        SurfaceAction::DestroyContextSurface,
        SurfaceAction::CreateNativeWindow { width, height },
        SurfaceAction::CreateContextSurface,
        SurfaceAction::MakeContextCurrent,
        SurfaceAction::SetViewport { width, height },
        SurfaceAction::Draw,
    ]
}

/// Migration to a newly selected output: create the new platform
/// surface, destroy the old one, then the same rebuild steps.
pub open spec fn migrate_actions(width: u32, height: u32) -> Seq<SurfaceAction> {
    seq![
        SurfaceAction::CreateOutputSurface { width, height },
        SurfaceAction::DestroyPlatformSurface,
    ] + reconfigure_actions(width, height)
}

/// What one output-discovery event does to the state and which actions
/// it emits; shared by `OutputAdded` and `OutputUpdated`.
pub open spec fn spec_output_transition(
    pre: Reconciler,
    post: Reconciler,
    actions: Seq<SurfaceAction>,
    name: Option<String>,
    width: u32,
    height: u32,
) -> bool {
    if pre.phase == Phase::Bound {
        if spec_wants_migrate(pre, name) {
            &&& post.phase == Phase::Bound
            &&& post.width == width
            &&& post.height == height
            &&& post.anchored
            &&& post.anchored_name == name
            &&& actions == migrate_actions(width, height)
        } else if spec_wants_reconfigure(pre, name) {
            &&& post.phase == Phase::Bound
            &&& post.width == width
            &&& post.height == height
            &&& post.anchored == pre.anchored
            &&& post.anchored_name == pre.anchored_name
            &&& actions == reconfigure_actions(width, height)
        } else {
            post == pre && actions == Seq::<SurfaceAction>::empty()
        }
    } else {
        post == pre && actions == Seq::<SurfaceAction>::empty()
    }
}

impl Reconciler {
    /// At rest the machine is never mid-reconfiguration: every step
    /// that tears the surface down also finishes rebuilding it.
    pub open spec fn wf(self) -> bool {
        self.phase != Phase::Reconfiguring
    }

    pub fn new(preferred_output: Option<String>, width: u32, height: u32) -> (r: Reconciler)
        ensures
            r.phase == Phase::Uninitialized,
            r.width == width,
            r.height == height,
            r.preferred_output == preferred_output,
            !r.anchored,
            r.anchored_name == Option::<String>::None,
            r.wf(),
    {
        Reconciler {
            phase: Phase::Uninitialized,
            width,
            height,
            preferred_output,
            anchored: false,
            anchored_name: None,
        }
    }

    /// Startup transition: create the initial surface at the stored
    /// dimensions and become bound. Output selection happens later,
    /// as the compositor reports outputs one by one.
    pub fn start(&mut self) -> (actions: Vec<SurfaceAction>)
        requires
            old(self).phase == Phase::Uninitialized,
        ensures
            final(self).phase == Phase::Bound,
            final(self).width == old(self).width,
            final(self).height == old(self).height,
            final(self).preferred_output == old(self).preferred_output,
            final(self).anchored == old(self).anchored,
            final(self).anchored_name == old(self).anchored_name,
            final(self).wf(),
            actions@ == seq![
                SurfaceAction::CreateInitialSurface {
                    width: old(self).width,
                    height: old(self).height,
                },
            ],
    {
        self.phase = Phase::Bound;
        let mut actions: Vec<SurfaceAction> = Vec::new();
        actions.push(SurfaceAction::CreateInitialSurface { width: self.width, height: self.height });
        proof {
            assert(actions@ =~= seq![
                SurfaceAction::CreateInitialSurface {
                    width: old(self).width,
                    height: old(self).height,
                },
            ]);
        }
        actions
    }

    /// Shutdown: the terminal phase, after which no actions are ever
    /// emitted again.
    pub fn close(&mut self)
        ensures
            final(self).phase == Phase::Closed,
            final(self).width == old(self).width,
            final(self).height == old(self).height,
            final(self).preferred_output == old(self).preferred_output,
            final(self).anchored == old(self).anchored,
            final(self).anchored_name == old(self).anchored_name,
            final(self).wf(),
    {
        self.phase = Phase::Closed;
    }

    /// Consume one compositor event: update the state and say which
    /// actions the platform layer must perform, in order.
    pub fn handle(&mut self, event: CompositorEvent) -> (actions: Vec<SurfaceAction>)
        requires
            old(self).wf(),
        ensures
            final(self).wf(),
            final(self).preferred_output == old(self).preferred_output,
            old(self).phase == Phase::Closed ==> *final(self) == *old(self) && actions@
                == Seq::<SurfaceAction>::empty(),
            match event {
                CompositorEvent::Configure { width, height } => {
                    if old(self).phase == Phase::Bound {
                        &&& final(self).phase == Phase::Bound
                        &&& final(self).width == width
                        &&& final(self).height == height
                        &&& final(self).anchored == old(self).anchored
                        &&& final(self).anchored_name == old(self).anchored_name
                        &&& actions@ == reconfigure_actions(width, height)
                    } else {
                        *final(self) == *old(self) && actions@ == Seq::<SurfaceAction>::empty()
                    }
                },
                CompositorEvent::OutputAdded { name, width, height } => spec_output_transition(
                    *old(self),
                    *final(self),
                    actions@,
                    name,
                    width,
                    height,
                ),
                CompositorEvent::OutputUpdated { name, width, height } => spec_output_transition(
                    *old(self),
                    *final(self),
                    actions@,
                    name,
                    width,
                    height,
                ),
                CompositorEvent::OutputRemoved => *final(self) == *old(self) && actions@
                    == Seq::<SurfaceAction>::empty(),
                CompositorEvent::FrameReady => {
                    if old(self).phase == Phase::Bound {
                        *final(self) == *old(self) && actions@ == seq![SurfaceAction::Draw]
                    } else {
                        *final(self) == *old(self) && actions@ == Seq::<SurfaceAction>::empty()
                    }
                },
            },
    {
        match event {
            CompositorEvent::Configure { width, height } => {
                if self.phase == Phase::Bound {
                    self.width = width;
                    self.height = height;
                    reconfigure_action_vec(width, height)
                } else {
                    no_actions()
                }
            },
            CompositorEvent::OutputAdded { name, width, height } => self.handle_output(
                name,
                width,
                height,
            ),
            CompositorEvent::OutputUpdated { name, width, height } => self.handle_output(
                name,
                width,
                height,
            ),
            CompositorEvent::OutputRemoved => no_actions(),
            CompositorEvent::FrameReady => {
                if self.phase == Phase::Bound {
                    let mut actions: Vec<SurfaceAction> = Vec::new();
                    actions.push(SurfaceAction::Draw);
                    proof {
                        assert(actions@ =~= seq![SurfaceAction::Draw]);
                    }
                    actions
                } else {
                    no_actions()
                }
            },
        }
    }

    fn handle_output(&mut self, name: Option<String>, width: u32, height: u32) -> (actions: Vec<
        SurfaceAction,
    >)
        requires
            old(self).wf(),
        ensures
            final(self).wf(),
            final(self).preferred_output == old(self).preferred_output,
            spec_output_transition(*old(self), *final(self), actions@, name, width, height),
    {
        if !(self.phase == Phase::Bound) {
            return no_actions();
        }
        let pref_hit: bool = match (&self.preferred_output, &name) {
            (Option::Some(p), Option::Some(n)) => p.eq(n),
            _ => false,
        };
        let anchored_hit: bool = self.anchored && opt_name_matches(&self.anchored_name, &name);
        let migrate: bool = match &self.preferred_output {
            Option::Some(_) => pref_hit && !anchored_hit,
            Option::None => !self.anchored,
        };
        let reconfig: bool = anchored_hit && match &self.preferred_output {
            Option::Some(_) => pref_hit,
            Option::None => true,
        };
        if migrate {
            self.width = width;
            self.height = height;
            self.anchored = true;
            self.anchored_name = name;
            migrate_action_vec(width, height)
        } else if reconfig {
            self.width = width;
            self.height = height;
            reconfigure_action_vec(width, height)
        } else {
            no_actions()
        }
    }
}

fn no_actions() -> (actions: Vec<SurfaceAction>)
    ensures
        actions@ == Seq::<SurfaceAction>::empty(),
{
    let actions: Vec<SurfaceAction> = Vec::new();
    proof {
        assert(actions@ =~= Seq::<SurfaceAction>::empty());
    }
    actions
}

/// The event's and the state's optional output names denote the same output.
fn opt_name_matches(a: &Option<String>, b: &Option<String>) -> (r: bool)
    ensures
        r == opt_name_eq(*a, *b),
{
    match (a, b) {
        (Option::None, Option::None) => true,
        (Option::Some(x), Option::Some(y)) => x.eq(y),
        _ => false,
    }
}

fn reconfigure_action_vec(width: u32, height: u32) -> (actions: Vec<SurfaceAction>)
    ensures
        actions@ == reconfigure_actions(width, height),
{
    let mut actions: Vec<SurfaceAction> = Vec::new();
    actions.push(SurfaceAction::DestroyContextSurface);
    actions.push(SurfaceAction::CreateNativeWindow { width, height });
    actions.push(SurfaceAction::CreateContextSurface);
    actions.push(SurfaceAction::MakeContextCurrent);
    actions.push(SurfaceAction::SetViewport { width, height });
    actions.push(SurfaceAction::Draw);
    proof {
        assert(actions@ =~= reconfigure_actions(width, height));
    }
    actions
}

fn migrate_action_vec(width: u32, height: u32) -> (actions: Vec<SurfaceAction>)
    ensures
        actions@ == migrate_actions(width, height),
{
    let mut actions: Vec<SurfaceAction> = Vec::new();
    actions.push(SurfaceAction::CreateOutputSurface { width, height });
    actions.push(SurfaceAction::DestroyPlatformSurface);
    actions.push(SurfaceAction::DestroyContextSurface);
    actions.push(SurfaceAction::CreateNativeWindow { width, height });
    actions.push(SurfaceAction::CreateContextSurface);
    actions.push(SurfaceAction::MakeContextCurrent);
    actions.push(SurfaceAction::SetViewport { width, height });
    actions.push(SurfaceAction::Draw);
    proof {
        assert(actions@ =~= migrate_actions(width, height));
    }
    actions
}

/// Law: a resize in steady state reconfigures exactly once. In the
/// emitted action list the context-surface teardown appears only at
/// the first position, its recreation only once, the redraw only once
/// and last, and the viewport is set to the new dimensions before that
/// redraw — so no frame is ever drawn at the stale size afterwards.
pub proof fn lemma_resize_reconfigures_once(width: u32, height: u32)
    ensures
        reconfigure_actions(width, height).len() == 6,
        forall|k: int| 0 <= k < 6 ==> ((reconfigure_actions(width, height)[k]
            == SurfaceAction::DestroyContextSurface) <==> k == 0),
        forall|k: int| 0 <= k < 6 ==> ((reconfigure_actions(width, height)[k]
            == SurfaceAction::CreateContextSurface) <==> k == 2),
        forall|k: int| 0 <= k < 6 ==> ((reconfigure_actions(width, height)[k]
            == SurfaceAction::Draw) <==> k == 5),
        reconfigure_actions(width, height)[4] == (SurfaceAction::SetViewport { width, height }),
{
}

/// Deterministic output selection over a full list of advertised
/// output names: the first name equal to the preference wins; absent a
/// preference, the first output reported wins; a preference that never
/// appears selects nothing.
pub fn select_output(outputs: &Vec<String>, preference: &Option<String>) -> (r: Option<usize>)
    ensures
        match *preference {
            Option::None => {
                if outputs@.len() == 0 {
                    r == Option::<usize>::None
                } else {
                    r == Option::Some(0usize)
                }
            },
            Option::Some(p) => {
                match r {
                    Option::Some(i) => {
                        &&& 0 <= i < outputs@.len()
                        &&& outputs@[i as int]@ == p@
                        &&& forall|j: int| 0 <= j < i ==> outputs@[j]@ != p@
                    },
                    Option::None => forall|j: int| 0 <= j < outputs@.len() ==> outputs@[j]@ != p@,
                }
            },
        },
{
    if preference.is_none() {
        if outputs.len() == 0 {
            None
        } else {
            Some(0)
        }
    } else {
        let p: &String = preference.as_ref().unwrap();
        let mut i: usize = 0;
        while i < outputs.len()
            invariant
                *preference matches Option::Some(pv) && pv@ == p@,
                0 <= i <= outputs@.len(),
                forall|j: int| 0 <= j < i ==> outputs@[j]@ != p@,
            decreases outputs@.len() - i,
        {
            if outputs[i].eq(p) {
                return Some(i);
            }
            i = i + 1;
        }
        None
    }
}

} // verus!
