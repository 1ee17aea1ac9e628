use vstd::prelude::*;

use crate::error::SetupError;
use crate::surface::{
    adapt,
    adapted,
    renderer_for,
    renderer_of,
    BackendPlatformData,
    Platform,
    PlatformHandle,
    Renderer,
};

verus! {

/// The colour view 0 is cleared to on every frame (RGBA).
pub const CLEAR_RGBA: u32 = 0x103030ff;

/// Whether the GPU backend holds a live context.
#[derive(Clone, Copy, Debug, PartialEq, Eq, Structural)]
pub enum LifecycleState {
    Uninitialized,
    Initialized,
}

/// A drawable window as it stands when the backend is brought up.
#[derive(Clone, Copy, Debug, PartialEq, Eq, Structural)]
pub struct Surface {
    pub handle: PlatformHandle,
    pub width: u32,
    pub height: u32,
}

/// A surface size in pixels.
#[derive(Clone, Copy, Debug, PartialEq, Eq, Structural)]
pub struct SurfaceSize {
    pub width: u32,
    pub height: u32,
}

/// The extent of a backend view rectangle anchored at the origin.
#[derive(Clone, Copy, Debug, PartialEq, Eq, Structural)]
pub struct ViewRect {
    pub width: u16,
    pub height: u16,
}

/// What the window system reports to the controller.
#[derive(Clone, Copy, Debug, PartialEq, Eq, Structural)]
pub enum Event {
    /// The application may draw again; `surface` is `None` while the
    /// platform has no window to draw into yet.
    Resumed { surface: Option<Surface> },
    /// The window surface may be torn down.
    Suspended,
    Resized { width: u32, height: u32 },
    /// A frame is due; `size` is the surface size queried just now, if any.
    RedrawRequested { size: Option<SurfaceSize> },
    CloseRequested,
    LoopDestroyed,
    /// Anything the controller does not react to.
    Other,
}

/// The one-shot configuration the backend is initialised with.
#[derive(Clone, Copy, Debug, PartialEq, Eq, Structural)]
pub struct InitConfig {
    pub renderer: Renderer,
    pub width: u32,
    pub height: u32,
    /// Whether the reset flags ask for vertical sync.
    pub vsync: bool,
    pub platform_data: BackendPlatformData,
}

/// One frame of view 0: clear colour and depth to `clear_rgba`, set the view
/// rectangle to `view` when a size is known, touch the view, draw the debug
/// text and submit the frame without capture.
#[derive(Clone, Copy, Debug, PartialEq, Eq, Structural)]
pub struct FramePlan {
    pub clear_rgba: u32,
    pub view: Option<ViewRect>,
}

/// What the event loop is to do in answer to one event: at most one call
/// into the backend, or ending the loop.
#[derive(Clone, Copy, Debug, PartialEq, Eq, Structural)]
pub enum Action {
    Nothing,
    Init(InitConfig),
    Shutdown,
    Reset { width: u32, height: u32 },
    Draw(FramePlan),
    Exit,
}

impl Action {
    /// Whether the action is a call into the backend.
    pub open spec fn calls_backend(self) -> bool {
        match self {
            Action::Init(_) | Action::Shutdown | Action::Reset { .. } | Action::Draw(_) => true,
            Action::Nothing | Action::Exit => false,
        }
    }
}

/// The view rectangle for a surface size: each side kept to its low 16 bits,
/// as the backend's view coordinates are 16-bit.
pub open spec fn view_of(size: SurfaceSize) -> ViewRect {
    ViewRect {
        width: (size.width % 0x10000) as u16,
        height: (size.height % 0x10000) as u16,
    }
}

/// Owns the lifecycle state and decides, event by event, which backend call
/// to make, so that init and shutdown come in pairs and nothing else reaches
/// the backend while it is down.
#[derive(Clone, Copy, Debug, PartialEq, Eq, Structural)]
pub struct Controller {
    pub platform: Platform,
    pub state: LifecycleState,
    /// False once the loop has been asked to end.
    pub running: bool,
}

impl Controller {
    /// The state and action after `e`, or the error it raises; an error
    /// leaves the controller as it was.
    pub open spec fn transition(self, e: Event) -> Result<(Controller, Action), SetupError> {
        if !self.running {
            Ok((self, Action::Nothing))
        } else {
            match e {
                Event::Resumed { surface } => match surface {
                    Some(s) if self.state == LifecycleState::Uninitialized => match adapted(
                        self.platform,
                        s.handle,
                    ) {
                        Some(pd) => Ok(
                            (
                                Controller { state: LifecycleState::Initialized, ..self },
                                Action::Init(
                                    InitConfig {
                                        renderer: renderer_of(self.platform),
                                        width: s.width,
                                        height: s.height,
                                        vsync: true,
                                        platform_data: pd,
                                    },
                                ),
                            ),
                        ),
                        None => Err(SetupError::UnsupportedWindowSystem),
                    },
                    _ => Ok((self, Action::Nothing)),
                },
                Event::Suspended => if self.state == LifecycleState::Initialized {
                    Ok(
                        (
                            Controller { state: LifecycleState::Uninitialized, ..self },
                            Action::Shutdown,
                        ),
                    )
                } else {
                    Ok((self, Action::Nothing))
                },
                Event::Resized { width, height } => if self.state
                    == LifecycleState::Initialized {
                    Ok((self, Action::Reset { width, height }))
                } else {
                    Ok((self, Action::Nothing))
                },
                Event::RedrawRequested { size } => if self.state
                    == LifecycleState::Initialized {
                    Ok(
                        (
                            self,
                            Action::Draw(
                                FramePlan {
                                    clear_rgba: CLEAR_RGBA,
                                    view: match size {
                                        Some(sz) => Some(view_of(sz)),
                                        None => None,
                                    },
                                },
                            ),
                        ),
                    )
                } else {
                    Ok((self, Action::Nothing))
                },
                Event::CloseRequested => Ok((Controller { running: false, ..self }, Action::Exit)),
                Event::LoopDestroyed | Event::Other => Ok((self, Action::Nothing)),
            }
        }
    }

    /// The actions answering `events` in turn, up to the first error.
    pub open spec fn run(self, events: Seq<Event>) -> Seq<Action>
        decreases events.len(),
    {
        if events.len() == 0 {
            Seq::empty()
        } else {
            match self.transition(events[0]) {
                Ok((next, a)) => seq![a] + next.run(events.drop_first()),
                Err(_) => Seq::empty(),
            }
        }
    }

    /// A controller for `platform` whose backend is not up yet.
    pub fn new(platform: Platform) -> (r: Controller)
        ensures
            r.platform == platform,
            r.state == LifecycleState::Uninitialized,
            r.running,
    {
        Controller { platform, state: LifecycleState::Uninitialized, running: true }
    }

    /// Answers one event: returns the action to perform and moves to the
    /// next state; an error leaves the controller unchanged.
    pub fn handle(&mut self, e: &Event) -> (r: Result<Action, SetupError>)
        ensures
            old(self).transition(*e) matches Ok((next, a)) ==> r == Ok::<Action, SetupError>(a)
                && *final(self) == next,
            old(self).transition(*e) matches Err(err) ==> r == Err::<Action, SetupError>(err)
                && *final(self) == *old(self),
    {
        if !self.running {
            return Ok(Action::Nothing);
        }
        match *e {
            Event::Resumed { surface } => match surface {
                Some(s) => {
                    if self.state == LifecycleState::Initialized {
                        return Ok(Action::Nothing);
                    }
                    let pd = adapt(self.platform, &s.handle)?;
                    self.state = LifecycleState::Initialized;
                    Ok(
                        Action::Init(
                            InitConfig {
                                renderer: renderer_for(self.platform),
                                width: s.width,
                                height: s.height,
                                vsync: true,
                                platform_data: pd,
                            },
                        ),
                    )
                },
                None => Ok(Action::Nothing),
            },
            Event::Suspended => {
                if self.state == LifecycleState::Initialized {
                    self.state = LifecycleState::Uninitialized;
                    Ok(Action::Shutdown)
                } else {
                    Ok(Action::Nothing)
                }
            },
            Event::Resized { width, height } => {
                if self.state == LifecycleState::Initialized {
                    Ok(Action::Reset { width, height })
                } else {
                    Ok(Action::Nothing)
                }
            },
            Event::RedrawRequested { size } => {
                if self.state == LifecycleState::Initialized {
                    let view = match size {
                        Some(sz) => Some(
                            ViewRect {
                                width: (sz.width % 0x10000) as u16,
                                height: (sz.height % 0x10000) as u16,
                            },
                        ),
                        None => None,
                    };
                    Ok(Action::Draw(FramePlan { clear_rgba: CLEAR_RGBA, view }))
                } else {
                    Ok(Action::Nothing)
                }
            },
            Event::CloseRequested => {
                self.running = false;
                Ok(Action::Exit)
            },
            Event::LoopDestroyed | Event::Other => Ok(Action::Nothing),
        }
    }

    /// Takes the backend's answer to an `Init` action. A refusal is
    /// `BackendInitFailure` and leaves the controller with the backend down.
    pub fn init_finished(&mut self, succeeded: bool) -> (r: Result<(), SetupError>)
        ensures
            succeeded ==> r == Ok::<(), SetupError>(()) && *final(self) == *old(self),
            !succeeded ==> r == Err::<(), SetupError>(SetupError::BackendInitFailure)
                && *final(self) == (Controller { state: LifecycleState::Uninitialized, ..*old(self) }),
    {
        if succeeded {
            Ok(())
        } else {
            self.state = LifecycleState::Uninitialized;
            Err(SetupError::BackendInitFailure)
        }
    }
}

/// Whether `acts`, performed on a backend that is up exactly when `live`,
/// never initialises a live backend and never shuts down, resets or draws
/// on one that is down.
pub open spec fn well_paired(live: bool, acts: Seq<Action>) -> bool
    decreases acts.len(),
{
    if acts.len() == 0 {
        true
    } else {
        let rest = acts.drop_first();
        match acts[0] {
            Action::Init(_) => !live && well_paired(true, rest),
            Action::Shutdown => live && well_paired(false, rest),
            Action::Reset { .. } | Action::Draw(_) => live && well_paired(live, rest),
            Action::Nothing | Action::Exit => well_paired(live, rest),
        }
    }
}

/// Init and shutdown always alternate, and reset and draw only reach a live
/// backend: for every controller and every sequence of events, the actions
/// are well paired from the controller's own state.
pub proof fn backend_calls_are_paired(c: Controller, events: Seq<Event>)
    ensures
        well_paired(c.state == LifecycleState::Initialized, c.run(events)),
    decreases events.len(),
{
    if events.len() > 0 {
        if let Ok((next, a)) = c.transition(events[0]) {
            backend_calls_are_paired(next, events.drop_first());
            let acts = c.run(events);
            assert(acts.drop_first() =~= next.run(events.drop_first()));
        }
    }
}

/// Starting with the backend down, the first action that calls the backend,
/// whatever the events, is an init.
pub proof fn first_backend_call_is_init(c: Controller, events: Seq<Event>)
    requires
        c.state == LifecycleState::Uninitialized,
    ensures
        forall|i: int|
            0 <= i < c.run(events).len() && (#[trigger] c.run(events)[i]).calls_backend() && (
            forall|j: int| 0 <= j < i ==> !c.run(events)[j].calls_backend()) ==> c.run(events)[i] is Init,
    decreases events.len(),
{
    if events.len() > 0 {
        if let Ok((next, a)) = c.transition(events[0]) {
            let rest = next.run(events.drop_first());
            let acts = c.run(events);
            assert(acts == seq![a] + rest);
            assert(acts[0] == a);
            if !(a is Init) {
                assert(!a.calls_backend());
                assert(next.state == LifecycleState::Uninitialized);
                first_backend_call_is_init(next, events.drop_first());
                assert forall|i: int|
                    0 <= i < acts.len() && (#[trigger] acts[i]).calls_backend() && (forall|j: int|
                        0 <= j < i ==> !acts[j].calls_backend()) implies acts[i] is Init by {
                    assert(i > 0);
                    assert(acts[i] == rest[i - 1]);
                    assert forall|j: int| 0 <= j < i - 1 implies !rest[j].calls_backend() by {
                        assert(acts[j + 1] == rest[j]);
                    }
                }
            }
        }
    }
}

/// A suspend takes a live backend down with one shutdown, and a resume with
/// a supported window brings it back with one init of that window.
pub proof fn suspend_then_resume(c: Controller, s: Surface)
    requires
        c.running,
        c.state == LifecycleState::Initialized,
        adapted(c.platform, s.handle) is Some,
    ensures
        c.transition(Event::Suspended) == Ok::<(Controller, Action), SetupError>(
            (Controller { state: LifecycleState::Uninitialized, ..c }, Action::Shutdown),
        ),
        c.run(seq![Event::Suspended, Event::Resumed { surface: Some(s) }]) == seq![
            Action::Shutdown,
            Action::Init(
                InitConfig {
                    renderer: renderer_of(c.platform),
                    width: s.width,
                    height: s.height,
                    vsync: true,
                    platform_data: adapted(c.platform, s.handle)->0,
                },
            ),
        ],
{
    let events = seq![Event::Suspended, Event::Resumed { surface: Some(s) }];
    let down = Controller { state: LifecycleState::Uninitialized, ..c };
    assert(events.drop_first() =~= seq![Event::Resumed { surface: Some(s) }]);
    assert(events.drop_first().drop_first() =~= Seq::<Event>::empty());
    let up = Controller { state: LifecycleState::Initialized, ..down };
    let init = Action::Init(
        InitConfig {
            renderer: renderer_of(c.platform),
            width: s.width,
            height: s.height,
            vsync: true,
            platform_data: adapted(c.platform, s.handle)->0,
        },
    );
    assert(up.run(Seq::<Event>::empty()) == Seq::<Action>::empty());
    assert(down.run(events.drop_first()) == seq![init] + up.run(Seq::<Event>::empty()));
    assert(c.run(events) == seq![Action::Shutdown] + down.run(events.drop_first()));
    assert(c.run(events) =~= seq![
        Action::Shutdown,
        Action::Init(
            InitConfig {
                renderer: renderer_of(c.platform),
                width: s.width,
                height: s.height,
                vsync: true,
                platform_data: adapted(c.platform, s.handle)->0,
            },
        ),
    ]);
}

/// A resize reaches the backend only while it is up, and then as one reset
/// to the new size.
pub proof fn resize_is_gated(c: Controller, width: u32, height: u32)
    requires
        c.running,
    ensures
        c.state == LifecycleState::Uninitialized ==> c.transition(
            Event::Resized { width, height },
        ) == Ok::<(Controller, Action), SetupError>((c, Action::Nothing)),
        c.state == LifecycleState::Initialized ==> c.transition(
            Event::Resized { width, height },
        ) == Ok::<(Controller, Action), SetupError>((c, Action::Reset { width, height })),
{
}

/// Once the loop has been asked to end, no event leads to any action.
proof fn stopped_stays_idle(c: Controller, events: Seq<Event>)
    requires
        !c.running,
    ensures
        c.run(events).len() == events.len(),
        forall|i: int| 0 <= i < events.len() ==> c.run(events)[i] == Action::Nothing,
    decreases events.len(),
{
    if events.len() > 0 {
        stopped_stays_idle(c, events.drop_first());
        assert(c.run(events) == seq![Action::Nothing] + c.run(events.drop_first()));
    }
}

/// A close request, in any state, ends the loop without a backend call, and
/// every event after it is ignored.
pub proof fn close_ends_the_loop(c: Controller, events: Seq<Event>)
    ensures
        c.running ==> c.transition(Event::CloseRequested) == Ok::<(Controller, Action), SetupError>(
            (Controller { running: false, ..c }, Action::Exit),
        ),
        forall|i: int|
            0 <= i < events.len() ==> (Controller { running: false, ..c }).run(events)[i]
                == Action::Nothing,
        (Controller { running: false, ..c }).run(events).len() == events.len(),
{
    stopped_stays_idle(Controller { running: false, ..c }, events);
}

} // verus!
