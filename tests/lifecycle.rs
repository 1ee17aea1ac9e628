use bgfx_window::error::SetupError;
use bgfx_window::lifecycle::{
    Action, Controller, Event, FramePlan, InitConfig, LifecycleState, Surface, SurfaceSize, ViewRect,
    CLEAR_RGBA,
};
use bgfx_window::surface::{BackendPlatformData, Platform, PlatformHandle, Renderer};

fn xlib_surface(width: u32, height: u32) -> Surface {
    Surface { handle: PlatformHandle::Xlib { window: 0x1234, display: 0x5678 }, width, height }
}

fn resumed(s: Surface) -> Event {
    Event::Resumed { surface: Some(s) }
}

fn run(c: &mut Controller, events: &[Event]) -> Vec<Action> {
    events.iter().map(|e| c.handle(e).unwrap()).collect()
}

#[test]
fn resume_initialises_with_surface_size_and_vsync() {
    let mut c = Controller::new(Platform::Linux);
    let a = c.handle(&resumed(xlib_surface(800, 600))).unwrap();
    assert_eq!(
        a,
        Action::Init(InitConfig {
            renderer: Renderer::OpenGl,
            width: 800,
            height: 600,
            vsync: true,
            platform_data: BackendPlatformData { nwh: 0x1234, ndt: 0x5678 },
        })
    );
    assert_eq!(c.state, LifecycleState::Initialized);
}

#[test]
fn full_session_sequence() {
    let mut c = Controller::new(Platform::Linux);
    let acts = run(
        &mut c,
        &[
            resumed(xlib_surface(800, 600)),
            Event::Resized { width: 1024, height: 768 },
            Event::RedrawRequested { size: Some(SurfaceSize { width: 1024, height: 768 }) },
            Event::Suspended,
            Event::Resized { width: 999, height: 999 },
        ],
    );
    assert_eq!(acts.len(), 5);
    assert!(matches!(acts[0], Action::Init(_)));
    assert_eq!(acts[1], Action::Reset { width: 1024, height: 768 });
    assert_eq!(
        acts[2],
        Action::Draw(FramePlan {
            clear_rgba: CLEAR_RGBA,
            view: Some(ViewRect { width: 1024, height: 768 }),
        })
    );
    assert_eq!(acts[3], Action::Shutdown);
    assert_eq!(acts[4], Action::Nothing);
    assert_eq!(c.state, LifecycleState::Uninitialized);
}

#[test]
fn unrecognized_handle_fails_before_any_call() {
    let mut c = Controller::new(Platform::Linux);
    let before = c;
    let r = c.handle(&resumed(Surface { handle: PlatformHandle::Unrecognized, width: 800, height: 600 }));
    assert_eq!(r, Err(SetupError::UnsupportedWindowSystem));
    assert_eq!(c, before);
}

#[test]
fn close_ends_loop_in_either_state() {
    let later = [
        resumed(xlib_surface(640, 480)),
        Event::Resized { width: 10, height: 10 },
        Event::RedrawRequested { size: None },
        Event::Suspended,
    ];
    let mut down = Controller::new(Platform::Linux);
    assert_eq!(down.handle(&Event::CloseRequested), Ok(Action::Exit));
    assert!(!down.running);
    assert!(run(&mut down, &later).iter().all(|a| *a == Action::Nothing));

    let mut up = Controller::new(Platform::Linux);
    up.handle(&resumed(xlib_surface(640, 480))).unwrap();
    assert_eq!(up.handle(&Event::CloseRequested), Ok(Action::Exit));
    assert!(run(&mut up, &later).iter().all(|a| *a == Action::Nothing));
    assert_eq!(up.state, LifecycleState::Initialized);
}

#[test]
fn nothing_reaches_backend_before_resume() {
    let mut c = Controller::new(Platform::Linux);
    let acts = run(
        &mut c,
        &[
            Event::Suspended,
            Event::Resized { width: 1, height: 2 },
            Event::RedrawRequested { size: Some(SurfaceSize { width: 3, height: 4 }) },
            Event::Resumed { surface: None },
            Event::LoopDestroyed,
            Event::Other,
        ],
    );
    assert!(acts.iter().all(|a| *a == Action::Nothing));
    assert_eq!(c.state, LifecycleState::Uninitialized);
    assert!(matches!(c.handle(&resumed(xlib_surface(1, 1))), Ok(Action::Init(_))));
}

#[test]
fn suspend_resume_pairs_shutdown_and_init() {
    let mut c = Controller::new(Platform::Android);
    let s = Surface { handle: PlatformHandle::Android { native_window: 0x99 }, width: 1080, height: 1920 };
    let acts = run(&mut c, &[resumed(s), Event::Suspended, Event::Suspended, resumed(s), resumed(s)]);
    let cfg = InitConfig {
        renderer: Renderer::OpenGlEs,
        width: 1080,
        height: 1920,
        vsync: true,
        platform_data: BackendPlatformData { nwh: 0x99, ndt: 0 },
    };
    assert_eq!(
        acts,
        vec![Action::Init(cfg), Action::Shutdown, Action::Nothing, Action::Init(cfg), Action::Nothing]
    );
}

#[test]
fn resize_gated_on_state() {
    let mut c = Controller::new(Platform::Windows);
    assert_eq!(c.handle(&Event::Resized { width: 300, height: 200 }), Ok(Action::Nothing));
    c.handle(&resumed(Surface { handle: PlatformHandle::Windows { hwnd: 0x10 }, width: 1, height: 1 }))
        .unwrap();
    assert_eq!(c.handle(&Event::Resized { width: 300, height: 200 }), Ok(Action::Reset { width: 300, height: 200 }));
    assert_eq!(c.handle(&Event::Resized { width: 0, height: 0 }), Ok(Action::Reset { width: 0, height: 0 }));
}

#[test]
fn redraw_view_rect_keeps_low_bits() {
    let mut c = Controller::new(Platform::Linux);
    c.handle(&resumed(xlib_surface(1, 1))).unwrap();
    assert_eq!(
        c.handle(&Event::RedrawRequested { size: Some(SurfaceSize { width: 65535, height: 65536 + 7 }) }),
        Ok(Action::Draw(FramePlan { clear_rgba: 0x103030ff, view: Some(ViewRect { width: 65535, height: 7 }) }))
    );
    assert_eq!(
        c.handle(&Event::RedrawRequested { size: None }),
        Ok(Action::Draw(FramePlan { clear_rgba: 0x103030ff, view: None }))
    );
}

#[test]
fn init_refusal_is_fatal_and_takes_state_down() {
    let mut c = Controller::new(Platform::Linux);
    c.handle(&resumed(xlib_surface(800, 600))).unwrap();
    assert_eq!(c.init_finished(true), Ok(()));
    assert_eq!(c.state, LifecycleState::Initialized);
    assert_eq!(c.init_finished(false), Err(SetupError::BackendInitFailure));
    assert_eq!(c.state, LifecycleState::Uninitialized);
}

#[test]
fn second_resume_does_not_reinitialise() {
    let mut c = Controller::new(Platform::Linux);
    c.handle(&resumed(xlib_surface(800, 600))).unwrap();
    assert_eq!(c.handle(&resumed(xlib_surface(800, 600))), Ok(Action::Nothing));
    assert_eq!(
        c.handle(&resumed(Surface { handle: PlatformHandle::Unrecognized, width: 1, height: 1 })),
        Ok(Action::Nothing)
    );
}
