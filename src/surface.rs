use vstd::prelude::*;

use crate::error::SetupError;

verus! {

/// The target family the program was built for; it decides which window
/// systems are understood and which renderer is asked for.
#[derive(Clone, Copy, Debug, PartialEq, Eq, Structural)]
pub enum Platform {
    Linux,
    /// DragonFly, FreeBSD, NetBSD and OpenBSD: X11 or Wayland, like Linux.
    Bsd,
    MacOs,
    Windows,
    Android,
    /// A target with no supported window system.
    Other,
}

/// A window system's native reference to a window, with every pointer held
/// as its address.
#[derive(Clone, Copy, Debug, PartialEq, Eq, Structural)]
pub enum PlatformHandle {
    Xlib { window: usize, display: usize },
    Wayland { surface: usize, display: usize },
    MacOs { ns_window: usize },
    Windows { hwnd: usize },
    Android { native_window: usize },
    /// Any window system not listed above (XCB, iOS, the web, ...).
    Unrecognized,
}

/// What the GPU backend is told about the native window: `nwh` is the
/// native window handle, `ndt` the native display; zero stands for null.
#[derive(Clone, Copy, Debug, PartialEq, Eq, Structural)]
pub struct BackendPlatformData {
    pub nwh: usize,
    pub ndt: usize,
}

/// The rendering API the backend is asked to use.
#[derive(Clone, Copy, Debug, PartialEq, Eq, Structural)]
pub enum Renderer {
    OpenGl,
    OpenGlEs,
    /// Let the backend pick the platform's default.
    Auto,
}

/// Whether X11 and Wayland windows are understood on `p`.
pub open spec fn is_unix_like(p: Platform) -> bool {
    p == Platform::Linux || p == Platform::Bsd
}

/// The platform data for `h` on `p`, or `None` where `p` does not know the
/// window system of `h`.
///
/// Wayland has no window object of its own: its surface goes where X11's
/// display goes, and its display where X11's window goes.
pub open spec fn adapted(p: Platform, h: PlatformHandle) -> Option<BackendPlatformData> {
    match h {
        PlatformHandle::Xlib { window, display } => if is_unix_like(p) {
            Some(BackendPlatformData { nwh: window, ndt: display })
        } else {
            None
        },
        PlatformHandle::Wayland { surface, display } => if is_unix_like(p) {
            Some(BackendPlatformData { nwh: display, ndt: surface })
        } else {
            None
        },
        PlatformHandle::MacOs { ns_window } => if p == Platform::MacOs {
            Some(BackendPlatformData { nwh: ns_window, ndt: 0 })
        } else {
            None
        },
        PlatformHandle::Windows { hwnd } => if p == Platform::Windows {
            Some(BackendPlatformData { nwh: hwnd, ndt: 0 })
        } else {
            None
        },
        PlatformHandle::Android { native_window } => if p == Platform::Android {
            Some(BackendPlatformData { nwh: native_window, ndt: 0 })
        } else {
            None
        },
        PlatformHandle::Unrecognized => None,
    }
}

/// Copies the native pointers of `handle` into the slots the backend expects.
/// A window system that `platform` does not support is an error.
pub fn adapt(platform: Platform, handle: &PlatformHandle) -> (r: Result<BackendPlatformData, SetupError>)
    ensures
        adapted(platform, *handle) matches Some(d) ==> r == Ok::<BackendPlatformData, SetupError>(d),
        adapted(platform, *handle) is None ==> r == Err::<BackendPlatformData, SetupError>(
            SetupError::UnsupportedWindowSystem,
        ),
{
    let unix_like = platform == Platform::Linux || platform == Platform::Bsd;
    let mut pd = BackendPlatformData { nwh: 0, ndt: 0 };
    match *handle {
        PlatformHandle::Xlib { window, display } if unix_like => {
            pd.nwh = window;
            pd.ndt = display;
        },
        PlatformHandle::Wayland { surface, display } if unix_like => {
            pd.ndt = surface;
            pd.nwh = display;
        },
        PlatformHandle::MacOs { ns_window } if platform == Platform::MacOs => {
            pd.nwh = ns_window;
        },
        PlatformHandle::Windows { hwnd } if platform == Platform::Windows => {
            pd.nwh = hwnd;
        },
        PlatformHandle::Android { native_window } if platform == Platform::Android => {
            pd.nwh = native_window;
        },
        _ => {
            return Err(SetupError::UnsupportedWindowSystem);
        },
    }
    Ok(pd)
}

/// The renderer asked for on `p`: OpenGL on Linux, OpenGL ES on Android, and
/// the backend's own choice elsewhere.
pub open spec fn renderer_of(p: Platform) -> Renderer {
    match p {
        Platform::Linux => Renderer::OpenGl,
        Platform::Android => Renderer::OpenGlEs,
        _ => Renderer::Auto,
    }
}

/// Picks the renderer for `platform`.
pub fn renderer_for(platform: Platform) -> (r: Renderer)
    ensures
        r == renderer_of(platform),
{
    match platform {
        Platform::Linux => Renderer::OpenGl,
        Platform::Android => Renderer::OpenGlEs,
        _ => Renderer::Auto,
    }
}

/// The Wayland mapping is the Xlib mapping with the two slots exchanged: the
/// same pair of addresses lands in `nwh` under one and in `ndt` under the other.
pub proof fn wayland_swaps_xlib_slots(p: Platform, a: usize, b: usize)
    requires
        is_unix_like(p),
    ensures
        adapted(p, PlatformHandle::Xlib { window: a, display: b }) == Some(
            BackendPlatformData { nwh: a, ndt: b },
        ),
        adapted(p, PlatformHandle::Wayland { surface: a, display: b }) == Some(
            BackendPlatformData { nwh: b, ndt: a },
        ),
{
}

} // verus!
