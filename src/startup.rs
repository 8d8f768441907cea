use vstd::prelude::*;
use crate::style::{ExStyle, WindowStyle, STYLE_POPUP, STYLE_VISIBLE, STYLE_CLIP_SIBLINGS,
    EX_LAYERED, EX_TRANSPARENT, EX_TOOL_WINDOW, EX_NO_ACTIVATE};

verus! {

/// Why the overlay could not start.
#[derive(Clone, Copy, Debug, PartialEq, Eq, Structural)]
pub enum OverlayError {
    /// No window with the target title exists.
    WindowNotFound,
    /// The host has no display to attach to.
    NoMonitorAvailable,
    /// The graphics context could not be created.
    DisplayError,
    /// The UI renderer could not be created.
    RenderError,
    /// A window-style or compositor call failed.
    PlatformError,
}

/// A display: its position on the desktop and its size, in physical pixels.
#[derive(Clone, Copy, Debug, PartialEq, Eq, Structural)]
pub struct Monitor {
    pub x: i32,
    pub y: i32,
    pub width: u32,
    pub height: u32,
}

/// The window that the overlay follows, by its OS handle.
#[derive(Clone, Copy, Debug, PartialEq, Eq, Structural)]
pub struct TargetWindow {
    pub handle: i64,
}

/// `DWM_BB_ENABLE`: the `enable` field is set.
pub const BLUR_FLAG_ENABLE: u32 = 0x1;
/// `DWM_BB_BLURREGION`: the `region` field is set.
pub const BLUR_FLAG_REGION: u32 = 0x2;

/// A rectangle given by its left, top, right and bottom edges.
#[derive(Clone, Copy, Debug, PartialEq, Eq, Structural)]
pub struct Rect {
    pub left: i32,
    pub top: i32,
    pub right: i32,
    pub bottom: i32,
}

/// The compositor blur-behind request for the overlay.
#[derive(Clone, Copy, Debug, PartialEq, Eq, Structural)]
pub struct BlurBehind {
    pub flags: u32,
    pub enable: bool,
    pub region: Rect,
}

/// Everything the overlay window is created with.
#[derive(Clone, Copy, Debug, PartialEq, Eq, Structural)]
pub struct WindowPlan {
    pub target: TargetWindow,
    pub monitor: Monitor,
    pub resizable: bool,
    pub visible: bool,
    pub decorations: bool,
    pub shadow: bool,
    pub style: WindowStyle,
    pub ex_style: ExStyle,
    pub blur: BlurBehind,
    pub topmost: bool,
}

/// The display the overlay covers: the primary one, else the first listed.
pub open spec fn chosen_monitor(primary: Option<Monitor>, available: Seq<Monitor>) -> Option<
    Monitor,
> {
    if primary is Some {
        primary
    } else if available.len() > 0 {
        Some(available[0])
    } else {
        None
    }
}

/// The blur-behind request that keeps the compositing path of a layered
/// window while showing no blur: enabled, restricted to a 1x1 region.
pub open spec fn overlay_blur() -> BlurBehind {
    BlurBehind {
        flags: BLUR_FLAG_ENABLE | BLUR_FLAG_REGION,
        enable: true,
        region: Rect { left: 0, top: 0, right: 1, bottom: 1 },
    }
}

/// The plan for an overlay that covers `monitor` and follows `target`.
pub open spec fn overlay_plan(target: TargetWindow, monitor: Monitor) -> WindowPlan {
    WindowPlan {
        target,
        monitor,
        resizable: false,
        visible: false,
        decorations: false,
        shadow: false,
        style: WindowStyle { bits: STYLE_POPUP | STYLE_VISIBLE | STYLE_CLIP_SIBLINGS },
        ex_style: ExStyle { bits: EX_LAYERED | EX_TRANSPARENT | EX_TOOL_WINDOW | EX_NO_ACTIVATE },
        blur: overlay_blur(),
        topmost: true,
    }
}

/// Picks the display to cover.
pub fn choose_monitor(primary: Option<Monitor>, available: &Vec<Monitor>) -> (r: Option<Monitor>)
    ensures
        r == chosen_monitor(primary, available@),
{
    match primary {
        Some(m) => Some(m),
        None => {
            if available.len() > 0 {
                Some(available[0])
            } else {
                None
            }
        },
    }
}

/// The first startup check: the target window must exist.
pub fn require_target(target: Option<TargetWindow>) -> (r: Result<TargetWindow, OverlayError>)
    ensures
        r == match target {
            Some(t) => Ok::<TargetWindow, OverlayError>(t),
            None => Err::<TargetWindow, OverlayError>(OverlayError::WindowNotFound),
        },
{
    match target {
        Some(t) => Ok(t),
        None => Err(OverlayError::WindowNotFound),
    }
}

/// Decides how the overlay window is created, before any window exists:
/// the target must have been found, then a display must be there.
pub fn plan_overlay(target: Option<TargetWindow>, primary: Option<Monitor>, available: &Vec<
    Monitor,
>) -> (r: Result<WindowPlan, OverlayError>)
    ensures
        target is None ==> r == Err::<WindowPlan, OverlayError>(OverlayError::WindowNotFound),
        target is Some && chosen_monitor(primary, available@) is None ==> r == Err::<
            WindowPlan,
            OverlayError,
        >(OverlayError::NoMonitorAvailable),
        target is Some && chosen_monitor(primary, available@) is Some ==> r == Ok::<
            WindowPlan,
            OverlayError,
        >(overlay_plan(target->Some_0, chosen_monitor(primary, available@)->Some_0)),
{
    let target = match require_target(target) {
        Ok(t) => t,
        Err(e) => return Err(e),
    };
    let monitor = match choose_monitor(primary, available) {
        Some(m) => m,
        None => return Err(OverlayError::NoMonitorAvailable),
    };
    Ok(WindowPlan {
        target,
        monitor,
        resizable: false,
        visible: false,
        decorations: false,
        shadow: false,
        style: WindowStyle::overlay(),
        ex_style: ExStyle::overlay(),
        blur: BlurBehind {
            flags: BLUR_FLAG_ENABLE | BLUR_FLAG_REGION,
            enable: true,
            region: Rect { left: 0, top: 0, right: 1, bottom: 1 },
        },
        topmost: true,
    })
}

} // verus!
