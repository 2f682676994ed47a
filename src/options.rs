use vstd::prelude::*;

verus! {

/// How windows are hidden when their workspace is not shown.
#[derive(Clone, Copy, Debug, PartialEq, Eq, Structural)]
pub enum HidingBehaviour {
    Hide,
    Minimize,
    Cloak,
}

/// What happens when a new window is opened.
#[derive(Clone, Copy, Debug, PartialEq, Eq, Structural)]
pub enum WindowContainerBehaviour {
    Create,
    Append,
}

/// What happens when a window is moved across a monitor boundary.
#[derive(Clone, Copy, Debug, PartialEq, Eq, Structural)]
pub enum MoveBehaviour {
    Swap,
    Insert,
}

/// What happens when commands are sent while an unmanaged window is in the
/// foreground.
#[derive(Clone, Copy, Debug, PartialEq, Eq, Structural)]
pub enum OperationBehaviour {
    Op,
    NoOp,
}

/// Which component makes focus follow the mouse.
#[derive(Clone, Copy, Debug, PartialEq, Eq, Structural)]
pub enum FocusFollowsMouseImplementation {
    Komorebi,
    Windows,
}

/// The built-in layouts.
#[derive(Clone, Copy, Debug, PartialEq, Eq, Structural)]
pub enum DefaultLayout {
    BSP,
    Columns,
    Rows,
    VerticalStack,
    HorizontalStack,
    UltrawideVerticalStack,
}

/// Easing functions for animations.
#[derive(Clone, Copy, Debug, PartialEq, Eq, Structural)]
pub enum EaseEnum {
    Linear,
    EaseInSine,
    EaseOutSine,
    EaseInOutSine,
    EaseInQuad,
    EaseOutQuad,
    EaseInOutQuad,
    EaseInCubic,
    EaseInOutCubic,
    EaseInQuart,
    EaseOutQuart,
    EaseInOutQuart,
    EaseInQuint,
    EaseOutQuint,
    EaseInOutQuint,
    EaseInExpo,
    EaseOutExpo,
    EaseInOutExpo,
    EaseInCirc,
    EaseOutCirc,
    EaseInOutCirc,
    EaseInBack,
    EaseOutBack,
    EaseInOutBack,
    EaseInElastic,
    EaseOutElastic,
    EaseInOutElastic,
    EaseInBounce,
    EaseOutBounce,
    EaseInOutBounce,
}

/// What to do with the operating system's own focus-follows-mouse setting.
#[derive(Clone, Copy, Debug, PartialEq, Eq, Structural)]
pub enum SystemFocusFollowsMouse {
    Enable,
    Disable,
    Leave,
}

/// The system setting that goes with a focus-follows-mouse choice: off when
/// none is chosen, on when the system's own is chosen, untouched otherwise.
pub open spec fn system_ffm_for(ffm: Option<FocusFollowsMouseImplementation>) -> SystemFocusFollowsMouse {
    match ffm {
        None => SystemFocusFollowsMouse::Disable,
        Some(FocusFollowsMouseImplementation::Windows) => SystemFocusFollowsMouse::Enable,
        Some(FocusFollowsMouseImplementation::Komorebi) => SystemFocusFollowsMouse::Leave,
    }
}

pub fn system_focus_follows_mouse(ffm: Option<FocusFollowsMouseImplementation>) -> (r: SystemFocusFollowsMouse)
    ensures
        r == system_ffm_for(ffm),
{
    match ffm {
        None => SystemFocusFollowsMouse::Disable,
        Some(FocusFollowsMouseImplementation::Windows) => SystemFocusFollowsMouse::Enable,
        Some(FocusFollowsMouseImplementation::Komorebi) => SystemFocusFollowsMouse::Leave,
    }
}

} // verus!
