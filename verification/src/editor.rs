//! The protocol by which the host opens a plugin's editor in a window:
//! create the view, find the window's native handle, attach the view, give
//! it a frame and size the window to the view. The host performs each call
//! that a `ViewAction` names and answers with the `ViewEvent` it gave;
//! `ViewOpener::advance` decides what comes next.
use vstd::prelude::*;
use crate::load::RESULT_OK;

verus! {

/// Message with which opening fails when the plugin has no editor.
pub const NO_GUI: &'static str = "Plugin does not have a GUI!";

/// Message with which opening fails when the window's handle cannot be
/// given to the plugin on this system.
pub const UNSUPPORTED_PLATFORM: &'static str = "Unsupported platform.";

/// The operating system the host was built for.
#[derive(Clone, Copy, PartialEq, Eq, Structural)]
pub enum HostOs {
    Windows,
    MacOs,
    Linux,
    Other,
}

/// The kind of native handle a window has.
#[derive(Clone, Copy, PartialEq, Eq, Structural)]
pub enum WindowSystem {
    Win32,
    AppKit,
    Xlib,
    Other,
}

/// The SDK's name for a kind of parent window handle.
#[derive(Clone, Copy, PartialEq, Eq, Structural)]
pub enum PlatformType {
    /// `kPlatformTypeHWND`
    Hwnd,
    /// `kPlatformTypeNSView`
    NsView,
    /// `kPlatformTypeX11EmbedWindowID`
    X11EmbedWindowId,
}

/// The platform type under which a handle of `system` is given to a plugin
/// on `os`: a Win32 window on Windows, an AppKit view on macOS, an Xlib
/// window on Linux; no other pairing is supported.
pub open spec fn platform_for(system: WindowSystem, os: HostOs) -> Option<PlatformType> {
    match (system, os) {
        (WindowSystem::Win32, HostOs::Windows) => Some(PlatformType::Hwnd),
        (WindowSystem::AppKit, HostOs::MacOs) => Some(PlatformType::NsView),
        (WindowSystem::Xlib, HostOs::Linux) => Some(PlatformType::X11EmbedWindowId),
        _ => None,
    }
}

/// The platform type for a handle of `system` on `os`, if supported.
pub fn platform_type(system: WindowSystem, os: HostOs) -> (platform: Option<PlatformType>)
    ensures
        platform == platform_for(system, os),
{
    match (system, os) {
        (WindowSystem::Win32, HostOs::Windows) => Some(PlatformType::Hwnd),
        (WindowSystem::AppKit, HostOs::MacOs) => Some(PlatformType::NsView),
        (WindowSystem::Xlib, HostOs::Linux) => Some(PlatformType::X11EmbedWindowId),
        _ => None,
    }
}

/// Where opening the editor stands.
#[derive(Clone, Copy, PartialEq, Eq, Structural)]
pub enum ViewPhase {
    CreatingView,
    FindingHandle,
    Attaching,
    SettingFrame,
    Sizing,
    Resizing,
    Done,
}

/// What the host learnt from the call that the last action asked for.
#[derive(Clone, Copy)]
pub enum ViewEvent {
    /// Whether `createView` gave a non-null view.
    ViewCreated(bool),
    /// The kind of the window's native handle, or `None` when it has none.
    WindowHandle(Option<WindowSystem>),
    /// The result code of the call.
    Returned(i32),
    /// What `getSize` returned, with the rectangle it filled in.
    Size { result: i32, left: i32, top: i32, right: i32, bottom: i32 },
    /// The window was asked to take the requested size.
    Resized,
}

/// Why opening the editor stops the host, as the host's assertions do.
#[derive(Clone, Copy, PartialEq, Eq, Structural)]
pub enum ViewFailure {
    NoWindowHandle,
    AttachFailed,
    SetFrameFailed,
    SizeOverflow,
    OutOfOrder,
}

/// Why opening the editor returns an error to its caller.
#[derive(Clone, Copy, PartialEq, Eq, Structural)]
pub enum ViewError {
    NoGui,
    UnsupportedPlatform,
}

/// The next call the host is to make, or the end of opening the editor.
#[derive(Clone, Copy)]
pub enum ViewAction {
    CreateView,
    FindWindowHandle,
    Attach(PlatformType),
    SetFrame,
    GetSize,
    RequestSize { width: i32, height: i32 },
    Finish(Result<(), ViewError>),
    Abort(ViewFailure),
}

/// The state of opening one editor.
#[derive(Clone, Copy)]
pub struct ViewOpener {
    pub phase: ViewPhase,
    pub os: HostOs,
}

impl ViewError {
    /// The message opening the editor fails with.
    pub fn message(&self) -> (text: String)
        ensures
            text@ == match self {
                ViewError::NoGui => NO_GUI@,
                ViewError::UnsupportedPlatform => UNSUPPORTED_PLATFORM@,
            },
    {
        match self {
            ViewError::NoGui => NO_GUI.to_string(),
            ViewError::UnsupportedPlatform => UNSUPPORTED_PLATFORM.to_string(),
        }
    }
}

/// Opening goes on to `phase`, asking for `action`.
pub open spec fn view_go(s: ViewOpener, phase: ViewPhase, action: ViewAction) -> (ViewOpener, ViewAction) {
    (ViewOpener { phase, ..s }, action)
}

/// Opening stops the host.
pub open spec fn view_abort(s: ViewOpener, why: ViewFailure) -> (ViewOpener, ViewAction) {
    view_go(s, ViewPhase::Done, ViewAction::Abort(why))
}

/// Opening ends with `outcome`.
pub open spec fn view_finish(s: ViewOpener, outcome: Result<(), ViewError>) -> (ViewOpener, ViewAction) {
    view_go(s, ViewPhase::Done, ViewAction::Finish(outcome))
}

/// The transition of opening the editor: from `s`, on learning `e`, the
/// next state and action. An event that does not answer the pending call
/// stops the host.
pub open spec fn view_step(s: ViewOpener, e: ViewEvent) -> (ViewOpener, ViewAction) {
    match (s.phase, e) {
        (ViewPhase::CreatingView, ViewEvent::ViewCreated(present)) =>
            if present {
                view_go(s, ViewPhase::FindingHandle, ViewAction::FindWindowHandle)
            } else {
                view_finish(s, Err(ViewError::NoGui))
            },
        (ViewPhase::FindingHandle, ViewEvent::WindowHandle(handle)) => match handle {
            None => view_abort(s, ViewFailure::NoWindowHandle),
            Some(system) => match platform_for(system, s.os) {
                Some(platform) => view_go(s, ViewPhase::Attaching, ViewAction::Attach(platform)),
                None => view_finish(s, Err(ViewError::UnsupportedPlatform)),
            },
        },
        (ViewPhase::Attaching, ViewEvent::Returned(r)) =>
            if r == RESULT_OK {
                view_go(s, ViewPhase::SettingFrame, ViewAction::SetFrame)
            } else {
                view_abort(s, ViewFailure::AttachFailed)
            },
        (ViewPhase::SettingFrame, ViewEvent::Returned(r)) =>
            if r == RESULT_OK {
                view_go(s, ViewPhase::Sizing, ViewAction::GetSize)
            } else {
                view_abort(s, ViewFailure::SetFrameFailed)
            },
        (ViewPhase::Sizing, ViewEvent::Size { result, left, top, right, bottom }) =>
            if result != RESULT_OK {
                view_finish(s, Ok(()))
            } else if i32::MIN <= right - left <= i32::MAX && i32::MIN <= bottom - top <= i32::MAX {
                view_go(
                    s,
                    ViewPhase::Resizing,
                    ViewAction::RequestSize { width: (right - left) as i32, height: (bottom - top) as i32 },
                )
            } else {
                view_abort(s, ViewFailure::SizeOverflow)
            },
        (ViewPhase::Resizing, ViewEvent::Resized) => view_finish(s, Ok(())),
        _ => view_abort(s, ViewFailure::OutOfOrder),
    }
}

/// The state after answering each call of opening an editor with
/// `events`, in order.
pub open spec fn run_view(s: ViewOpener, events: Seq<ViewEvent>) -> ViewOpener
    decreases events.len(),
{
    if events.len() == 0 {
        s
    } else {
        view_step(run_view(s, events.drop_last()), events.last()).0
    }
}

/// How many calls have been answered when opening stands at `phase`.
pub open spec fn calls_answered(phase: ViewPhase) -> int {
    match phase {
        ViewPhase::CreatingView => 0,
        ViewPhase::FindingHandle => 1,
        ViewPhase::Attaching => 2,
        ViewPhase::SettingFrame => 3,
        ViewPhase::Sizing => 4,
        ViewPhase::Resizing => 5,
        ViewPhase::Done => -1,
    }
}

/// `e` is a good answer to the call made at step `step` of opening an
/// editor on `os`: the view exists, the window's handle is of a supported
/// kind, attaching and setting the frame succeed, the size is read.
pub open spec fn answered_well(os: HostOs, step: int, e: ViewEvent) -> bool {
    match e {
        ViewEvent::ViewCreated(present) => step == 0 && present,
        ViewEvent::WindowHandle(Some(system)) => step == 1 && platform_for(system, os) is Some,
        ViewEvent::Returned(r) => (step == 2 || step == 3) && r == RESULT_OK,
        ViewEvent::Size { result, .. } => step == 4 && result == RESULT_OK,
        _ => false,
    }
}

/// While opening is under way, every call so far was answered well, one
/// step after the other.
pub proof fn lemma_view_run_in_progress(os: HostOs, events: Seq<ViewEvent>)
    ensures
        ({
            let t = run_view(ViewOpener { phase: ViewPhase::CreatingView, os }, events);
            &&& t.os == os
            &&& !(t.phase is Done) ==> calls_answered(t.phase) == events.len()
            &&& !(t.phase is Done) ==> forall|i: int| 0 <= i < events.len() ==> answered_well(os, i, #[trigger] events[i])
        }),
    decreases events.len(),
{
    if events.len() > 0 {
        let prev = events.drop_last();
        lemma_view_run_in_progress(os, prev);
        let t = run_view(ViewOpener { phase: ViewPhase::CreatingView, os }, events);
        if !(t.phase is Done) {
            assert forall|i: int| 0 <= i < events.len() implies answered_well(os, i, #[trigger] events[i]) by {
                if i < prev.len() {
                    assert(events[i] == prev[i]);
                }
            }
        }
    }
}

/// The editor is reported open only after the view was created, the
/// window's handle was of a supported kind, and attaching the view and
/// giving it its frame both succeeded.
pub proof fn lemma_view_opens_only_after_attaching(os: HostOs, events: Seq<ViewEvent>)
    requires
        events.len() > 0,
        ({
            let s = run_view(ViewOpener { phase: ViewPhase::CreatingView, os }, events.drop_last());
            view_step(s, events.last()).1 == ViewAction::Finish(Ok(()))
        }),
    ensures
        events.len() >= 5,
        forall|i: int| 0 <= i < 4 ==> answered_well(os, i, #[trigger] events[i]),
{
    let prev = events.drop_last();
    lemma_view_run_in_progress(os, prev);
    assert forall|i: int| 0 <= i < 4 implies answered_well(os, i, #[trigger] events[i]) by {
        assert(events[i] == prev[i]);
    }
}

/// The window is asked for exactly the view's extent, right minus left by
/// bottom minus top, as `getSize` reported it.
pub proof fn lemma_requested_size_is_view_extent(s: ViewOpener, e: ViewEvent)
    requires
        view_step(s, e).1 is RequestSize,
    ensures
        s.phase is Sizing,
        e matches ViewEvent::Size { result, left, top, right, bottom } && result == RESULT_OK
            && view_step(s, e).1 == (ViewAction::RequestSize { width: (right - left) as i32, height: (bottom - top) as i32 })
            && right - left == (right - left) as i32 && bottom - top == (bottom - top) as i32,
{
}

/// The window's handle is given to the plugin under the platform type of
/// its kind: on a Linux host an Xlib window as `X11EmbedWindowID`, on a
/// macOS host an AppKit view as `NSView`, on a Windows host a Win32 window as
/// `HWND`; any other handle fails as an unsupported platform. Attaching is
/// asked for at no other point.
pub proof fn lemma_handle_attached_under_its_platform(s: ViewOpener, e: ViewEvent, system: WindowSystem)
    ensures
        s.phase is FindingHandle ==> view_step(s, ViewEvent::WindowHandle(Some(system))).1 == (
        if system == WindowSystem::Xlib && s.os == HostOs::Linux {
            ViewAction::Attach(PlatformType::X11EmbedWindowId)
        } else if system == WindowSystem::AppKit && s.os == HostOs::MacOs {
            ViewAction::Attach(PlatformType::NsView)
        } else if system == WindowSystem::Win32 && s.os == HostOs::Windows {
            ViewAction::Attach(PlatformType::Hwnd)
        } else {
            ViewAction::Finish(Err(ViewError::UnsupportedPlatform))
        }),
        view_step(s, e).1 is Attach ==> s.phase is FindingHandle && e is WindowHandle,
{
}

/// Each answer to a step of opening the editor decides the next step: a
/// created view leads to finding the window's handle and a missing handle
/// stops the host; a successful attach leads to setting the frame and a
/// failed one stops the host; a successful frame leads to reading the size
/// and a failed one stops the host; a size that cannot be read ends the
/// opening successfully without resizing; after resizing, the opening ends
/// successfully.
pub proof fn lemma_view_answer_decides_next_step(s: ViewOpener, r: i32, left: i32, top: i32, right: i32, bottom: i32)
    ensures
        s.phase is CreatingView ==> view_step(s, ViewEvent::ViewCreated(true)).1 is FindWindowHandle,
        s.phase is FindingHandle ==> view_step(s, ViewEvent::WindowHandle(None)).1 == ViewAction::Abort(
            ViewFailure::NoWindowHandle,
        ),
        s.phase is Attaching ==> view_step(s, ViewEvent::Returned(r)).1 == (if r == RESULT_OK {
            ViewAction::SetFrame
        } else {
            ViewAction::Abort(ViewFailure::AttachFailed)
        }),
        s.phase is SettingFrame ==> view_step(s, ViewEvent::Returned(r)).1 == (if r == RESULT_OK {
            ViewAction::GetSize
        } else {
            ViewAction::Abort(ViewFailure::SetFrameFailed)
        }),
        s.phase is Sizing && r != RESULT_OK ==> view_step(s, ViewEvent::Size { result: r, left, top, right, bottom }).1
            == ViewAction::Finish(Ok(())),
        s.phase is Sizing && i32::MIN <= right - left <= i32::MAX && i32::MIN <= bottom - top <= i32::MAX ==> view_step(
            s,
            ViewEvent::Size { result: RESULT_OK, left, top, right, bottom },
        ).1 == (ViewAction::RequestSize { width: (right - left) as i32, height: (bottom - top) as i32 }),
        s.phase is Resizing ==> view_step(s, ViewEvent::Resized).1 == ViewAction::Finish(Ok(())),
{
}

/// Opening returns an error exactly when the plugin gives no view, or when
/// the window's handle is of a kind this system cannot hand to a plugin.
pub proof fn lemma_view_errors(s: ViewOpener, e: ViewEvent)
    ensures
        view_step(s, e).1 == ViewAction::Finish(Err(ViewError::NoGui)) <==> (s.phase is CreatingView
            && e == ViewEvent::ViewCreated(false)),
        view_step(s, e).1 == ViewAction::Finish(Err(ViewError::UnsupportedPlatform)) <==> (s.phase is FindingHandle
            && (e matches ViewEvent::WindowHandle(Some(system)) && platform_for(system, s.os) is None)),
{
}

impl ViewOpener {
    /// Opening an editor on a host built for `os`, and the first call it
    /// asks for.
    pub fn new(os: HostOs) -> (start: (ViewOpener, ViewAction))
        ensures
            start.0 == (ViewOpener { phase: ViewPhase::CreatingView, os }),
            start.1 is CreateView,
    {
        (ViewOpener { phase: ViewPhase::CreatingView, os }, ViewAction::CreateView)
    }

    fn go(&mut self, phase: ViewPhase, action: ViewAction) -> (out: ViewAction)
        ensures
            (*final(self), out) == view_go(*old(self), phase, action),
    {
        self.phase = phase;
        action
    }

    /// Takes in what the last call gave and decides the next call, as
    /// `view_step` describes.
    pub fn advance(&mut self, event: ViewEvent) -> (action: ViewAction)
        ensures
            (*final(self), action) == view_step(*old(self), event),
    {
        match (self.phase, event) {
            (ViewPhase::CreatingView, ViewEvent::ViewCreated(present)) =>
                if present {
                    self.go(ViewPhase::FindingHandle, ViewAction::FindWindowHandle)
                } else {
                    self.go(ViewPhase::Done, ViewAction::Finish(Err(ViewError::NoGui)))
                },
            (ViewPhase::FindingHandle, ViewEvent::WindowHandle(handle)) => match handle {
                None => self.go(ViewPhase::Done, ViewAction::Abort(ViewFailure::NoWindowHandle)),
                Some(system) => match platform_type(system, self.os) {
                    Some(platform) => self.go(ViewPhase::Attaching, ViewAction::Attach(platform)),
                    None => self.go(ViewPhase::Done, ViewAction::Finish(Err(ViewError::UnsupportedPlatform))),
                },
            },
            (ViewPhase::Attaching, ViewEvent::Returned(r)) =>
                if r == RESULT_OK {
                    self.go(ViewPhase::SettingFrame, ViewAction::SetFrame)
                } else {
                    self.go(ViewPhase::Done, ViewAction::Abort(ViewFailure::AttachFailed))
                },
            (ViewPhase::SettingFrame, ViewEvent::Returned(r)) =>
                if r == RESULT_OK {
                    self.go(ViewPhase::Sizing, ViewAction::GetSize)
                } else {
                    self.go(ViewPhase::Done, ViewAction::Abort(ViewFailure::SetFrameFailed))
                },
            (ViewPhase::Sizing, ViewEvent::Size { result, left, top, right, bottom }) =>
                if result != RESULT_OK {
                    self.go(ViewPhase::Done, ViewAction::Finish(Ok(())))
                } else {
                    match (right.checked_sub(left), bottom.checked_sub(top)) {
                        (Some(width), Some(height)) =>
                            self.go(ViewPhase::Resizing, ViewAction::RequestSize { width, height }),
                        _ => self.go(ViewPhase::Done, ViewAction::Abort(ViewFailure::SizeOverflow)),
                    }
                },
            (ViewPhase::Resizing, ViewEvent::Resized) => self.go(ViewPhase::Done, ViewAction::Finish(Ok(()))),
            _ => self.go(ViewPhase::Done, ViewAction::Abort(ViewFailure::OutOfOrder)),
        }
    }
}

} // verus!
