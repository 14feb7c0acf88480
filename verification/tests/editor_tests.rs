use vst3_host::editor::{
    platform_type, HostOs, PlatformType, ViewAction, ViewError, ViewEvent, ViewFailure, ViewOpener, WindowSystem,
};
use vst3_host::load::RESULT_OK;

fn up_to_sizing(os: HostOs, system: WindowSystem) -> ViewOpener {
    let (mut opener, first) = ViewOpener::new(os);
    assert!(matches!(first, ViewAction::CreateView));
    assert!(matches!(opener.advance(ViewEvent::ViewCreated(true)), ViewAction::FindWindowHandle));
    assert!(matches!(opener.advance(ViewEvent::WindowHandle(Some(system))), ViewAction::Attach(_)));
    assert!(matches!(opener.advance(ViewEvent::Returned(RESULT_OK)), ViewAction::SetFrame));
    assert!(matches!(opener.advance(ViewEvent::Returned(RESULT_OK)), ViewAction::GetSize));
    opener
}

#[test]
fn opening_sizes_window_to_view() {
    let mut opener = up_to_sizing(HostOs::Linux, WindowSystem::Xlib);
    let size = ViewEvent::Size { result: RESULT_OK, left: 10, top: 20, right: 810, bottom: 620 };
    assert!(matches!(opener.advance(size), ViewAction::RequestSize { width: 800, height: 600 }));
    assert!(matches!(opener.advance(ViewEvent::Resized), ViewAction::Finish(Ok(()))));
}

#[test]
fn failed_size_query_skips_resizing() {
    let mut opener = up_to_sizing(HostOs::Windows, WindowSystem::Win32);
    let size = ViewEvent::Size { result: 1, left: 0, top: 0, right: 5, bottom: 5 };
    assert!(matches!(opener.advance(size), ViewAction::Finish(Ok(()))));
}

#[test]
fn overflowing_size_stops_the_host() {
    let mut opener = up_to_sizing(HostOs::MacOs, WindowSystem::AppKit);
    let size = ViewEvent::Size { result: RESULT_OK, left: -10, top: 0, right: i32::MAX, bottom: 5 };
    assert!(matches!(opener.advance(size), ViewAction::Abort(ViewFailure::SizeOverflow)));
}

#[test]
fn no_view_means_no_gui() {
    let (mut opener, _) = ViewOpener::new(HostOs::Linux);
    match opener.advance(ViewEvent::ViewCreated(false)) {
        ViewAction::Finish(Err(e)) => {
            assert!(e == ViewError::NoGui);
            assert_eq!(e.message(), "Plugin does not have a GUI!");
        }
        _ => panic!("missing view not reported"),
    }
}

#[test]
fn unsupported_handle_is_reported() {
    let (mut opener, _) = ViewOpener::new(HostOs::Linux);
    opener.advance(ViewEvent::ViewCreated(true));
    match opener.advance(ViewEvent::WindowHandle(Some(WindowSystem::Other))) {
        ViewAction::Finish(Err(e)) => assert_eq!(e.message(), "Unsupported platform."),
        _ => panic!("unsupported platform not reported"),
    }
}

#[test]
fn missing_handle_stops_the_host() {
    let (mut opener, _) = ViewOpener::new(HostOs::Linux);
    opener.advance(ViewEvent::ViewCreated(true));
    assert!(matches!(opener.advance(ViewEvent::WindowHandle(None)), ViewAction::Abort(ViewFailure::NoWindowHandle)));
}

#[test]
fn failed_attach_and_frame_stop_the_host() {
    let (mut opener, _) = ViewOpener::new(HostOs::Linux);
    opener.advance(ViewEvent::ViewCreated(true));
    opener.advance(ViewEvent::WindowHandle(Some(WindowSystem::Xlib)));
    assert!(matches!(opener.advance(ViewEvent::Returned(1)), ViewAction::Abort(ViewFailure::AttachFailed)));

    let (mut opener, _) = ViewOpener::new(HostOs::Linux);
    opener.advance(ViewEvent::ViewCreated(true));
    opener.advance(ViewEvent::WindowHandle(Some(WindowSystem::Xlib)));
    opener.advance(ViewEvent::Returned(RESULT_OK));
    assert!(matches!(opener.advance(ViewEvent::Returned(1)), ViewAction::Abort(ViewFailure::SetFrameFailed)));
}

#[test]
fn platform_pairings() {
    assert!(platform_type(WindowSystem::Win32, HostOs::Windows) == Some(PlatformType::Hwnd));
    assert!(platform_type(WindowSystem::AppKit, HostOs::MacOs) == Some(PlatformType::NsView));
    assert!(platform_type(WindowSystem::Xlib, HostOs::Linux) == Some(PlatformType::X11EmbedWindowId));
    assert!(platform_type(WindowSystem::Xlib, HostOs::Windows).is_none());
    assert!(platform_type(WindowSystem::Win32, HostOs::Linux).is_none());
    assert!(platform_type(WindowSystem::Other, HostOs::Other).is_none());
}
