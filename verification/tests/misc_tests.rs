use vst3_host::audio::{NoteSchedule, NOTE_OFF_BLOCK};
use vst3_host::host::{HostReply, PluginFrame, PluginHost};
use vst3_host::window::{window_response, WindowEventKind, WindowResponse};

#[test]
fn close_exits_and_other_events_are_ignored() {
    assert!(window_response(WindowEventKind::CloseRequested) == WindowResponse::Exit);
    assert!(window_response(WindowEventKind::RedrawRequested) == WindowResponse::Ignore);
    assert!(window_response(WindowEventKind::Other) == WindowResponse::Ignore);
}

#[test]
fn host_replies() {
    assert!(PluginHost.get_name() == HostReply::Success);
    assert!(PluginHost.create_instance() == HostReply::NotImplemented);
    assert!(PluginFrame.resize_view() == HostReply::Success);
}

#[test]
fn note_is_released_once_before_block_100() {
    let mut schedule = NoteSchedule::new();
    let mut releases = Vec::new();
    for block in 0..250 {
        if schedule.next_block() {
            releases.push(block);
        }
    }
    assert_eq!(releases, vec![100]);
    assert_eq!(NOTE_OFF_BLOCK, 100);
    assert_eq!(schedule.blocks, 250);
}
