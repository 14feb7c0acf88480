use vst3_host::events::EventList;
use vst3_host::host::HostReply;

#[test]
fn event_count_is_length() {
    let list = EventList::new(vec![10u8, 20, 30]);
    assert_eq!(list.event_count(), 3);
    assert_eq!(EventList::<u8>::new(vec![]).event_count(), 0);
}

#[test]
fn get_event_in_range() {
    let list = EventList::new(vec![10u8, 20, 30]);
    assert_eq!(list.get_event(0), Some(10));
    assert_eq!(list.get_event(1), Some(20));
    assert_eq!(list.get_event(2), Some(30));
}

#[test]
fn get_event_out_of_range() {
    let list = EventList::new(vec![10u8, 20, 30]);
    assert_eq!(list.get_event(3), None);
    assert_eq!(list.get_event(-1), None);
    assert_eq!(list.get_event(i32::MIN), None);
    assert_eq!(EventList::<u8>::new(vec![]).get_event(0), None);
}

#[test]
fn add_event_is_accepted_and_ignored() {
    let list = EventList::new(vec![1u8]);
    assert!(list.add_event() == HostReply::Success);
    assert_eq!(list.event_count(), 1);
    assert_eq!(list.get_event(1), None);
}
