//! The host's list of input events handed to a plugin's `process` call.
use vstd::prelude::*;
use crate::host::HostReply;

verus! {

/// The count a plugin is told a list of `len` events holds: the length
/// converted to the SDK's 32-bit signed count, as the conversion truncates.
pub open spec fn reported_count(len: nat) -> i32 {
    len as i32
}

/// Events that the host offers a plugin during one `process` call.
pub struct EventList<E> {
    events: Vec<E>,
}

impl<E> View for EventList<E> {
    type V = Seq<E>;

    closed spec fn view(&self) -> Seq<E> {
        self.events@
    }
}

impl<E: Copy> EventList<E> {
    /// A list that offers `events`, in order.
    pub fn new(events: Vec<E>) -> (list: Self)
        ensures
            list@ == events@,
    {
        EventList { events }
    }

    /// The number of events, as the plugin reads it.
    pub fn event_count(&self) -> (count: i32)
        ensures
            count == reported_count(self@.len()),
    {
        #[verifier::truncate]
        (self.events.len() as i32)
    }

    /// The event at `index`, or `None` (the SDK's "false" answer) when
    /// `index` is negative or not below the reported count.
    pub fn get_event(&self, index: i32) -> (event: Option<E>)
        ensures
            event is Some <==> 0 <= index < reported_count(self@.len()),
            event matches Some(e) ==> e == self@[index as int],
    {
        let count = self.event_count();
        if index >= 0 && index < count {
            proof {
                lemma_reported_count_bound(self@.len());
            }
            Some(self.events[index as usize])
        } else {
            None
        }
    }

    /// A plugin adding an event to the host's input list is told it
    /// succeeded; the list is left as it was.
    pub fn add_event(&self) -> (reply: HostReply)
        ensures
            reply == HostReply::Success,
    {
        HostReply::Success
    }
}

/// A list no longer than the largest count the SDK can express reports its
/// exact length, so every one of its events can be asked for.
pub proof fn lemma_short_list_count_exact(len: nat)
    requires
        len <= i32::MAX,
    ensures
        reported_count(len) == len,
{
}

/// The reported count never exceeds the true length.
proof fn lemma_reported_count_bound(len: nat)
    ensures
        reported_count(len) <= len,
{
}

} // verus!
