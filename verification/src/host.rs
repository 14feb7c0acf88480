//! The host's own answers to calls a plugin makes on the host objects it is
//! given: the host application and the editor's frame.
use vstd::prelude::*;

verus! {

/// The host's answer to a call from a plugin.
#[derive(Clone, Copy, PartialEq, Eq, Structural)]
pub enum HostReply {
    /// `kResultOk`
    Success,
    /// `kNotImplemented`
    NotImplemented,
}

/// The host application object handed to a plugin when it is initialized.
#[derive(Clone, Copy)]
pub struct PluginHost;

impl PluginHost {
    /// Asked for its name, the host succeeds and leaves the name buffer as
    /// the plugin gave it.
    pub fn get_name(&self) -> (reply: HostReply)
        ensures
            reply == HostReply::Success,
    {
        HostReply::Success
    }

    /// Asked to create an object for the plugin, the host declines: it
    /// creates none.
    pub fn create_instance(&self) -> (reply: HostReply)
        ensures
            reply == HostReply::NotImplemented,
    {
        HostReply::NotImplemented
    }
}

/// The frame an editor view is attached to.
#[derive(Clone, Copy)]
pub struct PluginFrame;

impl PluginFrame {
    /// Asked by the view to resize, the frame reports success and leaves the
    /// window as it is.
    pub fn resize_view(&self) -> (reply: HostReply)
        ensures
            reply == HostReply::Success,
    {
        HostReply::Success
    }
}

} // verus!
