//! Verified decision logic of a small VST3 plugin host: reading the text of
//! fixed-size C character fields and UTF-16 decoding, the host-side event list, plugin selection,
//! the plugin-loading and editor-opening protocols, the host's own replies,
//! window handling and the note schedule of the test audio thread.
pub mod cstring;
pub mod utf16;
pub mod events;
pub mod select;
pub mod load;
pub mod editor;
pub mod window;
pub mod host;
pub mod audio;
