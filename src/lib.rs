//! A local media slideshow: classification of files by MIME type, viewing
//! settings, the navigation controller over a loaded directory, and the small
//! state machines behind the media viewer, the warning banner and the menu.

pub mod media_type;
pub mod settings;
pub mod home;
pub mod media;
pub mod warning;
pub mod menu;
pub mod root;
