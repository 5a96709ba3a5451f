//! Installer wizard, registry layout and browser native-messaging host of
//! inno-creed, with their decisions stated as contracts and proved.

pub mod text;
pub mod platform;
pub mod wizard;
pub mod native_host;
pub mod registry;
pub mod install;
