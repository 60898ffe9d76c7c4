//! Launching applications at login, on Linux, macOS and Windows.
//!
//! Each platform has its module, and each module its `AutoLaunch`: an application to be launched,
//! with the operations that register it, remove its registration and ask for it. The library
//! decides; it does not act. An operation gives steps, which say what to do on the host, and takes
//! the host's answers.
//!
//! - [`linux`]: XDG autostart entries and systemd units.
//! - [`macos`]: launch agents and daemons, login items and the service of the main application.
//! - [`windows`]: the registry's `Run` key.
//!
//! Beside each module stands what is proved of it: `*_results` says what each operation gives, in
//! terms of what it was given and of what the host answered, and `*_laws` what holds of the
//! operations together.

pub mod error;
pub mod host;
pub mod host_laws;
pub mod linux;
pub mod linux_laws;
pub mod linux_results;
pub mod macos;
pub mod macos_laws;
pub mod macos_results;
pub mod property_list;
pub mod text;
pub mod text_laws;
pub mod windows;
pub mod windows_laws;
pub mod windows_results;
