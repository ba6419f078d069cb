//! A live video wallpaper, verified: the decisions of a renderer that decodes
//! a video frame by frame and draws it on a surface placed under the desktop
//! icons, with the small desktop helpers around it (chat history filters,
//! notification and tray registries, pets, wallpaper library entries).
//!
//! Everything that touches the operating system stays outside: callers
//! perform the actions these types decide on and report the outcomes back.

pub mod assistant;
pub mod chat;
pub mod controller;
pub mod desktop;
pub mod error;
pub mod history;
pub mod keyed;
pub mod library;
pub mod notifications;
pub mod pacing;
pub mod pets;
pub mod pixels;
pub mod render;
pub mod source;
pub mod stats;
pub mod stream;
pub mod surface;
pub mod text;
pub mod tray;
pub mod voice;
