//! Verified window-control wrappers: builders, handle binding, creation-flag
//! resolution, property accessors and background-colour hooks, driven through
//! an abstract window system.

pub mod controls;
pub mod desktop;
pub mod hooks;
pub mod image_frame;
pub mod message_window;
pub mod platform;
pub mod rich_text_box;

pub use controls::{Bitmap, ControlHandle, ControlKind, Font, Icon, NwgError};
pub use hooks::{BackgroundHook, HookEntry, HookRegistry};
pub use platform::{NativeCall, Reply, Request, WindowSystem};
pub use rich_text_box::{RichTextBox, RichTextBoxBuilder, RichTextBoxFlags};
pub use image_frame::{ImageFrame, ImageFrameBuilder, ImageFrameFlags};
pub use message_window::{MessageWindow, MessageWindowBuilder};
pub use desktop::{VirtualDesktop, WindowRecord};
