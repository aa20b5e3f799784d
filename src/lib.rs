//! Window state registry and native event translation.
//!
//! The library keeps one `WindowState` per live window in a `Registry`,
//! turns native window notifications into canonical `WindowEvent`s, and
//! queues them in an `EventReceiver` that an `EventLoop` drains. Native calls
//! are never made here: the operations that need one return `NativeRequest`s
//! for the platform layer to carry out, and the answers the platform gives
//! come back in as plain values.
//!
//! - `types`: identifiers and the small enumerations of window state.
//! - `keys`: key and mouse-button tables, key-message parameters.
//! - `modifiers`: the modifier set and how key presses change it.
//! - `event`, `event_loop`: the event queue, senders and the consumer.
//! - `registry`, `window`: per-window state and its accessors.
//! - `sizing`: minimize, maximize, normalize and fullscreen transitions.
//! - `decoder`: window-procedure messages; `xdecoder`: X events.
//! - `attributes`: attributes for creating an X window.
//! - `native`: platform constants and the requests made of the platform.

pub mod attributes;
pub mod decoder;
pub mod event;
pub mod event_loop;
pub mod keys;
pub mod modifiers;
pub mod native;
pub mod registry;
pub mod sizing;
pub mod types;
pub mod window;
pub mod xdecoder;

pub use event::{EventReceiver, EventSender, WindowEvent};
pub use event_loop::EventLoop;
pub use keys::{KeyboardScancode, MouseScancode};
pub use modifiers::Modifiers;
pub use native::NativeRequest;
pub use registry::{Registry, Window, WindowError, WindowState};
pub use types::{FullscreenType, Theme, UserAttentionType, WindowButtons, WindowId, WindowSizeState};
