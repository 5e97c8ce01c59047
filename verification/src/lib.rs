//! Dispatch core of a hotkey-triggered soundboard.
//!
//! A resident process binds up to ten audio clips to the digit-row hotkeys
//! (Ctrl+Shift+1..9,0) and plays a clip on its key's release. This crate holds
//! the verified core: the binding table from discovered clips to slots, the
//! device-selection rule, the lookup from a hotkey identity back to its slot,
//! and the re-arm state machine that prevents a slot from re-triggering while
//! its own clip plays. The thin shell around it (console prompt, OS hotkey
//! registration, audio output) lives outside the library and feeds it plain
//! values.

mod bindings;
mod discovery;
mod engine;
mod errors;
mod registry;

pub use bindings::Binding;
pub use bindings::BindingTable;
pub use bindings::MAX_SLOTS;
pub use bindings::bindings_wf;
pub use bindings::digit_for_slot;
pub use bindings::spec_digit_for_slot;
pub use discovery::entry_path;
pub use discovery::is_entry_path;
pub use discovery::read_dir;
pub use discovery::spec_entry_path;
pub use engine::Engine;
pub use engine::KeyTransition;
pub use engine::SlotState;
pub use engine::event_fires;
pub use engine::identities_distinct;
pub use engine::lemma_device_unavailable_still_rearms;
pub use engine::lemma_pressed_never_fires;
pub use engine::lemma_rearm_idempotence;
pub use engine::states_after_playback;
pub use errors::ConfigError;
pub use errors::PlaybackError;
pub use registry::find_by_name;
pub use registry::resolve;
