//! Raw keyboard and mouse input for a single native window.
//!
//! The library holds the decisions of the window's message pump and window
//! procedure, the two-phase size-probe / fill protocol used to fetch one
//! raw-input record, and the decoding of that record's bytes into a typed
//! device event. The operating-system calls themselves live in the program
//! around the library, which hands plain values in and performs the actions
//! that come back.

mod decoder;
mod devices;
mod pump;
mod record;
mod wide;
mod window;

pub use record::{
    decode_record, kind_of, lemma_every_discriminant_decodes, DecodeError, DeviceEvent,
    DeviceKind, KeyboardInput, MouseInput, PointerWidth, RIM_TYPEHID, RIM_TYPEKEYBOARD,
    RIM_TYPEMOUSE,
};
pub use decoder::{
    complete_fill, lemma_fill_matches_probe, probe_size, RawInputEnvelope, SizedRequest,
    MAX_RECORD_LEN,
};
pub use window::{
    window_proc, WindowAction, WindowState, WM_CLOSE, WM_DESTROY, WM_INPUT, WM_KEYDOWN, WM_KEYUP,
    WM_LBUTTONDOWN,
};
pub use pump::{
    lemma_close_then_destroy_quits, lemma_queue_error_surfaces, pump_step, run_script, LoopExit,
    PumpStep, QueueEvent, ScriptRun,
};
pub use devices::{
    device_set, lemma_register_idempotent, DeviceRegistration, Route, RoutingTable,
    HID_USAGE_GENERIC_KEYBOARD, HID_USAGE_GENERIC_MOUSE, HID_USAGE_PAGE_GENERIC, RIDEV_NOLEGACY,
};
pub use wide::to_wstring;
