//! Layout and decoding of one raw-input record: a header whose first word
//! tells the device kind, followed by the kind's own data, all little-endian.
use vstd::prelude::*;

verus! {

/// Discriminant of a mouse record.
pub const RIM_TYPEMOUSE: u32 = 0;

/// Discriminant of a keyboard record.
pub const RIM_TYPEKEYBOARD: u32 = 1;

/// Discriminant of a record from any other human-interface device.
pub const RIM_TYPEHID: u32 = 2;

/// Bytes of the keyboard data that follows the header.
pub const KEYBOARD_DATA_LEN: usize = 16;

/// Bytes of the mouse data that follows the header.
pub const MOUSE_DATA_LEN: usize = 24;

/// Width of a pointer on the platform that wrote the record; the header holds
/// two pointer-sized words, so its length depends on it.
#[derive(Debug, Clone, Copy, PartialEq, Eq, Structural)]
pub enum PointerWidth {
    Bits32,
    Bits64,
}

/// What a record's discriminant says about the device.
#[derive(Debug, Clone, Copy, PartialEq, Eq, Structural)]
pub enum DeviceKind {
    Keyboard,
    Mouse,
    Other,
}

/// The keyboard fields of a record.
#[derive(Debug, Clone, Copy, PartialEq, Eq, Structural)]
pub struct KeyboardInput {
    pub make_code: u16,
    pub flags: u16,
    pub reserved: u16,
    pub vkey: u16,
    pub message: u32,
    pub extra_information: u32,
}

/// The mouse fields of a record.
#[derive(Debug, Clone, Copy, PartialEq, Eq, Structural)]
pub struct MouseInput {
    pub flags: u16,
    pub button_flags: u16,
    pub button_data: u16,
    pub raw_buttons: u32,
    pub last_x: i32,
    pub last_y: i32,
    pub extra_information: u32,
}

/// A decoded record: the payload that its discriminant selects.
#[derive(Debug, Clone, Copy, PartialEq, Eq, Structural)]
pub enum DeviceEvent {
    Keyboard(KeyboardInput),
    Mouse(MouseInput),
    /// A device class that is recognised but not decoded; holds the discriminant.
    Other(u32),
}

/// Why one raw-input event could not be decoded.
#[derive(Debug, Clone, Copy, PartialEq, Eq, Structural)]
pub enum DecodeError {
    /// The size probe failed with this status.
    Probe { status: u32 },
    /// The probe reported a size beyond the sanity bound.
    Oversized { size: u32 },
    /// The fill wrote another number of bytes than the probe announced.
    SizeMismatch { expected: u32, actual: u32 },
    /// The record is shorter than its header, or than the data its kind needs.
    Truncated { needed: usize, length: usize },
}

pub open spec fn header_len(width: PointerWidth) -> nat {
    match width {
        PointerWidth::Bits32 => 16,
        PointerWidth::Bits64 => 24,
    }
}

pub open spec fn spec_kind_of(discriminant: u32) -> DeviceKind {
    if discriminant == RIM_TYPEKEYBOARD {
        DeviceKind::Keyboard
    } else if discriminant == RIM_TYPEMOUSE {
        DeviceKind::Mouse
    } else {
        DeviceKind::Other
    }
}

/// The little-endian 16-bit word at `at`.
pub open spec fn le_u16(b: Seq<u8>, at: int) -> u16 {
    (b[at] + 256 * b[at + 1]) as u16
}

/// The little-endian 32-bit word at `at`.
pub open spec fn le_u32(b: Seq<u8>, at: int) -> u32 {
    (b[at] + 256 * b[at + 1] + 65536 * b[at + 2] + 16777216 * b[at + 3]) as u32
}

/// The little-endian two's-complement 32-bit word at `at`.
pub open spec fn le_i32(b: Seq<u8>, at: int) -> i32 {
    let v = le_u32(b, at);
    if v < 0x8000_0000 {
        v as i32
    } else {
        (v - 0x1_0000_0000) as i32
    }
}

pub open spec fn keyboard_at(b: Seq<u8>, at: int) -> KeyboardInput {
    KeyboardInput {
        make_code: le_u16(b, at),
        flags: le_u16(b, at + 2),
        reserved: le_u16(b, at + 4),
        vkey: le_u16(b, at + 6),
        message: le_u32(b, at + 8),
        extra_information: le_u32(b, at + 12),
    }
}

/// The mouse data at `at`; the two bytes after the flags are padding.
pub open spec fn mouse_at(b: Seq<u8>, at: int) -> MouseInput {
    MouseInput {
        flags: le_u16(b, at),
        button_flags: le_u16(b, at + 4),
        button_data: le_u16(b, at + 6),
        raw_buttons: le_u32(b, at + 8),
        last_x: le_i32(b, at + 12),
        last_y: le_i32(b, at + 16),
        extra_information: le_u32(b, at + 20),
    }
}

/// What a record decodes to: the discriminant is read first, and a kind's
/// fields are projected only when the record holds all of them.
pub open spec fn spec_decode(b: Seq<u8>, width: PointerWidth) -> Result<DeviceEvent, DecodeError> {
    let h = header_len(width);
    if b.len() < h {
        Err(DecodeError::Truncated { needed: h as usize, length: b.len() as usize })
    } else {
        let t = le_u32(b, 0);
        match spec_kind_of(t) {
            DeviceKind::Keyboard => if b.len() < h + KEYBOARD_DATA_LEN {
                Err(DecodeError::Truncated { needed: (h + KEYBOARD_DATA_LEN) as usize, length: b.len() as usize })
            } else {
                Ok(DeviceEvent::Keyboard(keyboard_at(b, h as int)))
            },
            DeviceKind::Mouse => if b.len() < h + MOUSE_DATA_LEN {
                Err(DecodeError::Truncated { needed: (h + MOUSE_DATA_LEN) as usize, length: b.len() as usize })
            } else {
                Ok(DeviceEvent::Mouse(mouse_at(b, h as int)))
            },
            DeviceKind::Other => Ok(DeviceEvent::Other(t)),
        }
    }
}

/// Every discriminant selects exactly one shape: on a record long enough
/// for any kind, a keyboard discriminant yields the keyboard fields, a mouse
/// discriminant the mouse fields, and any other value the `Other` variant
/// holding it; decoding never fails there.
pub proof fn lemma_every_discriminant_decodes(b: Seq<u8>, width: PointerWidth)
    requires
        b.len() >= header_len(width) + MOUSE_DATA_LEN,
    ensures
        spec_decode(b, width) is Ok,
        le_u32(b, 0) == RIM_TYPEKEYBOARD ==> spec_decode(b, width) == Ok::<DeviceEvent, DecodeError>(
            DeviceEvent::Keyboard(keyboard_at(b, header_len(width) as int)),
        ),
        le_u32(b, 0) == RIM_TYPEMOUSE ==> spec_decode(b, width) == Ok::<DeviceEvent, DecodeError>(
            DeviceEvent::Mouse(mouse_at(b, header_len(width) as int)),
        ),
        le_u32(b, 0) != RIM_TYPEKEYBOARD && le_u32(b, 0) != RIM_TYPEMOUSE ==> spec_decode(b, width)
            == Ok::<DeviceEvent, DecodeError>(DeviceEvent::Other(le_u32(b, 0))),
{
}

impl MouseInput {
    /// The 32-bit button word that overlays the button flags (low half) and
    /// the button data (high half).
    pub fn buttons(&self) -> (r: u32)
        ensures
            r == self.button_flags + 65536 * self.button_data,
    {
        self.button_flags as u32 + 65536 * (self.button_data as u32)
    }
}

impl PointerWidth {
    /// The pointer width of the platform this library was built for.
    pub fn native() -> (r: PointerWidth)
        ensures
            usize::BITS == 64 ==> r == PointerWidth::Bits64,
            usize::BITS != 64 ==> r == PointerWidth::Bits32,
    {
        if usize::BITS == 64 {
            PointerWidth::Bits64
        } else {
            PointerWidth::Bits32
        }
    }

    /// Length in bytes of a record's header.
    pub fn header_len(self) -> (r: usize)
        ensures
            r == header_len(self),
    {
        match self {
            PointerWidth::Bits32 => 16,
            PointerWidth::Bits64 => 24,
        }
    }
}

/// Classifies a record's discriminant.
pub fn kind_of(discriminant: u32) -> (r: DeviceKind)
    ensures
        r == spec_kind_of(discriminant),
{
    if discriminant == RIM_TYPEKEYBOARD {
        DeviceKind::Keyboard
    } else if discriminant == RIM_TYPEMOUSE {
        DeviceKind::Mouse
    } else {
        DeviceKind::Other
    }
}

fn read_u16(b: &[u8], at: usize) -> (r: u16)
    requires
        at + 2 <= b@.len(),
    ensures
        r == le_u16(b@, at as int),
{
    b[at] as u16 + 256 * (b[at + 1] as u16)
}

fn read_u32(b: &[u8], at: usize) -> (r: u32)
    requires
        at + 4 <= b@.len(),
    ensures
        r == le_u32(b@, at as int),
{
    b[at] as u32 + 256 * (b[at + 1] as u32) + 65536 * (b[at + 2] as u32) + 16777216 * (
    b[at + 3] as u32)
}

fn read_i32(b: &[u8], at: usize) -> (r: i32)
    requires
        at + 4 <= b@.len(),
    ensures
        r == le_i32(b@, at as int),
{
    let v = read_u32(b, at);
    if v < 0x8000_0000 {
        v as i32
    } else {
        (v - 0x8000_0000) as i32 + i32::MIN
    }
}

/// Decodes one filled record. The discriminant is validated before any
/// kind-specific field is read, and a record too short for its kind is
/// refused rather than read in part.
pub fn decode_record(b: &[u8], width: PointerWidth) -> (r: Result<DeviceEvent, DecodeError>)
    ensures
        r == spec_decode(b@, width),
{
    let h = width.header_len();
    if b.len() < h {
        return Err(DecodeError::Truncated { needed: h, length: b.len() });
    }
    let t = read_u32(b, 0);
    match kind_of(t) {
        DeviceKind::Keyboard => {
            if b.len() - h < KEYBOARD_DATA_LEN {
                return Err(DecodeError::Truncated { needed: h + KEYBOARD_DATA_LEN, length: b.len() });
            }
            Ok(DeviceEvent::Keyboard(KeyboardInput {
                make_code: read_u16(b, h),
                flags: read_u16(b, h + 2),
                reserved: read_u16(b, h + 4),
                vkey: read_u16(b, h + 6),
                message: read_u32(b, h + 8),
                extra_information: read_u32(b, h + 12),
            }))
        },
        DeviceKind::Mouse => {
            if b.len() - h < MOUSE_DATA_LEN {
                return Err(DecodeError::Truncated { needed: h + MOUSE_DATA_LEN, length: b.len() });
            }
            Ok(DeviceEvent::Mouse(MouseInput {
                flags: read_u16(b, h),
                button_flags: read_u16(b, h + 4),
                button_data: read_u16(b, h + 6),
                raw_buttons: read_u32(b, h + 8),
                last_x: read_i32(b, h + 12),
                last_y: read_i32(b, h + 16),
                extra_information: read_u32(b, h + 20),
            }))
        },
        DeviceKind::Other => Ok(DeviceEvent::Other(t)),
    }
}

} // verus!
