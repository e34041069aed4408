//! Raw-input events as delivered by the window procedure.
use vstd::prelude::*;

verus! {

/// Raw-input header type of a mouse report.
pub const RIM_TYPEMOUSE: u32 = 0;

/// Raw-input header type of a keyboard report.
pub const RIM_TYPEKEYBOARD: u32 = 1;

#[derive(Debug, Clone, Copy)]
pub struct RawInputEvent {
    pub timestamp: u64,
    pub event_type: RawInputType,
    pub data: RawInputData,
}

#[derive(Debug, Clone, Copy, PartialEq, Eq, Structural)]
pub enum RawInputType {
    Mouse,
    Keyboard,
}

#[derive(Debug, Clone, Copy)]
pub enum RawInputData {
    Mouse { x: i32, y: i32, buttons: u16, wheel_delta: i16 },
    Keyboard { vk: u16, scan_code: u16, flags: u16 },
}

/// The fields of one raw-input report, as read from the `RAWINPUT` buffer.
#[derive(Debug, Clone, Copy)]
pub struct RawReport {
    pub header_type: u32,
    pub last_x: i32,
    pub last_y: i32,
    pub button_flags: u16,
    pub button_data: u16,
    pub vkey: u16,
    pub make_code: u16,
    pub key_flags: u16,
}

/// The event a report describes: mouse and keyboard reports become events,
/// any other device type is ignored.
pub fn event_from_report(timestamp: u64, r: &RawReport) -> (e: Option<RawInputEvent>)
    ensures
        r.header_type == RIM_TYPEMOUSE ==> (e matches Some(ev) && ev.timestamp == timestamp
            && ev.event_type == RawInputType::Mouse && ev.data == (RawInputData::Mouse {
            x: r.last_x,
            y: r.last_y,
            buttons: r.button_flags,
            wheel_delta: r.button_data as i16,
        })),
        r.header_type == RIM_TYPEKEYBOARD ==> (e matches Some(ev) && ev.timestamp == timestamp
            && ev.event_type == RawInputType::Keyboard && ev.data == (RawInputData::Keyboard {
            vk: r.vkey,
            scan_code: r.make_code,
            flags: r.key_flags,
        })),
        r.header_type != RIM_TYPEMOUSE && r.header_type != RIM_TYPEKEYBOARD ==> e is None,
{
    if r.header_type == RIM_TYPEMOUSE {
        Some(
            RawInputEvent {
                timestamp,
                event_type: RawInputType::Mouse,
                data: RawInputData::Mouse {
                    x: r.last_x,
                    y: r.last_y,
                    buttons: r.button_flags,
                    wheel_delta: r.button_data as i16,
                },
            },
        )
    } else if r.header_type == RIM_TYPEKEYBOARD {
        Some(
            RawInputEvent {
                timestamp,
                event_type: RawInputType::Keyboard,
                data: RawInputData::Keyboard { vk: r.vkey, scan_code: r.make_code, flags: r.key_flags },
            },
        )
    } else {
        None
    }
}

/// The relative motion a subscriber batches: `(x, y, timestamp)` of a mouse event.
pub fn mouse_motion(e: &RawInputEvent) -> (m: Option<(i32, i32, u64)>)
    ensures
        m == match (e.event_type, e.data) {
            (RawInputType::Mouse, RawInputData::Mouse { x, y, .. }) => Some((x, y, e.timestamp)),
            _ => None::<(i32, i32, u64)>,
        },
{
    match (e.event_type, e.data) {
        (RawInputType::Mouse, RawInputData::Mouse { x, y, .. }) => Some((x, y, e.timestamp)),
        _ => None,
    }
}

} // verus!
