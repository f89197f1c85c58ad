//! Building the shell's tray-icon update message. The message carries the
//! icon's identity token, an optional window and callback, an optional
//! tooltip (truncated to a fixed number of UTF-16 code units), and an
//! optional icon handle; building computes the flag word and the padded
//! tooltip buffer that the platform call expects.

use vstd::prelude::*;

verus! {

/// The tray icon's 128-bit identity token, as plain values.
#[derive(Clone, Copy, Debug, PartialEq, Eq)]
pub struct Guid {
    pub data1: u32,
    pub data2: u16,
    pub data3: u16,
    pub data4: [u8; 8],
}

/// Flag bits of the tray message, as the platform defines them.
pub const NIF_MESSAGE: u32 = 0x01;

pub const NIF_ICON: u32 = 0x02;

pub const NIF_TIP: u32 = 0x04;

pub const NIF_GUID: u32 = 0x20;

pub const NIF_SHOWTIP: u32 = 0x80;

/// The tray-message protocol version requested by the shell.
pub const NOTIFYICON_VERSION_4: u32 = 4;

/// Length of the tooltip buffer, in UTF-16 code units.
pub const TOOLTIP_UNITS: usize = 128;

/// What `str::encode_utf16` yields for a string: its UTF-16 code units.
pub uninterp spec fn utf16_of(s: Seq<char>) -> Seq<u16>;

/// Relies on `str::encode_utf16`: the UTF-16 code units of the string,
/// a function of its characters alone.
#[verifier::external_body]
fn encode_utf16_units(s: &String) -> (r: Vec<u16>)
    ensures
        r@ == utf16_of(s@),
{
    s.encode_utf16().collect()
}

/// The tooltip buffer holding `units`: always exactly `TOOLTIP_UNITS`
/// entries — the code units up to that limit, zero-filled past them.
pub open spec fn padded_tip(units: Seq<u16>) -> Seq<u16> {
    Seq::new(
        TOOLTIP_UNITS as nat,
        |i: int|
            if i < units.len() {
                units[i]
            } else {
                0u16
            },
    )
}

/// A pending tray-icon update: which independent fields of the icon this
/// message sets. Only the identity token is mandatory.
#[derive(Clone, Debug, PartialEq, Eq)]
pub struct TrayIconMessage {
    pub guid: Guid,
    pub hwnd: Option<isize>,
    pub callback_message: Option<u32>,
    pub tooltip: Option<String>,
    pub show_tooltip: bool,
    pub icon: Option<isize>,
}

/// The computable image of the platform's tray-icon record: every field
/// the library decides, ready for the native call.
#[derive(Clone, Debug, PartialEq, Eq)]
pub struct NotifyIconData {
    pub flags: u32,
    pub guid: Guid,
    pub hwnd: isize,
    pub callback_message: u32,
    pub tip: Vec<u16>,
    pub icon: isize,
    pub version: u32,
}

/// The flag word `build` computes, one bit per field it carries: the
/// identity flag always, the callback flag when a callback message is
/// set, the show flag when the tooltip is shown, the tooltip flag when
/// tooltip text is present, and the icon flag when an icon is set. The
/// bits accumulate: no field's flag ever displaces another's.
pub open spec fn spec_flags(m: TrayIconMessage) -> u32 {
    let with_message = if m.callback_message is Some {
        NIF_GUID | NIF_MESSAGE
    } else {
        NIF_GUID
    };
    let with_show = if m.show_tooltip {
        with_message | NIF_SHOWTIP
    } else {
        with_message
    };
    let with_tip = if m.tooltip is Some {
        with_show | NIF_TIP
    } else {
        with_show
    };
    if m.icon is Some {
        with_tip | NIF_ICON
    } else {
        with_tip
    }
}

/// The tooltip buffer `build` fills: whenever tooltip text is present,
/// its code units truncated and zero-padded; otherwise all zeros.
pub open spec fn spec_tip(m: TrayIconMessage) -> Seq<u16> {
    if m.tooltip is Some {
        padded_tip(utf16_of(m.tooltip->0@))
    } else {
        padded_tip(Seq::<u16>::empty())
    }
}

impl TrayIconMessage {
    /// A message that sets nothing but the identity token.
    pub fn new(guid: Guid) -> (m: Self)
        ensures
            m.guid == guid,
            m.hwnd is None,
            m.callback_message is None,
            m.tooltip is None,
            m.show_tooltip == false,
            m.icon is None,
    {
        TrayIconMessage {
            guid,
            hwnd: None,
            callback_message: None,
            tooltip: None,
            show_tooltip: false,
            icon: None,
        }
    }

    /// Compute the full platform record for this message: the flag word,
    /// the padded tooltip buffer, the requested protocol version, and each
    /// optional field's value (absent fields stay zero).
    pub fn build(&self) -> (r: NotifyIconData)
        ensures
            r.flags == spec_flags(*self),
            r.guid == self.guid,
            r.hwnd == (if self.hwnd is Some {
                self.hwnd->0
            } else {
                0
            }),
            r.callback_message == (if self.callback_message is Some {
                self.callback_message->0
            } else {
                0
            }),
            r.tip@ == spec_tip(*self),
            r.icon == (if self.icon is Some {
                self.icon->0
            } else {
                0
            }),
            r.version == NOTIFYICON_VERSION_4,
    {
        let mut flags: u32 = NIF_GUID;
        let hwnd: isize = match self.hwnd {
            Some(h) => h,
            None => 0,
        };
        let callback_message: u32 = match self.callback_message {
            Some(m) => {
                flags = flags | NIF_MESSAGE;
                m
            },
            None => 0,
        };
        if self.show_tooltip {
            flags = flags | NIF_SHOWTIP;
        }
        let mut tip_units: Vec<u16> = Vec::new();
        match &self.tooltip {
            Some(tooltip) => {
                tip_units = encode_utf16_units(tooltip);
                flags = flags | NIF_TIP;
            },
            None => {},
        }
        let tip = fill_tip(&tip_units);
        proof {
            assert(tip@ == spec_tip(*self));
        }
        let icon: isize = match self.icon {
            Some(i) => {
                flags = flags | NIF_ICON;
                i
            },
            None => 0,
        };
        NotifyIconData {
            flags,
            guid: self.guid,
            hwnd,
            callback_message,
            tip,
            icon,
            version: NOTIFYICON_VERSION_4,
        }
    }
}

/// Copy `units` into a tooltip buffer of exactly `TOOLTIP_UNITS` entries,
/// truncating what does not fit and zero-filling the rest.
fn fill_tip(units: &Vec<u16>) -> (tip: Vec<u16>)
    ensures
        tip@ == padded_tip(units@),
{
    let mut tip: Vec<u16> = Vec::with_capacity(TOOLTIP_UNITS);
    let mut i: usize = 0;
    while i < TOOLTIP_UNITS
        invariant
            i <= TOOLTIP_UNITS,
            tip@.len() == i,
            forall|j: int|
                0 <= j < i ==> tip@[j] == (if j < units@.len() {
                    units@[j]
                } else {
                    0u16
                }),
        decreases TOOLTIP_UNITS - i,
    {
        if i < units.len() {
            tip.push(units[i]);
        } else {
            tip.push(0);
        }
        i = i + 1;
    }
    proof {
        assert(tip@ =~= padded_tip(units@));
    }
    tip
}

} // verus!
