//! Display helpers that depend on device data only: signal bars, icons,
//! spinner frames and colour tones. The renderer maps tones to colours.
use vstd::prelude::*;
use crate::text::{contains_seq, str_contains};

verus! {

/// Colour roles of the palette.
#[derive(Clone, Copy, Debug, PartialEq, Eq, Structural)]
pub enum Tone {
    Green,
    Cyan,
    Amber,
    Red,
    Dim,
}

/// Signal strength in five steps: 5 is at least -50 dBm, 1 below -80 dBm,
/// 0 when there is no reading.
pub open spec fn signal_level(rssi: Option<i16>) -> int {
    match rssi {
        Some(r) => if r >= -50 {
            5
        } else if r >= -60 {
            4
        } else if r >= -70 {
            3
        } else if r >= -80 {
            2
        } else {
            1
        },
        None => 0,
    }
}

fn signal_level_of(rssi: Option<i16>) -> (r: u8)
    ensures
        r as int == signal_level(rssi),
{
    match rssi {
        Some(r) => if r >= -50 {
            5
        } else if r >= -60 {
            4
        } else if r >= -70 {
            3
        } else if r >= -80 {
            2
        } else {
            1
        },
        None => 0,
    }
}

/// A five-cell bar, one filled cell per signal step.
pub fn rssi_bar(rssi: Option<i16>) -> (r: &'static str)
    ensures
        signal_level(rssi) == 5 ==> r@ == "\u{2588}\u{2588}\u{2588}\u{2588}\u{2588}"@,
        signal_level(rssi) == 4 ==> r@ == "\u{2588}\u{2588}\u{2588}\u{2588}\u{2591}"@,
        signal_level(rssi) == 3 ==> r@ == "\u{2588}\u{2588}\u{2588}\u{2591}\u{2591}"@,
        signal_level(rssi) == 2 ==> r@ == "\u{2588}\u{2588}\u{2591}\u{2591}\u{2591}"@,
        signal_level(rssi) == 1 ==> r@ == "\u{2588}\u{2591}\u{2591}\u{2591}\u{2591}"@,
        signal_level(rssi) == 0 ==> r@ == "\u{2591}\u{2591}\u{2591}\u{2591}\u{2591}"@,
{
    let level = signal_level_of(rssi);
    if level == 5 {
        "\u{2588}\u{2588}\u{2588}\u{2588}\u{2588}"
    } else if level == 4 {
        "\u{2588}\u{2588}\u{2588}\u{2588}\u{2591}"
    } else if level == 3 {
        "\u{2588}\u{2588}\u{2588}\u{2591}\u{2591}"
    } else if level == 2 {
        "\u{2588}\u{2588}\u{2591}\u{2591}\u{2591}"
    } else if level == 1 {
        "\u{2588}\u{2591}\u{2591}\u{2591}\u{2591}"
    } else {
        "\u{2591}\u{2591}\u{2591}\u{2591}\u{2591}"
    }
}

/// A signal icon and its tone.
pub fn rssi_display(rssi: Option<i16>) -> (r: (&'static str, Tone))
    ensures
        signal_level(rssi) == 5 ==> r.0@ == "\u{f0928}"@ && r.1 == Tone::Green,
        signal_level(rssi) == 4 ==> r.0@ == "\u{f0925}"@ && r.1 == Tone::Cyan,
        signal_level(rssi) == 3 ==> r.0@ == "\u{f0922}"@ && r.1 == Tone::Amber,
        signal_level(rssi) == 2 ==> r.0@ == "\u{f091f}"@ && r.1 == Tone::Red,
        signal_level(rssi) == 1 ==> r.0@ == "\u{f092f}"@ && r.1 == Tone::Red,
        signal_level(rssi) == 0 ==> r.0@ == "\u{f092e}"@ && r.1 == Tone::Dim,
{
    let level = signal_level_of(rssi);
    if level == 5 {
        ("\u{f0928}", Tone::Green)
    } else if level == 4 {
        ("\u{f0925}", Tone::Cyan)
    } else if level == 3 {
        ("\u{f0922}", Tone::Amber)
    } else if level == 2 {
        ("\u{f091f}", Tone::Red)
    } else if level == 1 {
        ("\u{f092f}", Tone::Red)
    } else {
        ("\u{f092e}", Tone::Dim)
    }
}

/// A battery icon and its tone: full from 80 %, then steps of 20.
pub fn battery_display(pct: Option<u8>) -> (r: (&'static str, Tone))
    ensures
        pct matches Some(p) && p >= 80 ==> r.0@ == "\u{f0079}"@ && r.1 == Tone::Green,
        pct matches Some(p) && 60 <= p < 80 ==> r.0@ == "\u{f0081}"@ && r.1 == Tone::Cyan,
        pct matches Some(p) && 40 <= p < 60 ==> r.0@ == "\u{f007f}"@ && r.1 == Tone::Amber,
        pct matches Some(p) && 20 <= p < 40 ==> r.0@ == "\u{f007b}"@ && r.1 == Tone::Red,
        pct matches Some(p) && p < 20 ==> r.0@ == "\u{f007a}"@ && r.1 == Tone::Red,
        pct is None ==> r.0@ == "\u{f0083}"@ && r.1 == Tone::Dim,
{
    match pct {
        Some(p) => if p >= 80 {
            ("\u{f0079}", Tone::Green)
        } else if p >= 60 {
            ("\u{f0081}", Tone::Cyan)
        } else if p >= 40 {
            ("\u{f007f}", Tone::Amber)
        } else if p >= 20 {
            ("\u{f007b}", Tone::Red)
        } else {
            ("\u{f007a}", Tone::Red)
        },
        None => ("\u{f0083}", Tone::Dim),
    }
}

/// The glyph for a device icon name: the first family that the name mentions.
pub open spec fn icon_glyph(s: Seq<char>) -> Seq<char> {
    if contains_seq(s, "audio-headset"@) || contains_seq(s, "audio-headphones"@) {
        "\u{f025}"@
    } else if contains_seq(s, "audio-card"@) || contains_seq(s, "speaker"@) {
        "\u{f04c3}"@
    } else if contains_seq(s, "phone"@) {
        "\u{f095}"@
    } else if contains_seq(s, "computer"@) {
        "\u{f037d}"@
    } else if contains_seq(s, "input-keyboard"@) {
        "\u{f030c}"@
    } else if contains_seq(s, "input-mouse"@) {
        "\u{f037d}"@
    } else if contains_seq(s, "input-gaming"@) {
        "\u{f0297}"@
    } else if contains_seq(s, "input-tablet"@) {
        "\u{f04f6}"@
    } else if contains_seq(s, "camera"@) {
        "\u{f0100}"@
    } else if contains_seq(s, "printer"@) {
        "\u{f042a}"@
    } else if contains_seq(s, "network"@) {
        "\u{f0200}"@
    } else if contains_seq(s, "video-display"@) || contains_seq(s, "monitor"@) {
        "\u{f0379}"@
    } else {
        "\u{f00af}"@
    }
}

/// The glyph for a major device class (bits 8 to 12 of the class of device).
pub open spec fn class_glyph(cls: u32) -> Seq<char> {
    let major = (cls / 256) % 32;
    if major == 1 {
        "\u{f037d}"@
    } else if major == 2 {
        "\u{f095}"@
    } else if major == 3 {
        "\u{f0200}"@
    } else if major == 4 {
        "\u{f04c3}"@
    } else if major == 5 {
        "\u{f030c}"@
    } else if major == 6 {
        "\u{f0100}"@
    } else if major == 7 {
        "\u{f031a}"@
    } else {
        "\u{f00af}"@
    }
}

/// A glyph for a device: from its icon name if it has one, else from its
/// class, else the generic Bluetooth glyph.
pub fn device_icon(icon: Option<&str>, class: Option<u32>) -> (r: &'static str)
    ensures
        icon matches Some(s) ==> r@ == icon_glyph(s@),
        icon is None ==> (class matches Some(c) ==> r@ == class_glyph(c)),
        icon is None && class is None ==> r@ == "\u{f00af}"@,
{
    match icon {
        Some(s) => {
            if str_contains(s, "audio-headset") || str_contains(s, "audio-headphones") {
                "\u{f025}"
            } else if str_contains(s, "audio-card") || str_contains(s, "speaker") {
                "\u{f04c3}"
            } else if str_contains(s, "phone") {
                "\u{f095}"
            } else if str_contains(s, "computer") {
                "\u{f037d}"
            } else if str_contains(s, "input-keyboard") {
                "\u{f030c}"
            } else if str_contains(s, "input-mouse") {
                "\u{f037d}"
            } else if str_contains(s, "input-gaming") {
                "\u{f0297}"
            } else if str_contains(s, "input-tablet") {
                "\u{f04f6}"
            } else if str_contains(s, "camera") {
                "\u{f0100}"
            } else if str_contains(s, "printer") {
                "\u{f042a}"
            } else if str_contains(s, "network") {
                "\u{f0200}"
            } else if str_contains(s, "video-display") || str_contains(s, "monitor") {
                "\u{f0379}"
            } else {
                "\u{f00af}"
            }
        },
        None => match class {
            Some(cls) => {
                let major = (cls / 256) % 32;
                if major == 1 {
                    "\u{f037d}"
                } else if major == 2 {
                    "\u{f095}"
                } else if major == 3 {
                    "\u{f0200}"
                } else if major == 4 {
                    "\u{f04c3}"
                } else if major == 5 {
                    "\u{f030c}"
                } else if major == 6 {
                    "\u{f0100}"
                } else if major == 7 {
                    "\u{f031a}"
                } else {
                    "\u{f00af}"
                }
            },
            None => "\u{f00af}",
        },
    }
}

/// The spinner frame for a tick: frames cycle every ten ticks.
pub fn spinner_frame(tick: u64) -> (r: &'static str)
    ensures
        tick % 10 == 0 ==> r@ == "\u{280b}"@,
        tick % 10 == 1 ==> r@ == "\u{2819}"@,
        tick % 10 == 2 ==> r@ == "\u{2839}"@,
        tick % 10 == 3 ==> r@ == "\u{2838}"@,
        tick % 10 == 4 ==> r@ == "\u{283c}"@,
        tick % 10 == 5 ==> r@ == "\u{2834}"@,
        tick % 10 == 6 ==> r@ == "\u{2826}"@,
        tick % 10 == 7 ==> r@ == "\u{2827}"@,
        tick % 10 == 8 ==> r@ == "\u{2807}"@,
        tick % 10 == 9 ==> r@ == "\u{280f}"@,
{
    let i = tick % 10;
    if i == 0 {
        "\u{280b}"
    } else if i == 1 {
        "\u{2819}"
    } else if i == 2 {
        "\u{2839}"
    } else if i == 3 {
        "\u{2838}"
    } else if i == 4 {
        "\u{283c}"
    } else if i == 5 {
        "\u{2834}"
    } else if i == 6 {
        "\u{2826}"
    } else if i == 7 {
        "\u{2827}"
    } else if i == 8 {
        "\u{2807}"
    } else {
        "\u{280f}"
    }
}

} // verus!
