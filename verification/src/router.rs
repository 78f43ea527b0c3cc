//! Mapping from key events to control commands, and the perceptual volume
//! curve. A digit selects a volume of `(digit/9)^2`; kept in integers as
//! the fraction `digit^2 / 81`, which the audio glue divides out.
use vstd::prelude::*;

verus! {

/// Denominator of the volume fraction: a digit `d` means volume
/// `d*d / 81`, so `9` is full volume and `0` silence.
pub const VOLUME_SCALE: u8 = 81;

/// A control command decided from one key event.
#[derive(Clone, Copy, Debug, PartialEq, Eq, Structural)]
pub enum Command {
    /// Set the sink volume to `digit^2 / 81`; carries the digit 0..=9.
    Volume(u8),
    NextStation,
    PrevStation,
    /// Open the station selection menu.
    StationMenu,
    /// Refresh the program information out of band.
    InfoRefresh,
    Quit,
    /// Any other key: no effect.
    Ignore,
}

/// The key binding: digits adjust volume, `n`/`p` switch stations, `m`
/// opens the menu, `i` refreshes program info, `Q` and Ctrl-C quit.
pub open spec fn spec_route(key: char, ctrl: bool) -> Command {
    if ctrl {
        if key == 'c' {
            Command::Quit
        } else {
            Command::Ignore
        }
    } else if 48 <= key as u32 <= 57 {
        Command::Volume((key as u32 - 48) as u8)
    } else if key == 'n' {
        Command::NextStation
    } else if key == 'p' {
        Command::PrevStation
    } else if key == 'm' {
        Command::StationMenu
    } else if key == 'i' {
        Command::InfoRefresh
    } else if key == 'Q' {
        Command::Quit
    } else {
        Command::Ignore
    }
}

/// Decide the command for one pressed key; `ctrl` marks the control
/// modifier.
pub fn route(key: char, ctrl: bool) -> (cmd: Command)
    ensures
        cmd == spec_route(key, ctrl),
{
    let code = key as u32;
    if ctrl {
        if key == 'c' {
            Command::Quit
        } else {
            Command::Ignore
        }
    } else if 48 <= code && code <= 57 {
        Command::Volume((code - 48) as u8)
    } else if key == 'n' {
        Command::NextStation
    } else if key == 'p' {
        Command::PrevStation
    } else if key == 'm' {
        Command::StationMenu
    } else if key == 'i' {
        Command::InfoRefresh
    } else if key == 'Q' {
        Command::Quit
    } else {
        Command::Ignore
    }
}

/// Numerator of the volume fraction for a digit: the volume applied to
/// the sink is `volume_numerator(d) / 81`, the perceptual square of the
/// linear position `d/9`.
pub fn volume_numerator(digit: u8) -> (num: u8)
    requires
        digit <= 9,
    ensures
        num == digit * digit,
        num <= VOLUME_SCALE,
{
    proof {
        assert(digit * digit <= 81) by (nonlinear_arith)
            requires
                digit <= 9,
        ;
    }
    digit * digit
}

} // verus!
