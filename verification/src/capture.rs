//! The outcome of capturing screens: which captures are kept, and the errors
//! that a capture request can end in.

use crate::screens::{
    bounding_desktop, find_screen, spec_all_in_range, spec_is_bounding_box, ScreenRect,
    VirtualDesktop,
};
use vstd::prelude::*;
use vstd::string::*;

verus! {

/// Why a capture request failed.
#[derive(Clone, Copy, Debug, PartialEq, Eq, Structural)]
pub enum CaptureError {
    /// There is no screen to capture.
    NoScreens,
    /// There are screens, but the capture of every one of them failed.
    NothingCaptured,
    /// No screen has the requested identifier.
    ScreenNotFound(u32),
}

/// The character of a decimal digit.
pub open spec fn spec_digit(d: nat) -> char {
    if d == 0 {
        '0'
    } else if d == 1 {
        '1'
    } else if d == 2 {
        '2'
    } else if d == 3 {
        '3'
    } else if d == 4 {
        '4'
    } else if d == 5 {
        '5'
    } else if d == 6 {
        '6'
    } else if d == 7 {
        '7'
    } else if d == 8 {
        '8'
    } else {
        '9'
    }
}

/// The decimal numeral of `n`, without leading zeros.
pub open spec fn spec_decimal(n: nat) -> Seq<char>
    decreases n,
{
    if n < 10 {
        seq![spec_digit(n)]
    } else {
        spec_decimal(n / 10).push(spec_digit(n % 10))
    }
}

impl CaptureError {
    /// The text by which the error is reported.
    pub open spec fn spec_message(self) -> Seq<char> {
        match self {
            CaptureError::NoScreens => "No screens found"@,
            CaptureError::NothingCaptured => "Failed to capture any screen"@,
            CaptureError::ScreenNotFound(id) => "Screen "@ + spec_decimal(id as nat)
                + " not found"@,
        }
    }

    /// The text by which the error is reported: `"No screens found"`,
    /// `"Failed to capture any screen"`, or `"Screen N not found"` with the
    /// identifier in decimal.
    pub fn message(&self) -> (text: String)
        ensures
            text@ == self.spec_message(),
    {
        match self {
            CaptureError::NoScreens => String::from_str("No screens found"),
            CaptureError::NothingCaptured => String::from_str("Failed to capture any screen"),
            CaptureError::ScreenNotFound(id) => {
                let mut text = String::from_str("Screen ");
                let number = decimal_text(*id);
                text.append(number.as_str());
                text.append(" not found");
                text
            },
        }
    }
}

/// The one-character text of a decimal digit.
fn digit_text(d: u32) -> (text: &'static str)
    requires
        d < 10,
    ensures
        text@ == seq![spec_digit(d as nat)],
{
    proof {
        reveal_strlit("0");
        reveal_strlit("1");
        reveal_strlit("2");
        reveal_strlit("3");
        reveal_strlit("4");
        reveal_strlit("5");
        reveal_strlit("6");
        reveal_strlit("7");
        reveal_strlit("8");
        reveal_strlit("9");
    }
    match d {
        0 => "0",
        1 => "1",
        2 => "2",
        3 => "3",
        4 => "4",
        5 => "5",
        6 => "6",
        7 => "7",
        8 => "8",
        _ => "9",
    }
}

/// Writes `n` in decimal, without leading zeros.
pub fn decimal_text(n: u32) -> (text: String)
    ensures
        text@ == spec_decimal(n as nat),
    decreases n,
{
    if n < 10 {
        String::from_str(digit_text(n))
    } else {
        let mut text = decimal_text(n / 10);
        text.append(digit_text(n % 10));
        text
    }
}

/// The captures that succeeded, in the order of their screens.
pub open spec fn spec_captured<T>(shots: Seq<Option<T>>) -> Seq<T>
    decreases shots.len(),
{
    if shots.len() == 0 {
        Seq::empty()
    } else {
        match shots.last() {
            Some(shot) => spec_captured(shots.drop_last()).push(shot),
            None => spec_captured(shots.drop_last()),
        }
    }
}

/// Keeps the captures that succeeded.
///
/// `shots` holds, for each screen in order, its capture or `None` where the
/// capture failed. The result holds the captures that succeeded, in the same
/// order. Without a screen the request fails with `NoScreens`; with screens
/// but no capture, with `NothingCaptured`.
pub fn retain_captured<T>(shots: Vec<Option<T>>) -> (kept: Result<Vec<T>, CaptureError>)
    ensures
        shots@.len() == 0 ==> kept == Err::<Vec<T>, CaptureError>(CaptureError::NoScreens),
        shots@.len() > 0 && spec_captured(shots@).len() == 0 ==> kept == Err::<
            Vec<T>,
            CaptureError,
        >(CaptureError::NothingCaptured),
        shots@.len() > 0 && spec_captured(shots@).len() > 0 ==> kept is Ok && kept->Ok_0@
            == spec_captured(shots@),
{
    if shots.len() == 0 {
        return Err(CaptureError::NoScreens);
    }
    let ghost all = shots@;
    let mut captures: Vec<T> = Vec::new();
    for shot in iter: shots
        invariant
            iter.seq() == all,
            captures@ == spec_captured(all.take(iter.index() as int)),
    {
        proof {
            let upto = all.take(iter.index() + 1);
            assert(upto.drop_last() == all.take(iter.index() as int));
            assert(upto.last() == shot);
        }
        match shot {
            Some(capture) => {
                captures.push(capture);
            },
            None => {},
        }
    }
    proof {
        assert(all.take(all.len() as int) == all);
    }
    if captures.len() == 0 {
        Err(CaptureError::NothingCaptured)
    } else {
        Ok(captures)
    }
}

/// Computes the desktop that a capture of all screens covers: the bounding
/// box of the screens. Without a screen there is nothing to capture, and the
/// request fails with `NoScreens`.
///
/// The edges of each screen must be coordinates.
pub fn capture_desktop(screens: &Vec<ScreenRect>) -> (desktop: Result<VirtualDesktop, CaptureError>)
    requires
        spec_all_in_range(screens@),
    ensures
        match desktop {
            Ok(d) => screens@.len() > 0 && spec_is_bounding_box(screens@, d),
            Err(e) => screens@.len() == 0 && e == CaptureError::NoScreens,
        },
{
    match bounding_desktop(screens) {
        Some(desktop) => Ok(desktop),
        None => Err(CaptureError::NoScreens),
    }
}

/// Looks up the screen with identifier `id`; there is an error if none has it.
pub fn screen_by_id(screens: &Vec<ScreenRect>, id: u32) -> (found: Result<usize, CaptureError>)
    ensures
        match found {
            Ok(i) => i < screens@.len() && screens@[i as int].id == id && forall|j: int|
                0 <= j < i ==> (#[trigger] screens@[j]).id != id,
            Err(e) => e == CaptureError::ScreenNotFound(id) && forall|j: int|
                0 <= j < screens@.len() ==> (#[trigger] screens@[j]).id != id,
        },
{
    match find_screen(screens, id) {
        Some(i) => Ok(i),
        None => Err(CaptureError::ScreenNotFound(id)),
    }
}

} // verus!
