//! A capture region given as four decimal numerals.

use crate::screens::{clamp_area, spec_clamp_area, CaptureArea, ScreenRect};
use vstd::prelude::*;

verus! {

/// A region to capture: a point and a size.
#[derive(Clone, Copy, Debug, PartialEq, Eq, Structural)]
pub struct CaptureRegion {
    pub x: i32,
    pub y: i32,
    pub width: u32,
    pub height: u32,
}

/// Whether `c` is one of the digits `0` to `9`.
pub open spec fn spec_is_digit(c: char) -> bool {
    '0' <= c && c <= '9'
}

/// Whether `s` is made of digits alone.
pub open spec fn spec_all_digits(s: Seq<char>) -> bool {
    forall|i: int| 0 <= i < s.len() ==> spec_is_digit(#[trigger] s[i])
}

/// The number that the digits of `s` write in decimal.
pub open spec fn spec_digits_value(s: Seq<char>) -> int
    decreases s.len(),
{
    if s.len() == 0 {
        0
    } else {
        10 * spec_digits_value(s.drop_last()) + (s.last() as int - '0' as int)
    }
}

/// The number that `s` writes, if `s` is a numeral: digits, at least one,
/// after an optional `+` or, where `signed` is set, an optional `-`.
pub open spec fn spec_numeral(s: Seq<char>, signed: bool) -> Option<int> {
    let negative = signed && s.len() > 0 && s[0] == '-';
    let digits = if s.len() > 0 && (s[0] == '+' || negative) {
        s.skip(1)
    } else {
        s
    };
    if digits.len() > 0 && spec_all_digits(digits) {
        Some(
            if negative {
                -spec_digits_value(digits)
            } else {
                spec_digits_value(digits)
            },
        )
    } else {
        None
    }
}

/// Whether `s` is a numeral of a number that fits in an `i32`.
pub open spec fn spec_is_i32(s: Seq<char>) -> bool {
    spec_numeral(s, true) matches Some(v) && i32::MIN <= v <= i32::MAX
}

/// Whether `s` is a numeral of a number that fits in a `u32`.
pub open spec fn spec_is_u32(s: Seq<char>) -> bool {
    spec_numeral(s, false) matches Some(v) && v <= u32::MAX
}

/// The text by which the standard library reports that `s` is no `i32`.
pub uninterp spec fn spec_i32_error(s: Seq<char>) -> Seq<char>;

/// The text by which the standard library reports that `s` is no `u32`.
pub uninterp spec fn spec_u32_error(s: Seq<char>) -> Seq<char>;

/// Reads an `i32` from its decimal numeral.
///
/// Calls `str::parse::<i32>` and turns its error into text. Trusted, as the
/// standard library documents it: the call succeeds exactly on an optional
/// sign followed by digits alone that write a number in range, and returns
/// that number; the text of the error is a function of the input alone.
#[verifier::external_body]
fn parse_i32(text: &str) -> (parsed: Result<i32, String>)
    ensures
        parsed is Ok <==> spec_is_i32(text@),
        parsed matches Ok(v) ==> spec_numeral(text@, true) == Some(v as int),
        parsed matches Err(e) ==> e@ == spec_i32_error(text@),
{
    text.parse::<i32>().map_err(|e| e.to_string())
}

/// Reads a `u32` from its decimal numeral.
///
/// Calls `str::parse::<u32>` and turns its error into text. Trusted, as the
/// standard library documents it: the call succeeds exactly on an optional
/// `+` followed by digits alone that write a number in range, and returns
/// that number; the text of the error is a function of the input alone.
#[verifier::external_body]
fn parse_u32(text: &str) -> (parsed: Result<u32, String>)
    ensures
        parsed is Ok <==> spec_is_u32(text@),
        parsed matches Ok(v) ==> spec_numeral(text@, false) == Some(v as int),
        parsed matches Err(e) ==> e@ == spec_u32_error(text@),
{
    text.parse::<u32>().map_err(|e| e.to_string())
}

/// The text of the first error among the four numerals, in the order `x`,
/// `y`, `width`, `height`, if one of them is no number of its type.
pub open spec fn spec_region_error(
    x: Seq<char>,
    y: Seq<char>,
    width: Seq<char>,
    height: Seq<char>,
) -> Option<Seq<char>> {
    if !spec_is_i32(x) {
        Some(spec_i32_error(x))
    } else if !spec_is_i32(y) {
        Some(spec_i32_error(y))
    } else if !spec_is_u32(width) {
        Some(spec_u32_error(width))
    } else if !spec_is_u32(height) {
        Some(spec_u32_error(height))
    } else {
        None
    }
}

/// Reads a capture region from four decimal numerals.
///
/// `x` and `y` are signed, `width` and `height` unsigned. The numerals are
/// read in this order, and the first that is no number of its type ends the
/// reading with the text of its error.
pub fn parse_region(x: &str, y: &str, width: &str, height: &str) -> (region: Result<
    CaptureRegion,
    String,
>)
    ensures
        region is Ok <==> spec_region_error(x@, y@, width@, height@) is None,
        region matches Ok(r) ==> {
            &&& spec_numeral(x@, true) == Some(r.x as int)
            &&& spec_numeral(y@, true) == Some(r.y as int)
            &&& spec_numeral(width@, false) == Some(r.width as int)
            &&& spec_numeral(height@, false) == Some(r.height as int)
        },
        region matches Err(e) ==> spec_region_error(x@, y@, width@, height@) == Some(e@),
{
    let px: i32 = match parse_i32(x) {
        Ok(v) => v,
        Err(e) => {
            return Err(e);
        },
    };
    let py: i32 = match parse_i32(y) {
        Ok(v) => v,
        Err(e) => {
            return Err(e);
        },
    };
    let pw: u32 = match parse_u32(width) {
        Ok(v) => v,
        Err(e) => {
            return Err(e);
        },
    };
    let ph: u32 = match parse_u32(height) {
        Ok(v) => v,
        Err(e) => {
            return Err(e);
        },
    };
    Ok(CaptureRegion { x: px, y: py, width: pw, height: ph })
}

/// Finds the area of `screen` that `region` covers: the region's point
/// relative to the screen's origin, and its size cut off where the screen
/// ends.
pub fn region_area(region: &CaptureRegion, screen: &ScreenRect) -> (area: CaptureArea)
    ensures
        area == spec_clamp_area(region.x, region.y, region.width, region.height, *screen),
        area.rel_x <= screen.width ==> area.rel_x + area.width <= screen.width,
        area.rel_y <= screen.height ==> area.rel_y + area.height <= screen.height,
{
    clamp_area(region.x, region.y, region.width, region.height, screen)
}

} // verus!
