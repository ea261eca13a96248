//! The target geometry of a transformation.

use crate::number::{chars_of, number, read_number};
use vstd::prelude::*;

verus! {

/// The length that the longer side of a thumbnail gets.
pub const THUMBNAIL_SIDE: u32 = 64;

/// The pieces of `s` between its `x` characters, in order.
pub open spec fn components(s: Seq<char>) -> Seq<Seq<char>>
    decreases s.len(),
{
    if s.len() == 0 {
        seq![Seq::<char>::empty()]
    } else {
        let before = components(s.drop_last());
        if s.last() == 'x' {
            before.push(Seq::<char>::empty())
        } else {
            before.drop_last().push(before.last().push(s.last()))
        }
    }
}

/// The number that a piece spells, or zero where it spells none.
pub open spec fn coordinate(piece: Seq<char>) -> u32 {
    match number(piece) {
        Some(n) => n,
        None => 0,
    }
}

/// The dimensions that a size request names: its first two pieces, where it
/// has at least two and every piece is a positive number.
pub open spec fn requested_size(s: Seq<char>) -> Option<(u32, u32)> {
    let pieces = components(s);
    if pieces.len() >= 2 && (forall|i: int| 0 <= i < pieces.len() ==> coordinate(#[trigger] pieces[i]) != 0) {
        Some((coordinate(pieces[0]), coordinate(pieces[1])))
    } else {
        None
    }
}

/// The thumbnail geometry: the longer side becomes 64, the shorter one keeps
/// the proportion, rounded toward zero. A square counts as taller than wide.
pub open spec fn thumbnail(width: u32, height: u32) -> (u32, u32) {
    if width > height {
        (THUMBNAIL_SIDE, (64 * height as int / width as int) as u32)
    } else if height == 0 {
        (0, THUMBNAIL_SIDE)
    } else {
        ((64 * width as int / height as int) as u32, THUMBNAIL_SIDE)
    }
}

/// The target geometry before scaling: the requested size where one is
/// given, else the source dimensions where they are to be preserved, else the
/// thumbnail geometry. `None` where the request is malformed.
pub open spec fn target_size(width: u32, height: u32, request: Option<Seq<char>>, preserve: bool) -> Option<
    (u32, u32),
> {
    match request {
        Some(s) => requested_size(s),
        None => if preserve {
            Some((width, height))
        } else {
            Some(thumbnail(width, height))
        },
    }
}

/// The message for a malformed size request.
pub open spec fn size_error_text() -> Seq<char> {
    "Invalid coordinates supplied to --size: must be in format NUMxNUM"@
}

/// The message for a malformed size request.
pub fn size_error() -> (message: String)
    ensures
        message@ == size_error_text(),
{
    String::from_str("Invalid coordinates supplied to --size: must be in format NUMxNUM")
}

/// Computes the thumbnail geometry of a source of the given dimensions.
pub fn thumbnail_size(width: u32, height: u32) -> (size: (u32, u32))
    ensures
        size == thumbnail(width, height),
{
    if width > height {
        let shorter: u64 = 64 * (height as u64) / (width as u64);
        (THUMBNAIL_SIDE, shorter as u32)
    } else if height == 0 {
        (0, THUMBNAIL_SIDE)
    } else {
        let shorter: u64 = 64 * (width as u64) / (height as u64);
        (shorter as u32, THUMBNAIL_SIDE)
    }
}

/// Reads a size request of the form `NUMxNUM`.
pub fn parse_size(request: &str) -> (size: Option<(u32, u32)>)
    ensures
        size == requested_size(request@),
{
    let chars = chars_of(request);
    let mut values: Vec<u32> = Vec::new();
    let ghost mut closed: Seq<Seq<char>> = Seq::empty();
    let mut start: usize = 0;
    let mut i: usize = 0;
    assert(chars@.subrange(0, 0) =~= Seq::<char>::empty());
    assert(components(chars@.subrange(0, 0)) =~= closed.push(chars@.subrange(0, 0)));
    while i < chars.len()
        invariant
            start <= i <= chars.len(),
            components(chars@.subrange(0, i as int)) == closed.push(chars@.subrange(start as int, i as int)),
            values.len() == closed.len(),
            forall|j: int| 0 <= j < closed.len() ==> #[trigger] values[j] == coordinate(closed[j]),
        decreases chars.len() - i,
    {
        let ghost prefix = chars@.subrange(0, i as int);
        let ghost longer = chars@.subrange(0, i + 1);
        let ghost piece = chars@.subrange(start as int, i as int);
        assert(longer.drop_last() =~= prefix);
        assert(longer.last() == chars@[i as int]);
        assert(closed.push(piece).last() == piece);
        assert(closed.push(piece).drop_last() =~= closed);
        if chars[i] == 'x' {
            let value = match read_number(&chars, start, i) {
                Some(n) => n,
                None => 0,
            };
            values.push(value);
            proof {
                closed = closed.push(piece);
            }
            start = i + 1;
            assert(chars@.subrange(start as int, start as int) =~= Seq::<char>::empty());
        } else {
            assert(piece.push(chars@[i as int]) =~= chars@.subrange(start as int, i + 1));
        }
        i = i + 1;
    }
    assert(chars@.subrange(0, i as int) =~= request@);
    let last = match read_number(&chars, start, i) {
        Some(n) => n,
        None => 0,
    };
    values.push(last);
    let ghost pieces = components(request@);
    assert(values.len() == pieces.len());
    assert forall|j: int| 0 <= j < pieces.len() implies #[trigger] values[j] == coordinate(pieces[j]) by {
        if j < closed.len() {
            assert(pieces[j] == closed[j]);
        }
    }
    let mut j: usize = 0;
    while j < values.len()
        invariant
            j <= values.len(),
            pieces == components(request@),
            values.len() == pieces.len(),
            forall|k: int| 0 <= k < pieces.len() ==> #[trigger] values[k] == coordinate(pieces[k]),
            forall|k: int| 0 <= k < j ==> coordinate(#[trigger] pieces[k]) != 0,
        decreases values.len() - j,
    {
        if values[j] == 0 {
            assert(coordinate(pieces[j as int]) == 0);
            return None;
        }
        j = j + 1;
    }
    if values.len() < 2 {
        return None;
    }
    Some((values[0], values[1]))
}

/// Computes the target geometry before scaling from the first frame's
/// dimensions, the size request and the preserve flag; a malformed request
/// is the only failure.
pub fn resolve_size(width: u32, height: u32, request: &Option<String>, preserve: bool) -> (size: Result<
    (u32, u32),
    String,
>)
    ensures
        match target_size(width, height, request_text(request), preserve) {
            Some(target) => size == Ok::<(u32, u32), String>(target),
            None => size is Err && size->Err_0@ == size_error_text(),
        },
{
    match request {
        Some(text) => match parse_size(text.as_str()) {
            Some(target) => Ok(target),
            None => Err(size_error()),
        },
        None => if preserve {
            Ok((width, height))
        } else {
            Ok(thumbnail_size(width, height))
        },
    }
}

/// The characters of an optional size request.
pub open spec fn request_text(request: &Option<String>) -> Option<Seq<char>> {
    match request {
        Some(text) => Some(text@),
        None => None,
    }
}

/// A size request decides the target geometry alone: neither the source
/// dimensions nor the preserve flag matter.
pub proof fn requested_size_ignores_source(
    request: Seq<char>,
    width: u32,
    height: u32,
    preserve: bool,
    other_width: u32,
    other_height: u32,
    other_preserve: bool,
)
    ensures
        target_size(width, height, Some(request), preserve) == target_size(
            other_width,
            other_height,
            Some(request),
            other_preserve,
        ),
        target_size(width, height, Some(request), preserve) == requested_size(request),
{
}

/// The thumbnail geometry has a longer side of 64 and a shorter side of at
/// most 64, and keeps a source of 64 on its longer side as it is.
pub proof fn thumbnail_fits_the_square(width: u32, height: u32)
    ensures
        thumbnail(width, height).0 <= THUMBNAIL_SIDE,
        thumbnail(width, height).1 <= THUMBNAIL_SIDE,
        thumbnail(width, height).0 == THUMBNAIL_SIDE || thumbnail(width, height).1 == THUMBNAIL_SIDE,
        (width == 64 && height <= 64) || (height == 64 && width <= 64) ==> thumbnail(width, height) == (
            width,
            height,
        ),
{
    if width > height {
        assert(64 * height as int / width as int <= 64) by (nonlinear_arith)
            requires
                0 <= height < width,
        ;
        assert(0 <= 64 * height as int / width as int) by (nonlinear_arith)
            requires
                0 <= height < width,
        ;
        if width == 64 {
            assert(64 * height as int / 64 == height);
        }
    } else if height > 0 {
        assert(64 * width as int / height as int <= 64) by (nonlinear_arith)
            requires
                0 <= width <= height,
                height > 0,
        ;
        assert(0 <= 64 * width as int / height as int) by (nonlinear_arith)
            requires
                0 <= width <= height,
                height > 0,
        ;
        if height == 64 {
            assert(64 * width as int / 64 == width);
        }
    }
}

} // verus!
