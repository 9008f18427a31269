//! Areas of the screen.

use vstd::prelude::*;

verus! {

/// A rectangle of character cells.
#[derive(Clone, Copy, PartialEq, Eq, Structural, Debug)]
pub struct Rect {
    pub x: u16,
    pub y: u16,
    pub width: u16,
    pub height: u16,
}

/// How much of the screen a part gets.
#[derive(Clone, Copy, PartialEq, Eq, Structural, Debug)]
pub enum Constraint {
    /// This many cells.
    Length(u16),
    /// At least this many cells.
    Min(u16),
}

/// The smaller of two numbers.
pub open spec fn smaller(a: u16, b: u16) -> u16 {
    if a < b {
        a
    } else {
        b
    }
}

/// The sum of two coordinates, which wraps around behind the last one.
pub open spec fn shifted(a: int, by: int) -> int {
    if a + by > u16::MAX {
        a + by - 0x1_0000
    } else {
        a + by
    }
}

/// A rectangle of the given size in the middle of `area`, cut down to the size of
/// `area`. Where a side cannot be halved, the odd cell is on the right or at the bottom.
pub open spec fn centered(width: u16, height: u16, area: Rect) -> Rect {
    let w = smaller(width, area.width);
    let h = smaller(height, area.height);
    Rect {
        x: shifted(area.x as int, (area.width - w) / 2) as u16,
        y: shifted(area.y as int, (area.height - h) / 2) as u16,
        width: w,
        height: h,
    }
}

/// A rectangle of the given size in the middle of `area`.
pub fn centered_rect(width: u16, height: u16, area: Rect) -> (rect: Rect)
    ensures
        rect == centered(width, height, area),
{
    let w: u16 = if width < area.width {
        width
    } else {
        area.width
    };
    let h: u16 = if height < area.height {
        height
    } else {
        area.height
    };
    Rect {
        x: area.x.wrapping_add((area.width - w) / 2),
        y: area.y.wrapping_add((area.height - h) / 2),
        width: w,
        height: h,
    }
}

/// The sum of two coordinates, which stops at the last one.
pub open spec fn bounded(n: int) -> u16 {
    if n > u16::MAX {
        u16::MAX
    } else {
        n as u16
    }
}

/// What is left of `area` without a margin on each side; an empty rectangle in the
/// corner of the screen where the margin does not fit.
pub open spec fn inside(area: Rect, horizontal: u16, vertical: u16) -> Rect {
    let dx = bounded(2 * horizontal);
    let dy = bounded(2 * vertical);
    if area.width < dx || area.height < dy {
        Rect { x: 0, y: 0, width: 0, height: 0 }
    } else {
        Rect {
            x: bounded(area.x + horizontal),
            y: bounded(area.y + vertical),
            width: (area.width - dx) as u16,
            height: (area.height - dy) as u16,
        }
    }
}

/// What is left of `area` without a margin on each side.
pub fn inner(area: Rect, horizontal: u16, vertical: u16) -> (rect: Rect)
    ensures
        rect == inside(area, horizontal, vertical),
{
    let dx: u16 = horizontal.saturating_add(horizontal);
    let dy: u16 = vertical.saturating_add(vertical);
    if area.width < dx || area.height < dy {
        Rect { x: 0, y: 0, width: 0, height: 0 }
    } else {
        Rect {
            x: area.x.saturating_add(horizontal),
            y: area.y.saturating_add(vertical),
            width: area.width - dx,
            height: area.height - dy,
        }
    }
}

/// Whether `areas` are `n` bands of `area`: each has its left edge and its width, and
/// none reaches above its top or below its bottom, which ends with the last coordinate.
pub open spec fn bands_of(areas: Seq<Rect>, area: Rect, n: nat) -> bool {
    &&& areas.len() == n
    &&& forall|i: int|
        0 <= i < areas.len() ==> {
            &&& (#[trigger] areas[i]).x == area.x
            &&& areas[i].width == area.width
            &&& area.y <= areas[i].y
            &&& areas[i].y + areas[i].height <= bounded(area.y + area.height)
        }
}

/// The rows that the parts of fixed length take together.
pub open spec fn fixed_rows(parts: Seq<Constraint>) -> int
    decreases parts.len(),
{
    if parts.len() == 0 {
        0
    } else {
        fixed_rows(parts.drop_last()) + (match parts.last() {
            Constraint::Length(n) => n as int,
            Constraint::Min(_) => 0,
        })
    }
}

/// Whether the part at `rest` is the only one without a fixed length, and it gets at least
/// as many rows as it needs when the others have theirs. `area` ends on the screen.
pub open spec fn fits(parts: Seq<Constraint>, area: Rect, rest: int) -> bool {
    &&& area.y + area.height <= u16::MAX
    &&& 0 <= rest < parts.len()
    &&& forall|i: int| 0 <= i < parts.len() && i != rest ==> #[trigger] parts[i] is Length
    &&& parts[rest] matches Constraint::Min(n) && fixed_rows(parts) + n <= area.height
}

/// Whether the areas follow one another from the top of `area` to its bottom: those of
/// fixed length have their length, and the others take what is left.
pub open spec fn filled(areas: Seq<Rect>, area: Rect, parts: Seq<Constraint>) -> bool {
    &&& areas[0].y == area.y
    &&& forall|i: int, j: int|
        0 <= i && j == i + 1 && j < areas.len() ==> (#[trigger] areas[j]).y == (
        #[trigger] areas[i]).y + areas[i].height
    &&& forall|i: int|
        0 <= i < areas.len() ==> (#[trigger] areas[i]).height == (match parts[i] {
            Constraint::Length(n) => n as int,
            Constraint::Min(_) => area.height - fixed_rows(parts),
        })
}

/// Whether `areas` are the parts of `area`, one for each of `parts`: bands of `area`, which
/// fill it from top to bottom where the parts fit.
pub open spec fn divided(areas: Seq<Rect>, area: Rect, parts: Seq<Constraint>) -> bool {
    &&& bands_of(areas, area, parts.len())
    &&& forall|rest: int| #[trigger] fits(parts, area, rest) ==> filled(areas, area, parts)
}

/// `ratatui::layout::Layout::split` of a vertical layout returns one area for each
/// constraint. Each has the left edge and the width of `area`, and its solver is required
/// to keep each between the top and the bottom of `area`. Where one constraint is a
/// minimum, the others are lengths and all can be met, the best solution is the only one:
/// no space is left before or between the areas, each length is met, and the area with the
/// minimum grows over the rest, which weighs more with the solver than the space behind
/// the last area. Where the constraints cannot all be met, the areas are left open: which
/// of several best solutions comes out depends on hash maps that each process seeds anew.
/// The claim is for up to four constraints.
#[verifier::external_body]
pub(crate) fn split_vertical(area: Rect, constraints: &Vec<Constraint>) -> (areas: Vec<Rect>)
    requires
        0 < constraints@.len() <= 4,
    ensures
        divided(areas@, area, constraints@),
{
    let (x, y, width, height) = (area.x, area.y, area.width, area.height);
    let parts = constraints.iter().map(|c| match c {
        Constraint::Length(n) => ratatui::layout::Constraint::Length(*n),
        Constraint::Min(n) => ratatui::layout::Constraint::Min(*n),
    });
    let areas = ratatui::layout::Layout::vertical(parts)
        .split(ratatui::layout::Rect { x, y, width, height });
    areas.iter().map(|r| Rect { x: r.x, y: r.y, width: r.width, height: r.height }).collect()
}

} // verus!
