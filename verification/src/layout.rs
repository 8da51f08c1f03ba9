//! Screen regions and the vertical partition of an area into panels.

use vstd::prelude::*;

verus! {

/// A rectangle of screen cells: its top left cell, its width in columns and
/// its height in lines.
#[derive(Clone, Copy, Debug, PartialEq, Eq, Structural)]
pub struct Region {
    pub x: u16,
    pub y: u16,
    pub width: u16,
    pub height: u16,
}

/// The largest coordinate of a cell.
pub const MAX_COORDINATE: u16 = 0xffff;

impl Region {
    /// The region ends within the coordinate range.
    pub open spec fn fits(self) -> bool {
        self.x + self.width <= MAX_COORDINATE && self.y + self.height <= MAX_COORDINATE
    }

    /// The part of the region that lies within the coordinate range: the
    /// same top left cell, the width and the height cut back to what fits.
    pub open spec fn clipped(self) -> Region {
        Region {
            x: self.x,
            y: self.y,
            width: if self.x + self.width <= MAX_COORDINATE {
                self.width
            } else {
                (MAX_COORDINATE - self.x) as u16
            },
            height: if self.y + self.height <= MAX_COORDINATE {
                self.height
            } else {
                (MAX_COORDINATE - self.y) as u16
            },
        }
    }

    /// The cell at (`x`, `y`) lies in the region.
    pub open spec fn contains(self, x: int, y: int) -> bool {
        self.x <= x < self.x + self.width && self.y <= y < self.y + self.height
    }

    /// The region with the given top left cell and size, clipped.
    pub fn new(x: u16, y: u16, width: u16, height: u16) -> (region: Region)
        ensures
            region == (Region { x, y, width, height }).clipped(),
            region.fits(),
    {
        let free_columns: u16 = MAX_COORDINATE - x;
        let free_lines: u16 = MAX_COORDINATE - y;
        Region {
            x,
            y,
            width: if width <= free_columns {
                width
            } else {
                free_columns
            },
            height: if height <= free_lines {
                height
            } else {
                free_lines
            },
        }
    }

    /// The part of the region that lies within the coordinate range.
    pub fn clip(self) -> (region: Region)
        ensures
            region == self.clipped(),
            region.fits(),
            self.fits() ==> region == self,
    {
        Region::new(self.x, self.y, self.width, self.height)
    }
}

/// The number of lines that the first `i` panels ask for.
pub open spec fn lines_before(heights: Seq<u16>, i: int) -> int
    decreases i,
{
    if i <= 0 {
        0
    } else {
        lines_before(heights, i - 1) + heights[i - 1]
    }
}

/// The line, counted from the top of `lines` available lines, at which
/// panel `i` starts: below the panels before it, and at the end once the
/// lines are used up.
pub open spec fn panel_offset(heights: Seq<u16>, lines: int, i: int) -> int {
    if lines_before(heights, i) <= lines {
        lines_before(heights, i)
    } else {
        lines
    }
}

/// The number of lines that panel `i` gets: what it asks for, cut back to
/// what is left below its start.
pub open spec fn panel_lines(heights: Seq<u16>, lines: int, i: int) -> int {
    if heights[i] <= lines - panel_offset(heights, lines, i) {
        heights[i] as int
    } else {
        lines - panel_offset(heights, lines, i)
    }
}

/// The region of panel `i` when panels of the given heights are stacked
/// from the top of `area`: as wide as the area, and as high as
/// [`panel_lines`] says.
pub open spec fn panel_region(heights: Seq<u16>, area: Region, i: int) -> Region {
    let within = area.clipped();
    Region {
        x: within.x,
        y: (within.y + panel_offset(heights, within.height as int, i)) as u16,
        width: within.width,
        height: panel_lines(heights, within.height as int, i) as u16,
    }
}

/// The heights so far never sum to less than nothing, and grow with `i`.
pub proof fn lemma_lines_before_grows(heights: Seq<u16>, i: int, j: int)
    requires
        0 <= i <= j,
    ensures
        0 <= lines_before(heights, i) <= lines_before(heights, j),
    decreases j,
{
    if j > 0 {
        if i < j {
            lemma_lines_before_grows(heights, i, j - 1);
        } else {
            lemma_lines_before_grows(heights, i - 1, j - 1);
        }
    }
}

/// The panels partition the top of the area. Each panel lies within the
/// clipped area, is no higher than it asks, and starts where the one before
/// it ends, the first at the top; so no two panels share a line. While the
/// heights asked for fit, every panel has its full height.
pub proof fn lemma_panels_stack(heights: Seq<u16>, area: Region, i: int)
    requires
        0 <= i < heights.len(),
    ensures
        panel_region(heights, area, i).x == area.clipped().x,
        panel_region(heights, area, i).width == area.clipped().width,
        panel_region(heights, area, i).height <= heights[i],
        area.clipped().y <= panel_region(heights, area, i).y,
        panel_region(heights, area, i).y + panel_region(heights, area, i).height
            <= area.clipped().y + area.clipped().height,
        panel_region(heights, area, 0).y == area.clipped().y,
        i + 1 < heights.len() ==> panel_region(heights, area, i + 1).y == panel_region(
            heights,
            area,
            i,
        ).y + panel_region(heights, area, i).height,
        lines_before(heights, i + 1) <= area.clipped().height ==> panel_region(
            heights,
            area,
            i,
        ).height == heights[i],
{
    lemma_lines_before_grows(heights, i, i + 1);
}

/// Stacks panels of the given heights from the top of `area`.
pub fn partition(heights: &Vec<u16>, area: Region) -> (regions: Vec<Region>)
    ensures
        regions@.len() == heights@.len(),
        forall|i: int|
            0 <= i < heights@.len() ==> #[trigger] regions@[i] == panel_region(heights@, area, i),
{
    let within = area.clip();
    let mut regions: Vec<Region> = Vec::new();
    let mut offset: u16 = 0;
    let mut i: usize = 0;
    while i < heights.len()
        invariant
            i <= heights@.len(),
            within == area.clipped(),
            within.fits(),
            regions@.len() == i,
            offset == panel_offset(heights@, within.height as int, i as int),
            offset <= within.height,
            forall|k: int| 0 <= k < i ==> #[trigger] regions@[k] == panel_region(heights@, area, k),
        decreases heights@.len() - i,
    {
        let left: u16 = within.height - offset;
        let lines: u16 = if heights[i] <= left {
            heights[i]
        } else {
            left
        };
        regions.push(Region { x: within.x, y: within.y + offset, width: within.width, height: lines });
        offset = offset + lines;
        i = i + 1;
    }
    regions
}

} // verus!
