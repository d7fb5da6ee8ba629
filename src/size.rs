use vstd::prelude::*;

verus! {

/// Fixed border, in pixels, added around the cell grid.
pub const BORDER: u32 = 4;

/// Pixel dimensions of the window and of one cell of the grid.
#[derive(Clone, Copy, Debug, PartialEq, Eq, Structural)]
pub struct SizeInfo {
    pub width: u32,
    pub height: u32,
    pub cell_width: u32,
    pub cell_height: u32,
}

/// Per-glyph offset, in pixels, added to the font's metrics.
#[derive(Clone, Copy, Debug, PartialEq, Eq, Structural)]
pub struct Delta {
    pub x: i8,
    pub y: i8,
}

/// Aggregate metrics of the rasterized font, in whole pixels.
#[derive(Clone, Copy, Debug, PartialEq, Eq, Structural)]
pub struct FontMetrics {
    pub average_advance: u32,
    pub line_height: u32,
}

/// A metric moved by an offset, held to the range of `u32`.
pub open spec fn cell_dimension_spec(metric: u32, offset: i8) -> int {
    let v = metric as int + offset as int;
    if v < 0 {
        0
    } else if v > u32::MAX {
        u32::MAX as int
    } else {
        v
    }
}

/// Pixels of a window dimension that holds `count` cells of `cell` pixels and the border.
pub open spec fn window_dimension_spec(cell: u32, count: u32) -> int {
    cell as int * count as int + BORDER as int
}

/// Size of one cell along an axis: the font metric plus the configured offset,
/// never below zero nor above `u32::MAX`.
pub fn cell_dimension(metric: u32, offset: i8) -> (r: u32)
    ensures
        r as int == cell_dimension_spec(metric, offset),
{
    if offset >= 0 {
        metric.saturating_add(offset as u32)
    } else {
        let down = (0 - (offset as i16)) as u32;
        metric.saturating_sub(down)
    }
}

/// Pixels of a window dimension that holds `count` cells of `cell` pixels and the border,
/// or `None` where that does not fit in `u32`.
pub fn window_dimension(cell: u32, count: u32) -> (r: Option<u32>)
    ensures
        r.is_some() <==> window_dimension_spec(cell, count) <= u32::MAX,
        r.is_some() ==> r.unwrap() as int == window_dimension_spec(cell, count),
{
    match cell.checked_mul(count) {
        Some(p) => p.checked_add(BORDER),
        None => None,
    }
}

impl SizeInfo {
    /// The size after the window took `width` by `height` pixels: cells keep their size.
    pub open spec fn resized_spec(self, width: u32, height: u32) -> SizeInfo {
        SizeInfo { width, height, cell_width: self.cell_width, cell_height: self.cell_height }
    }

    /// Size of a grid of `columns` by `lines` cells of the given size, with the border.
    pub open spec fn grid_spec(cell_width: u32, cell_height: u32, columns: u32, lines: u32) -> SizeInfo {
        SizeInfo {
            width: window_dimension_spec(cell_width, columns) as u32,
            height: window_dimension_spec(cell_height, lines) as u32,
            cell_width,
            cell_height,
        }
    }

    /// The size after the window took `width` by `height` pixels.
    pub fn resized(&self, width: u32, height: u32) -> (r: SizeInfo)
        ensures
            r == self.resized_spec(width, height),
    {
        SizeInfo { width, height, cell_width: self.cell_width, cell_height: self.cell_height }
    }

    /// Size of a window that holds `columns` by `lines` cells of the given size and the
    /// border, or `None` where a dimension does not fit in `u32`.
    pub fn for_grid(cell_width: u32, cell_height: u32, columns: u32, lines: u32) -> (r: Option<
        SizeInfo,
    >)
        ensures
            r.is_some() <==> (window_dimension_spec(cell_width, columns) <= u32::MAX
                && window_dimension_spec(cell_height, lines) <= u32::MAX),
            r.is_some() ==> r.unwrap() == SizeInfo::grid_spec(cell_width, cell_height, columns, lines),
    {
        match (window_dimension(cell_width, columns), window_dimension(cell_height, lines)) {
            (Some(width), Some(height)) => Some(SizeInfo { width, height, cell_width, cell_height }),
            _ => None,
        }
    }
}

} // verus!
