use vstd::prelude::*;

use crate::meter::{average_of, Meter, NUM_SAMPLES};
use crate::size::{
    cell_dimension, cell_dimension_spec, window_dimension_spec, Delta, FontMetrics, SizeInfo,
};

verus! {

/// One thing to do, in order, once the pending resize events have been coalesced.
#[derive(Clone, Copy, Debug, PartialEq, Eq, Structural)]
pub enum ResizeStep {
    /// Resize the terminal model to these pixels.
    ResizeTerminal { width: u32, height: u32 },
    /// Hand this size to every resize listener, in the order they were supplied.
    NotifyListeners(SizeInfo),
    /// Resize the GPU viewport to these pixels.
    ResizeViewport { width: u32, height: u32 },
}

/// A scope of the GPU draw API that one frame opens, in order.
#[derive(Clone, Copy, Debug, PartialEq, Eq, Structural)]
pub enum ApiScope {
    /// Clear the frame buffer and draw the cell grid; its duration is sampled.
    Grid,
    /// Draw the mean frame time as an overlay string.
    RenderTimer,
}

/// Types that are interested in when the display is resized.
pub trait OnResize {
    fn on_resize(&mut self, size: &SizeInfo);
}

/// What a display holds, as values.
pub ghost struct DisplayView {
    pub size: SizeInfo,
    pub render_timer: bool,
    pub frame_times: Seq<u64>,
    pub cursor: int,
}

/// The sizes and per-frame decisions of a window that shows a terminal grid.
pub struct Display {
    size_info: SizeInfo,
    render_timer: bool,
    meter: Meter,
}

impl View for Display {
    type V = DisplayView;

    closed spec fn view(&self) -> DisplayView {
        DisplayView {
            size: self.size_info,
            render_timer: self.render_timer,
            frame_times: self.meter.samples(),
            cursor: self.meter.cursor(),
        }
    }
}

/// Cell width, in pixels, that the font metrics and the offset give.
pub open spec fn cell_width_of(metrics: FontMetrics, offset: Delta) -> u32 {
    cell_dimension_spec(metrics.average_advance, offset.x) as u32
}

/// Cell height, in pixels, that the font metrics and the offset give.
pub open spec fn cell_height_of(metrics: FontMetrics, offset: Delta) -> u32 {
    cell_dimension_spec(metrics.line_height, offset.y) as u32
}

/// The steps that a resize to `width` by `height` pixels takes, from size `size` on.
pub open spec fn resize_steps(size: SizeInfo, width: u32, height: u32) -> Seq<ResizeStep> {
    seq![
        ResizeStep::ResizeTerminal { width, height },
        ResizeStep::NotifyListeners(size.resized_spec(width, height)),
        ResizeStep::ResizeViewport { width, height },
    ]
}

/// The draw-API scopes of one frame.
pub open spec fn frame_scopes(render_timer: bool) -> Seq<ApiScope> {
    if render_timer {
        seq![ApiScope::Grid, ApiScope::RenderTimer]
    } else {
        seq![ApiScope::Grid]
    }
}

impl Display {
    /// The frame meter is consistent.
    pub closed spec fn wf(&self) -> bool {
        self.meter.wf()
    }

    /// A display for a grid of `columns` by `lines` cells, whose cell size comes from the
    /// rasterized font's metrics and the configured offset; the window takes the grid plus
    /// the border. `None` where a window dimension does not fit in `u32`.
    pub fn new(metrics: FontMetrics, offset: Delta, columns: u32, lines: u32, render_timer: bool) -> (r:
        Option<Display>)
        ensures
            r.is_some() <==> (window_dimension_spec(cell_width_of(metrics, offset), columns)
                <= u32::MAX && window_dimension_spec(cell_height_of(metrics, offset), lines)
                <= u32::MAX),
            r.is_some() ==> r.unwrap().wf(),
            r.is_some() ==> r.unwrap()@ == (DisplayView {
                size: SizeInfo::grid_spec(
                    cell_width_of(metrics, offset),
                    cell_height_of(metrics, offset),
                    columns,
                    lines,
                ),
                render_timer,
                frame_times: Seq::new(NUM_SAMPLES as nat, |i: int| 0u64),
                cursor: 0,
            }),
    {
        let cell_width = cell_dimension(metrics.average_advance, offset.x);
        let cell_height = cell_dimension(metrics.line_height, offset.y);
        match SizeInfo::for_grid(cell_width, cell_height, columns, lines) {
            Some(size_info) => Some(Display { size_info, render_timer, meter: Meter::new() }),
            None => None,
        }
    }

    /// Size of the window and of its cells.
    pub fn size(&self) -> (r: &SizeInfo)
        ensures
            *r == self@.size,
    {
        &self.size_info
    }

    /// Takes a changed setting of the render-timer overlay.
    pub fn update_config(&mut self, render_timer: bool)
        requires
            old(self).wf(),
        ensures
            final(self).wf(),
            final(self)@ == (DisplayView { render_timer, ..old(self)@ }),
    {
        self.render_timer = render_timer;
    }

    /// Coalesces the resize events received since the last call, oldest first: only the
    /// last one is applied. With none, nothing changes and no step is owed.
    pub fn handle_resize(&mut self, pending: &Vec<(u32, u32)>) -> (r: Vec<ResizeStep>)
        requires
            old(self).wf(),
        ensures
            final(self).wf(),
            pending@.len() == 0 ==> r@.len() == 0 && final(self)@ == old(self)@,
            pending@.len() > 0 ==> {
                let (width, height) = pending@.last();
                &&& r@ == resize_steps(old(self)@.size, width, height)
                &&& final(self)@ == (DisplayView {
                    size: old(self)@.size.resized_spec(width, height),
                    ..old(self)@
                })
            },
    {
        let mut steps: Vec<ResizeStep> = Vec::new();
        if pending.len() > 0 {
            let (width, height) = pending[pending.len() - 1];
            self.size_info = self.size_info.resized(width, height);
            steps.push(ResizeStep::ResizeTerminal { width, height });
            steps.push(ResizeStep::NotifyListeners(self.size_info));
            steps.push(ResizeStep::ResizeViewport { width, height });
        }
        steps
    }

    /// Starts a frame: the terminal's dirty flag is cleared, and the draw-API scopes to
    /// open are returned in order, the render-timer overlay after the grid where enabled.
    pub fn draw(&self, dirty: &mut bool) -> (r: Vec<ApiScope>)
        ensures
            *final(dirty) == false,
            r@ == frame_scopes(self@.render_timer),
    {
        *dirty = false;
        let mut scopes: Vec<ApiScope> = Vec::new();
        scopes.push(ApiScope::Grid);
        if self.render_timer {
            scopes.push(ApiScope::RenderTimer);
        }
        scopes
    }

    /// Records how long drawing the grid took, in nanoseconds.
    pub fn record_frame_time(&mut self, nanos: u64)
        requires
            old(self).wf(),
        ensures
            final(self).wf(),
            final(self)@ == (DisplayView {
                frame_times: old(self)@.frame_times.update(old(self)@.cursor, nanos),
                cursor: (old(self)@.cursor + 1) % NUM_SAMPLES as int,
                ..old(self)@
            }),
    {
        self.meter.add_sample(nanos);
    }

    /// Mean time of the recent frames in microseconds, as whole microseconds and thousandths.
    pub fn frame_time_usec(&self) -> (r: (u64, u64))
        requires
            self.wf(),
        ensures
            r.0 as int == average_of(self@.frame_times) / 1000,
            r.1 as int == average_of(self@.frame_times) % 1000,
    {
        let nanos = self.meter.average();
        (nanos / 1000, nanos % 1000)
    }
}

} // verus!
