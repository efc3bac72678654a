use vstd::prelude::*;

verus! {

/// Frame counting and the average time a mesh takes to draw.
pub struct RenderDebug {
    current_counter: u32,
    avg_mesh_render_time_nanos: u128,
    first_mesh_time: bool,
}

impl RenderDebug {
    /// Frames counted in the current second.
    pub closed spec fn counter(self) -> u32 {
        self.current_counter
    }

    /// The running average of the mesh draw times, in nanoseconds.
    pub closed spec fn average(self) -> u128 {
        self.avg_mesh_render_time_nanos
    }

    /// True until the first draw time is recorded.
    pub closed spec fn waiting_for_first(self) -> bool {
        self.first_mesh_time
    }

    /// The average never exceeds the largest recorded time, so it fits in a `u64`.
    pub closed spec fn wf(self) -> bool {
        self.avg_mesh_render_time_nanos <= u64::MAX
    }

    pub fn new() -> (d: Self)
        ensures
            d.wf(),
            d.counter() == 0,
            d.average() == 0,
            d.waiting_for_first(),
    {
        RenderDebug { current_counter: 0, avg_mesh_render_time_nanos: 0, first_mesh_time: true }
    }

    /// Counts a frame. When a second has passed since the count started, returns the
    /// frames of that second and starts a new count with this frame.
    pub fn update(&mut self, second_passed: bool) -> (fps: Option<u32>)
        requires
            second_passed || old(self).counter() < u32::MAX,
        ensures
            final(self).wf() == old(self).wf(),
            final(self).average() == old(self).average(),
            final(self).waiting_for_first() == old(self).waiting_for_first(),
            if second_passed {
                fps == Some(old(self).counter()) && final(self).counter() == 1
            } else {
                fps is None && final(self).counter() == old(self).counter() + 1
            },
    {
        if second_passed {
            let fps = self.current_counter;
            self.current_counter = 1;
            Some(fps)
        } else {
            self.current_counter = self.current_counter + 1;
            None
        }
    }

    /// Records the draw time of a mesh: the first time becomes the average, later
    /// ones are averaged with it (`(average + time) / 2`, rounded down).
    pub fn update_avr_mesh(&mut self, dur_nanos: u64)
        requires
            old(self).wf(),
        ensures
            final(self).wf(),
            !final(self).waiting_for_first(),
            final(self).counter() == old(self).counter(),
            final(self).average() == if old(self).waiting_for_first() {
                dur_nanos as int
            } else {
                (old(self).average() + dur_nanos) / 2
            },
    {
        if self.first_mesh_time {
            self.avg_mesh_render_time_nanos = dur_nanos as u128;
            self.first_mesh_time = false;
            return;
        }
        self.avg_mesh_render_time_nanos = (self.avg_mesh_render_time_nanos + dur_nanos as u128) / 2;
    }

    /// The average mesh draw time in nanoseconds.
    pub fn average_mesh_time(&self) -> (t: u128)
        ensures
            t == self.average(),
    {
        self.avg_mesh_render_time_nanos
    }

    /// Frames counted in the current second.
    pub fn current_count(&self) -> (c: u32)
        ensures
            c == self.counter(),
    {
        self.current_counter
    }
}

} // verus!
