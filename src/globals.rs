use vstd::prelude::*;

use crate::registry::GlobalKind;

verus! {

/// The wire code of the 32-bit XRGB pixel format in the shared-memory
/// protocol.
pub open spec fn xrgb8888_code() -> u32 {
    1
}

/// Relies on wayland_headers::wayland_client_protocol::WL_SHM_FORMAT_XRGB8888,
/// the protocol's code for the 32-bit XRGB format, which that crate sets to 1.
#[verifier::external_body]
fn shm_format_xrgb8888() -> (r: u32)
    ensures
        r == xrgb8888_code(),
{
    wayland_headers::wayland_client_protocol::WL_SHM_FORMAT_XRGB8888
}

/// The scale factor an output has until the server announces one.
pub const DEFAULT_OUTPUT_SCALE: i32 = 1;

/// What the client has learnt from the registry and the globals' events.
///
/// The handles themselves belong to the code that talks to the display; this
/// record holds what the client's decisions read.
pub struct Globals {
    pub compositor_bound: bool,
    pub shm_bound: bool,
    pub wm_base_bound: bool,
    pub seat_count: usize,
    /// The scale factor of each bound output, in the order they were bound.
    pub output_scales: Vec<i32>,
    /// Whether the shared-memory global advertised the XRGB8888 format.
    pub has_xrgb8888: bool,
}

/// The flag after the shared-memory global announces `format`.
pub open spec fn shm_format_step(seen: bool, format: u32) -> bool {
    seen || format == xrgb8888_code()
}

/// The flag after the shared-memory global announces `formats` in turn.
pub open spec fn shm_formats_seen(seen: bool, formats: Seq<u32>) -> bool
    decreases formats.len(),
{
    if formats.len() == 0 {
        seen
    } else {
        shm_format_step(shm_formats_seen(seen, formats.drop_last()), formats.last())
    }
}

/// Announcing formats to a fresh client sets the XRGB8888 flag exactly when
/// one of them is XRGB8888.
pub proof fn lemma_xrgb_flag_iff_advertised(formats: Seq<u32>)
    ensures
        shm_formats_seen(false, formats) == formats.contains(xrgb8888_code()),
    decreases formats.len(),
{
    if formats.len() > 0 {
        let init = formats.drop_last();
        lemma_xrgb_flag_iff_advertised(init);
        if init.contains(xrgb8888_code()) {
            let j = choose|j: int| 0 <= j < init.len() && init[j] == xrgb8888_code();
            assert(formats[j] == xrgb8888_code());
        }
        if formats.contains(xrgb8888_code()) {
            let j = choose|j: int| 0 <= j < formats.len() && formats[j] == xrgb8888_code();
            if j < formats.len() - 1 {
                assert(init[j] == xrgb8888_code());
            }
        }
    }
}

/// The larger of two scale factors.
pub open spec fn max_scale(a: int, b: int) -> int {
    if a >= b {
        a
    } else {
        b
    }
}

/// The window's scale factor: the largest of its own starting factor and the
/// factors of `scales`.
pub open spec fn window_scale(start: int, scales: Seq<i32>) -> int
    decreases scales.len(),
{
    if scales.len() == 0 {
        start
    } else {
        max_scale(window_scale(start, scales.drop_last()), scales.last() as int)
    }
}

/// The window scale is an upper bound of the starting factor and of every
/// output's factor, and it is one of them.
pub proof fn lemma_window_scale_is_max(start: int, scales: Seq<i32>)
    ensures
        window_scale(start, scales) >= start,
        forall|i: int| 0 <= i < scales.len() ==> window_scale(start, scales) >= scales[i],
        window_scale(start, scales) == start || exists|i: int|
            0 <= i < scales.len() && window_scale(start, scales) == scales[i],
    decreases scales.len(),
{
    if scales.len() > 0 {
        let init = scales.drop_last();
        lemma_window_scale_is_max(start, init);
        assert forall|i: int| 0 <= i < scales.len() implies window_scale(start, scales)
            >= scales[i] by {
            if i < scales.len() - 1 {
                assert(init[i] == scales[i]);
            }
        }
        if window_scale(start, scales) != start {
            if window_scale(start, scales) == scales.last() {
                assert(scales[scales.len() - 1] == scales.last());
            } else {
                let j = choose|j: int|
                    0 <= j < init.len() && window_scale(start, init) == init[j];
                assert(scales[j] == init[j]);
            }
        }
    }
}

/// Whether the dispatch loop goes on after the decoration library's dispatch
/// call returned `status`: a negative status ends it.
pub fn dispatch_continues(status: i32) -> (r: bool)
    ensures
        r == (status >= 0),
{
    status >= 0
}

impl Globals {
    /// A client that has bound nothing yet.
    pub fn new() -> (r: Globals)
        ensures
            !r.compositor_bound,
            !r.shm_bound,
            !r.wm_base_bound,
            r.seat_count == 0,
            r.output_scales@ == Seq::<i32>::empty(),
            !r.has_xrgb8888,
    {
        Globals {
            compositor_bound: false,
            shm_bound: false,
            wm_base_bound: false,
            seat_count: 0,
            output_scales: Vec::new(),
            has_xrgb8888: false,
        }
    }

    /// Records that a global of `kind` was bound. Returns the new record's
    /// index among those of its kind: a seat or an output is added to the
    /// others, the other globals have a single slot, 0.
    pub fn record_binding(&mut self, kind: GlobalKind) -> (index: usize)
        requires
            kind == GlobalKind::Seat ==> old(self).seat_count < usize::MAX,
        ensures
            final(self).compositor_bound == (old(self).compositor_bound || kind
                == GlobalKind::Compositor),
            final(self).shm_bound == (old(self).shm_bound || kind == GlobalKind::Shm),
            final(self).wm_base_bound == (old(self).wm_base_bound || kind == GlobalKind::WmBase),
            final(self).seat_count == old(self).seat_count + if kind == GlobalKind::Seat {
                1int
            } else {
                0int
            },
            final(self).output_scales@ == if kind == GlobalKind::Output {
                old(self).output_scales@.push(DEFAULT_OUTPUT_SCALE)
            } else {
                old(self).output_scales@
            },
            final(self).has_xrgb8888 == old(self).has_xrgb8888,
            index == match kind {
                GlobalKind::Seat => old(self).seat_count as int,
                GlobalKind::Output => old(self).output_scales@.len() as int,
                _ => 0int,
            },
    {
        match kind {
            GlobalKind::Compositor => {
                self.compositor_bound = true;
                0
            },
            GlobalKind::Shm => {
                self.shm_bound = true;
                0
            },
            GlobalKind::WmBase => {
                self.wm_base_bound = true;
                0
            },
            GlobalKind::Seat => {
                let index = self.seat_count;
                self.seat_count = index + 1;
                index
            },
            GlobalKind::Output => {
                let index = self.output_scales.len();
                self.output_scales.push(DEFAULT_OUTPUT_SCALE);
                index
            },
        }
    }

    /// The registry withdrew the global `global_id`. The client keeps what it
    /// bound, so nothing changes.
    pub fn on_registry_global_remove(&mut self, global_id: u32)
        ensures
            *final(self) == *old(self),
    {
    }

    /// The shared-memory global announced support for `format`.
    pub fn on_shm_format(&mut self, format: u32)
        ensures
            final(self).has_xrgb8888 == shm_format_step(old(self).has_xrgb8888, format),
            final(self).compositor_bound == old(self).compositor_bound,
            final(self).shm_bound == old(self).shm_bound,
            final(self).wm_base_bound == old(self).wm_base_bound,
            final(self).seat_count == old(self).seat_count,
            final(self).output_scales@ == old(self).output_scales@,
    {
        if format == shm_format_xrgb8888() {
            self.has_xrgb8888 = true;
        }
    }

    /// The output at `index` announced its scale factor.
    pub fn on_output_scale(&mut self, index: usize, factor: i32)
        requires
            index < old(self).output_scales@.len(),
        ensures
            final(self).output_scales@ == old(self).output_scales@.update(index as int, factor),
            final(self).compositor_bound == old(self).compositor_bound,
            final(self).shm_bound == old(self).shm_bound,
            final(self).wm_base_bound == old(self).wm_base_bound,
            final(self).seat_count == old(self).seat_count,
            final(self).has_xrgb8888 == old(self).has_xrgb8888,
    {
        self.output_scales.set(index, factor);
    }

    /// The scale factor for a window that starts at `start`: the largest of
    /// `start` and the factors of all known outputs, since the window may
    /// span any of them.
    pub fn window_scale_factor(&self, start: i32) -> (r: i32)
        ensures
            r == window_scale(start as int, self.output_scales@),
            r >= start,
            forall|i: int| 0 <= i < self.output_scales@.len() ==> r >= self.output_scales@[i],
            r == start || exists|i: int|
                0 <= i < self.output_scales@.len() && r == self.output_scales@[i],
    {
        let mut scale = start;
        let mut i: usize = 0;
        while i < self.output_scales.len()
            invariant
                0 <= i <= self.output_scales@.len(),
                scale == window_scale(start as int, self.output_scales@.take(i as int)),
            decreases self.output_scales@.len() - i,
        {
            let factor = self.output_scales[i];
            assert(self.output_scales@.take(i + 1).drop_last() =~= self.output_scales@.take(
                i as int,
            ));
            if factor > scale {
                scale = factor;
            }
            i = i + 1;
        }
        assert(self.output_scales@.take(i as int) =~= self.output_scales@);
        proof {
            lemma_window_scale_is_max(start as int, self.output_scales@);
        }
        scale
    }
}

} // verus!
