use vstd::prelude::*;

use crate::event::{cursor_position, translate, window_event, Event, Logical, PhysicalSize, PlatformEvent};
use crate::modifiers::PlatformModifiers;

verus! {

/// The window's size in device pixels together with its scale factor, the
/// number of device pixels per logical pixel.
#[derive(Clone, Copy, Debug, PartialEq)]
pub struct Viewport<S> {
    pub physical_size: PhysicalSize,
    pub scale_factor: S,
}

impl<S: Copy> Viewport<S> {
    pub fn with_physical_size(size: PhysicalSize, scale_factor: S) -> (r: Viewport<S>)
        ensures
            r == (Viewport { physical_size: size, scale_factor }),
    {
        Viewport { physical_size: size, scale_factor }
    }

    /// The size in logical units: the physical size divided by the scale factor.
    pub fn logical_size(&self) -> (r: Logical<PhysicalSize, S>)
        ensures
            r == (Logical { physical: self.physical_size, scale: self.scale_factor }),
    {
        Logical { physical: self.physical_size, scale: self.scale_factor }
    }
}

/// What the event loop should do after an event.
#[derive(Clone, Copy, Debug, PartialEq, Eq, Structural)]
pub enum Control {
    /// Sleep until the next event arrives.
    Wait,
    /// Leave the loop: the window was asked to close.
    Exit,
}

/// The state of the frame loop as a mathematical value.
pub struct LoopView<F, P, S> {
    pub cursor_position: F,
    pub modifiers: PlatformModifiers,
    pub viewport: Viewport<S>,
    pub resized: bool,
    pub queue: Seq<Event<F, P, S>>,
}

/// The translated event, if there is one, as a sequence of zero or one events.
pub open spec fn as_seq<T>(o: Option<T>) -> Seq<T> {
    match o {
        Some(x) => seq![x],
        None => Seq::empty(),
    }
}

/// The modifiers held after `evs`, starting from `m`: those of the last
/// modifier change among them, or `m` where there is none.
pub open spec fn modifiers_after<F, P>(m: PlatformModifiers, evs: Seq<PlatformEvent<F, P>>) -> PlatformModifiers
    decreases evs.len(),
{
    if evs.len() == 0 {
        m
    } else {
        match evs.last() {
            PlatformEvent::ModifiersChanged(n) => n,
            _ => modifiers_after(m, evs.drop_last()),
        }
    }
}

/// The application events that `evs` give, in the order of arrival, when the
/// modifiers start as `m` and the scale factor is `scale`: each event is
/// translated with the modifiers held once it has arrived.
pub open spec fn translations<F, P, S>(m: PlatformModifiers, evs: Seq<PlatformEvent<F, P>>, scale: S) -> Seq<Event<F, P, S>>
    decreases evs.len(),
{
    if evs.len() == 0 {
        Seq::empty()
    } else {
        translations(m, evs.drop_last(), scale) + as_seq(
            translate(evs.last(), scale, modifiers_after(m, evs)),
        )
    }
}

/// The window's new size in device pixels, where `e` changes it: a resize,
/// or a change of scale factor that comes with a new inner size.
pub open spec fn new_size<F, P>(e: PlatformEvent<F, P>) -> Option<PhysicalSize> {
    match e {
        PlatformEvent::Resized(size) => Some(size),
        PlatformEvent::ScaleFactorChanged { new_inner_size } => Some(new_inner_size),
        _ => None,
    }
}

/// Whether one of `evs` changes the window's size.
pub open spec fn has_resize<F, P>(evs: Seq<PlatformEvent<F, P>>) -> bool {
    exists|i: int| 0 <= i < evs.len() && (#[trigger] new_size(evs[i])) is Some
}

impl<F, P, S> LoopView<F, P, S> {
    /// The state after one platform event: the tracked cursor, modifiers and
    /// viewport follow the event (the viewport is replaced by the new size at
    /// the current scale), a change of size marks the buffer for reallocation,
    /// and the event's translation, if any, joins the end of the queue.
    pub open spec fn step(self, e: PlatformEvent<F, P>, scale: S) -> LoopView<F, P, S> {
        let cursor_position = match e {
            PlatformEvent::CursorMoved(p) => p,
            _ => self.cursor_position,
        };
        let modifiers = match e {
            PlatformEvent::ModifiersChanged(n) => n,
            _ => self.modifiers,
        };
        let viewport = match new_size(e) {
            Some(size) => Viewport { physical_size: size, scale_factor: scale },
            None => self.viewport,
        };
        LoopView {
            cursor_position,
            modifiers,
            viewport,
            resized: self.resized || new_size(e) is Some,
            queue: self.queue + as_seq(translate(e, scale, modifiers)),
        }
    }

    /// The state after the events `evs`, taken in order.
    pub open spec fn feed(self, evs: Seq<PlatformEvent<F, P>>, scale: S) -> LoopView<F, P, S>
        decreases evs.len(),
    {
        if evs.len() == 0 {
            self
        } else {
            self.feed(evs.drop_last(), scale).step(evs.last(), scale)
        }
    }

    /// The state once the queue has been handed to the application.
    pub open spec fn drained(self) -> LoopView<F, P, S> {
        LoopView { queue: Seq::empty(), ..self }
    }

    /// The buffer size to reallocate to at a redraw: the current size where a
    /// resize is pending, nothing otherwise.
    pub open spec fn reallocation(self) -> Option<PhysicalSize> {
        if self.resized {
            Some(self.viewport.physical_size)
        } else {
            None
        }
    }

    /// The state after a redraw: no resize is pending any more.
    pub open spec fn redrawn(self) -> LoopView<F, P, S> {
        LoopView { resized: false, ..self }
    }
}

/// The state that the frame loop keeps between platform events: the last
/// known cursor position (in device pixels) and modifiers, the viewport,
/// whether the backing buffer must be reallocated, and the translated events
/// that wait for the application.
pub struct FrameLoop<F, P, S> {
    pub cursor_position: F,
    pub modifiers: PlatformModifiers,
    pub viewport: Viewport<S>,
    pub resized: bool,
    pub queue: Vec<Event<F, P, S>>,
}

impl<F, P, S> View for FrameLoop<F, P, S> {
    type V = LoopView<F, P, S>;

    open spec fn view(&self) -> LoopView<F, P, S> {
        LoopView {
            cursor_position: self.cursor_position,
            modifiers: self.modifiers,
            viewport: self.viewport,
            resized: self.resized,
            queue: self.queue@,
        }
    }
}

impl<F: Copy, P, S: Copy> FrameLoop<F, P, S> {
    /// A loop for a window of `viewport`, with the cursor at `cursor_position`,
    /// no modifier held, no event waiting and the buffer matching the window.
    pub fn new(viewport: Viewport<S>, cursor_position: F) -> (r: FrameLoop<F, P, S>)
        ensures
            r@ == (LoopView::<F, P, S> {
                cursor_position,
                modifiers: PlatformModifiers { bits: 0 },
                viewport,
                resized: false,
                queue: Seq::empty(),
            }),
    {
        FrameLoop {
            cursor_position,
            modifiers: PlatformModifiers::empty(),
            viewport,
            resized: false,
            queue: Vec::new(),
        }
    }

    /// Takes in one platform event: updates the tracked state, then queues
    /// the event's translation. A close request asks the loop to exit.
    pub fn handle_window_event(&mut self, event: PlatformEvent<F, P>, scale_factor: S) -> (r:
        Control)
        ensures
            final(self)@ == old(self)@.step(event, scale_factor),
            r == (if event is CloseRequested {
                Control::Exit
            } else {
                Control::Wait
            }),
    {
        let mut control = Control::Wait;
        match &event {
            PlatformEvent::CursorMoved(position) => {
                self.cursor_position = *position;
            },
            PlatformEvent::ModifiersChanged(new_modifiers) => {
                self.modifiers = *new_modifiers;
            },
            PlatformEvent::Resized(size) | PlatformEvent::ScaleFactorChanged {
                new_inner_size: size,
            } => {
                self.viewport = Viewport::with_physical_size(*size, scale_factor);
                self.resized = true;
            },
            PlatformEvent::CloseRequested => {
                control = Control::Exit;
            },
            _ => {},
        }
        let ghost queued = self.queue@;
        let translated = window_event(event, scale_factor, self.modifiers);
        if let Some(t) = translated {
            self.queue.push(t);
            assert(self.queue@ =~= queued + as_seq(translated));
        } else {
            assert(self.queue@ =~= queued + as_seq(translated));
        }
        control
    }

    /// Whether no translated event waits for the application.
    pub fn is_queue_empty(&self) -> (r: bool)
        ensures
            r == (self@.queue.len() == 0),
    {
        self.queue.len() == 0
    }

    /// Ends a batch of platform events. Where events wait, all of them are
    /// handed out at once, in the order they arrived, for one update of the
    /// application followed by a redraw; where none waits there is nothing to
    /// update or redraw.
    pub fn events_cleared(&mut self) -> (r: Option<Vec<Event<F, P, S>>>)
        ensures
            old(self)@.queue.len() == 0 ==> r is None && final(self)@ == old(self)@,
            old(self)@.queue.len() > 0 ==> r is Some && r->0@ == old(self)@.queue && final(self)@
                == old(self)@.drained(),
    {
        if self.queue.len() == 0 {
            None
        } else {
            let mut batch = Vec::new();
            std::mem::swap(&mut batch, &mut self.queue);
            Some(batch)
        }
    }

    /// Starts a redraw: where a resize is pending, returns the size to
    /// reallocate the backing buffer to and clears the mark. This is the one
    /// place where the buffer changes size.
    pub fn redraw(&mut self) -> (r: Option<PhysicalSize>)
        ensures
            r == old(self)@.reallocation(),
            final(self)@ == old(self)@.redrawn(),
    {
        if self.resized {
            self.resized = false;
            Some(self.viewport.physical_size)
        } else {
            None
        }
    }

    /// The cursor position in logical units, as the application is given it.
    pub fn logical_cursor_position(&self) -> (r: Logical<F, S>)
        ensures
            r == (Logical { physical: self.cursor_position, scale: self.viewport.scale_factor }),
    {
        cursor_position(self.cursor_position, self.viewport.scale_factor)
    }
}

/// Feeding events one by one tracks the modifiers of the last change, marks a
/// pending resize exactly when there was one, and appends the events'
/// translations to the queue.
proof fn lemma_feed<F, P, S>(v: LoopView<F, P, S>, evs: Seq<PlatformEvent<F, P>>, scale: S)
    ensures
        v.feed(evs, scale).queue == v.queue + translations(v.modifiers, evs, scale),
        v.feed(evs, scale).modifiers == modifiers_after(v.modifiers, evs),
        v.feed(evs, scale).resized == (v.resized || has_resize(evs)),
        translations(v.modifiers, evs, scale).len() <= evs.len(),
    decreases evs.len(),
{
    if evs.len() > 0 {
        let init = evs.drop_last();
        lemma_feed(v, init, scale);
        let w = v.feed(init, scale);
        assert(modifiers_after(v.modifiers, evs) == w.step(evs.last(), scale).modifiers);
        assert(v.feed(evs, scale).queue =~= v.queue + translations(v.modifiers, evs, scale));
        if has_resize(evs) && new_size(evs.last()) is None {
            let i = choose|i: int| 0 <= i < evs.len() && (#[trigger] new_size(evs[i])) is Some;
            assert(init[i] == evs[i]);
        }
        if has_resize(init) {
            let i = choose|i: int| 0 <= i < init.len() && (#[trigger] new_size(init[i])) is Some;
            assert(init[i] == evs[i]);
        }
        if new_size(evs.last()) is Some {
            assert(evs[evs.len() - 1] == evs.last());
        }
    }
}

/// The events of one batch reach the application in one piece: starting from
/// an empty queue, the queue holds exactly the translations of the batch's
/// events, in the order of arrival and no more of them than there were
/// events, and handing it out leaves nothing for a second update.
pub proof fn lemma_batch_in_arrival_order<F, P, S>(
    v: LoopView<F, P, S>,
    evs: Seq<PlatformEvent<F, P>>,
    scale: S,
)
    requires
        v.queue.len() == 0,
    ensures
        v.feed(evs, scale).queue == translations(v.modifiers, evs, scale),
        translations(v.modifiers, evs, scale).len() <= evs.len(),
        v.feed(evs, scale).drained().queue.len() == 0,
{
    lemma_feed(v, evs, scale);
    assert(v.queue + translations(v.modifiers, evs, scale) =~= translations(v.modifiers, evs, scale));
}

/// However many resizes come before a redraw, that redraw reallocates the
/// backing buffer once, to the current size, and the next redraw does not
/// reallocate it again; without a change of size nothing is reallocated.
pub proof fn lemma_single_reallocation<F, P, S>(
    v: LoopView<F, P, S>,
    evs: Seq<PlatformEvent<F, P>>,
    scale: S,
)
    ensures
        v.feed(evs, scale).reallocation() == (if v.resized || has_resize(evs) {
            Some(v.feed(evs, scale).viewport.physical_size)
        } else {
            None::<PhysicalSize>
        }),
        v.feed(evs, scale).redrawn().reallocation() is None,
{
    lemma_feed(v, evs, scale);
}

} // verus!
