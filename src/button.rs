//! Push button debouncing: an edge schedules one confirmation check after a
//! settle delay, and only a line still asserted then counts as a press.
use vstd::prelude::*;

verus! {

/// Settle delay between an edge on the button line and its confirmation check.
pub const DEBOUNCE_MS: u32 = 75;

/// What happens at the button: an edge on its line, or the confirmation
/// check reading the line (`true` for asserted).
#[derive(Clone, Copy, Debug, PartialEq, Eq, Structural)]
pub enum ButtonEvent {
    Edge,
    Check(bool),
}

/// The button: its last confirmed level and whether a check is scheduled.
#[derive(Clone, Copy, Debug, PartialEq, Eq, Structural)]
pub struct Button {
    pub pressed: bool,
    pub check_pending: bool,
}

/// The button after an event, whether the event scheduled a check, and
/// whether it confirmed a press.
pub open spec fn button_step(b: Button, e: ButtonEvent) -> (Button, bool, bool) {
    match e {
        ButtonEvent::Edge => if b.check_pending {
            (b, false, false)
        } else {
            (Button { check_pending: true, ..b }, true, false)
        },
        ButtonEvent::Check(high) => (
            Button { pressed: high, check_pending: false },
            false,
            b.check_pending && high,
        ),
    }
}

/// The button after a sequence of events.
pub open spec fn button_after(b: Button, events: Seq<ButtonEvent>) -> Button
    decreases events.len(),
{
    if events.len() == 0 {
        b
    } else {
        button_step(button_after(b, events.drop_last()), events.last()).0
    }
}

/// Presses confirmed over a sequence of events.
pub open spec fn presses(b: Button, events: Seq<ButtonEvent>) -> nat
    decreases events.len(),
{
    if events.len() == 0 {
        0
    } else {
        presses(b, events.drop_last()) + if button_step(
            button_after(b, events.drop_last()),
            events.last(),
        ).2 {
            1nat
        } else {
            0nat
        }
    }
}

/// Edges in a sequence of events.
pub open spec fn edges(events: Seq<ButtonEvent>) -> nat
    decreases events.len(),
{
    if events.len() == 0 {
        0
    } else {
        edges(events.drop_last()) + if events.last() == ButtonEvent::Edge {
            1nat
        } else {
            0nat
        }
    }
}

impl Button {
    /// Released, with no check scheduled.
    pub fn new() -> (r: Self)
        ensures
            !r.pressed,
            !r.check_pending,
    {
        Button { pressed: false, check_pending: false }
    }

    /// The last confirmed level of the button.
    pub fn is_pressed(&self) -> (r: bool)
        ensures
            r == self.pressed,
    {
        self.pressed
    }

    /// An edge on the button line. Returns whether a confirmation check is to
    /// be scheduled after the settle delay; while one is scheduled, further
    /// edges are absorbed.
    pub fn on_edge(&mut self) -> (r: bool)
        ensures
            (*final(self), r, false) == button_step(*old(self), ButtonEvent::Edge),
    {
        if self.check_pending {
            false
        } else {
            self.check_pending = true;
            true
        }
    }

    /// The confirmation check, with the level read from the line now.
    /// Returns whether a press is confirmed: a check was scheduled and the
    /// line is still asserted.
    pub fn confirm(&mut self, line_high: bool) -> (r: bool)
        ensures
            (*final(self), false, r) == button_step(*old(self), ButtonEvent::Check(line_high)),
    {
        let confirmed = self.check_pending && line_high;
        self.check_pending = false;
        self.pressed = line_high;
        confirmed
    }
}

/// Each confirmed press comes from its own edge: over any sequence of events
/// there are no more presses than edges, plus one for a check that was
/// already scheduled at the start.
pub proof fn lemma_press_per_edge(b: Button, events: Seq<ButtonEvent>)
    ensures
        presses(b, events) + (if button_after(b, events).check_pending { 1nat } else { 0nat })
            <= edges(events) + (if b.check_pending { 1nat } else { 0nat }),
    decreases events.len(),
{
    if events.len() > 0 {
        lemma_press_per_edge(b, events.drop_last());
    }
}

/// A burst of edges from one physical press, followed by the settle-delay
/// check that finds the line still asserted, confirms exactly one press.
pub proof fn lemma_bounce_burst(b: Button, n: nat)
    requires
        !b.check_pending,
        n >= 1,
    ensures
        presses(b, Seq::new(n, |i: int| ButtonEvent::Edge).push(ButtonEvent::Check(true))) == 1,
        button_after(b, Seq::new(n, |i: int| ButtonEvent::Edge).push(ButtonEvent::Check(true)))
            == (Button { pressed: true, check_pending: false }),
{
    lemma_burst_schedules_one(b, n);
    let burst = Seq::new(n, |i: int| ButtonEvent::Edge);
    let all = burst.push(ButtonEvent::Check(true));
    assert(all.drop_last() =~= burst);
}

/// After a burst of `n >= 1` edges from an idle button, one check is
/// scheduled and nothing is confirmed yet.
proof fn lemma_burst_schedules_one(b: Button, n: nat)
    requires
        !b.check_pending,
    ensures
        presses(b, Seq::new(n, |i: int| ButtonEvent::Edge)) == 0,
        button_after(b, Seq::new(n, |i: int| ButtonEvent::Edge)) == (if n == 0 {
            b
        } else {
            Button { check_pending: true, ..b }
        }),
    decreases n,
{
    if n > 0 {
        lemma_burst_schedules_one(b, (n - 1) as nat);
        assert(Seq::new(n, |i: int| ButtonEvent::Edge).drop_last() =~= Seq::new(
            (n - 1) as nat,
            |i: int| ButtonEvent::Edge,
        ));
    }
}

} // verus!
