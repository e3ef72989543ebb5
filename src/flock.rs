use vstd::prelude::*;

verus! {

/// What the running state asks of its host after an event.
#[derive(Clone, Copy, Debug, PartialEq, Eq, Structural)]
pub enum Transition {
    /// Keep running.
    Stay,
    /// Stop the application.
    Quit,
}

/// An event as the state sees it. A window event carries the two facts about
/// it that the state reads; every other kind of event is `Other`.
#[derive(Clone, Copy, Debug, PartialEq, Eq, Structural)]
pub enum FlockEvent {
    Window { close_requested: bool, escape_down: bool },
    Other,
}

/// Where one boid starts: boid `index` of `count` stands at the fraction
/// `index / count` of the arena's diagonal, measured from its origin, and is
/// turned by the same fraction of a full turn.
#[derive(Clone, Copy, Debug, PartialEq, Eq, Structural)]
pub struct Placement {
    pub index: u32,
    pub count: u32,
}

/// The transition owed to a window event, from the two facts about it that
/// matter: the window asked to close, or the Escape key went down.
pub open spec fn quit_rule(close_requested: bool, escape_down: bool) -> Transition {
    if close_requested || escape_down {
        Transition::Quit
    } else {
        Transition::Stay
    }
}

/// The transition owed to any event: only a window event can end the demo.
pub open spec fn event_rule(event: FlockEvent) -> Transition {
    match event {
        FlockEvent::Window { close_requested, escape_down } => quit_rule(close_requested, escape_down),
        FlockEvent::Other => Transition::Stay,
    }
}

/// The layout of a flock of `count` boids: boid `i` at the fraction `i / count`.
pub open spec fn layout(count: u32) -> Seq<Placement> {
    Seq::new(count as nat, |i: int| Placement { index: i as u32, count })
}

/// Decides the transition for a window event: quit when the window asked to
/// close or Escape was pressed, otherwise stay.
pub fn quit_decision(close_requested: bool, escape_down: bool) -> (r: Transition)
    ensures
        r == quit_rule(close_requested, escape_down),
{
    if close_requested || escape_down {
        Transition::Quit
    } else {
        Transition::Stay
    }
}

/// The demo's game state.
#[derive(Clone, Copy, Debug, Default)]
pub struct Flock {}

impl Flock {
    /// Answers an event: a window event is decided by `quit_decision`, any
    /// other event leaves the state running.
    pub fn handle_event(&mut self, event: FlockEvent) -> (r: Transition)
        ensures
            r == event_rule(event),
            *final(self) == *old(self),
    {
        match event {
            FlockEvent::Window { close_requested, escape_down } => quit_decision(
                close_requested,
                escape_down,
            ),
            FlockEvent::Other => Transition::Stay,
        }
    }

    /// The placements of a flock of `boid_count` boids, in spawn order:
    /// boid `i` at `i / boid_count` along the diagonal and of a full turn.
    pub fn spawn_plan(&self, boid_count: u32) -> (r: Vec<Placement>)
        ensures
            r@ == layout(boid_count),
    {
        let mut plan: Vec<Placement> = Vec::new();
        let mut i: u32 = 0;
        while i < boid_count
            invariant
                i <= boid_count,
                plan@.len() == i,
                forall|j: int| 0 <= j < i ==> plan@[j] == (Placement { index: j as u32, count: boid_count }),
            decreases boid_count - i,
        {
            plan.push(Placement { index: i, count: boid_count });
            i = i + 1;
        }
        assert(plan@ =~= layout(boid_count));
        plan
    }
}

} // verus!
