use vstd::prelude::*;

verus! {

/// Keys the application reacts to.
#[derive(Clone, Copy, Debug, PartialEq, Eq, Structural)]
pub enum Key {
    Escape,
    D,
    G,
    W,
    P,
    Other,
}

/// Mouse buttons the application reacts to.
#[derive(Clone, Copy, Debug, PartialEq, Eq, Structural)]
pub enum Button {
    Left,
    Right,
    Other,
}

/// An input event, in window coordinates.
#[derive(Clone, Copy, Debug, PartialEq, Eq, Structural)]
pub enum InputEvent {
    Quit,
    KeyDown(Key),
    MouseDown { button: Button, x: i32, y: i32 },
    Other,
}

/// The kind of body that a click places.
#[derive(Clone, Copy, Debug, PartialEq, Eq, Structural)]
pub enum BodyKind {
    BasketBall,
    BowlingBall,
    Polygon,
    Crate,
}

/// A body to add to the world at a window position.
#[derive(Clone, Copy, Debug, PartialEq, Eq, Structural)]
pub struct Placement {
    pub kind: BodyKind,
    pub x: i32,
    pub y: i32,
}

/// The switches of the interactive simulation.
#[derive(Clone, Copy, Debug, PartialEq, Eq, Structural)]
pub struct Controls {
    /// The main loop goes on.
    pub running: bool,
    /// Shapes are drawn as outlines, colliding ones highlighted.
    pub debug: bool,
    /// Bodies are pulled down by their weight.
    pub gravity: bool,
    /// A constant sideways force acts on every body.
    pub wind: bool,
    /// A right click places a polygon instead of a crate.
    pub polygon: bool,
}

/// The switches after `event`.
pub open spec fn next_controls(c: Controls, event: InputEvent) -> Controls {
    match event {
        InputEvent::Quit => Controls { running: false, ..c },
        InputEvent::KeyDown(Key::Escape) => Controls { running: false, ..c },
        InputEvent::KeyDown(Key::D) => Controls { debug: !c.debug, ..c },
        InputEvent::KeyDown(Key::G) => Controls { gravity: !c.gravity, ..c },
        InputEvent::KeyDown(Key::W) => Controls { wind: !c.wind, ..c },
        InputEvent::KeyDown(Key::P) => Controls { polygon: !c.polygon, ..c },
        _ => c,
    }
}

/// The body that `event` places: a left click a basketball or, when the coin
/// came up tails, a bowling ball; a right click a polygon or a crate, as the
/// polygon switch says.
pub open spec fn placement(c: Controls, event: InputEvent, heads: bool) -> Option<Placement> {
    match event {
        InputEvent::MouseDown { button: Button::Left, x, y } => Some(
            Placement {
                kind: if heads {
                    BodyKind::BasketBall
                } else {
                    BodyKind::BowlingBall
                },
                x,
                y,
            },
        ),
        InputEvent::MouseDown { button: Button::Right, x, y } => Some(
            Placement {
                kind: if c.polygon {
                    BodyKind::Polygon
                } else {
                    BodyKind::Crate
                },
                x,
                y,
            },
        ),
        _ => None,
    }
}

impl Controls {
    /// Running, with gravity on and every other switch off.
    pub fn new() -> (r: Controls)
        ensures
            r == (Controls { running: true, debug: false, gravity: true, wind: false, polygon: false }),
    {
        Controls { running: true, debug: false, gravity: true, wind: false, polygon: false }
    }

    /// Applies one input event; `heads` is a fair coin that picks the ball a
    /// left click places. Returns the body to place, if any.
    pub fn handle(&mut self, event: InputEvent, heads: bool) -> (r: Option<Placement>)
        ensures
            *final(self) == next_controls(*old(self), event),
            r == placement(*old(self), event, heads),
    {
        match event {
            InputEvent::Quit | InputEvent::KeyDown(Key::Escape) => {
                self.running = false;
                None
            },
            InputEvent::KeyDown(Key::D) => {
                self.debug = !self.debug;
                None
            },
            InputEvent::KeyDown(Key::G) => {
                self.gravity = !self.gravity;
                None
            },
            InputEvent::KeyDown(Key::W) => {
                self.wind = !self.wind;
                None
            },
            InputEvent::KeyDown(Key::P) => {
                self.polygon = !self.polygon;
                None
            },
            InputEvent::MouseDown { button: Button::Left, x, y } => {
                let kind = if heads {
                    BodyKind::BasketBall
                } else {
                    BodyKind::BowlingBall
                };
                Some(Placement { kind, x, y })
            },
            InputEvent::MouseDown { button: Button::Right, x, y } => {
                let kind = if self.polygon {
                    BodyKind::Polygon
                } else {
                    BodyKind::Crate
                };
                Some(Placement { kind, x, y })
            },
            _ => None,
        }
    }
}

} // verus!
