//! Which movement keys are held, and the moves they call for.
use vstd::prelude::*;

verus! {

/// The keys the viewer reacts to.
#[derive(Clone, Copy, Debug, PartialEq, Eq, Structural)]
pub enum Key {
    W,
    A,
    S,
    D,
    Escape,
    Other,
}

/// A camera-local direction of movement.
#[derive(Clone, Copy, Debug, PartialEq, Eq, Structural)]
pub enum Direction {
    Forward,
    Left,
    Back,
    Right,
}

/// Unit vector of a direction in camera-local space.
pub open spec fn unit_of(d: Direction) -> (i8, i8, i8) {
    match d {
        Direction::Forward => (0, 0, 1),
        Direction::Left => (-1i8, 0, 0),
        Direction::Back => (0, 0, -1i8),
        Direction::Right => (1, 0, 0),
    }
}

impl Direction {
    /// Unit vector of this direction in camera-local space.
    pub fn unit(&self) -> (r: (i8, i8, i8))
        ensures
            r == unit_of(*self),
    {
        match self {
            Direction::Forward => (0, 0, 1),
            Direction::Left => (-1, 0, 0),
            Direction::Back => (0, 0, -1),
            Direction::Right => (1, 0, 0),
        }
    }
}

/// The movement keys currently held.
#[derive(Clone, Copy, Debug, PartialEq, Eq, Structural)]
pub struct MoveState {
    pub forwards: bool,
    pub backwards: bool,
    pub left: bool,
    pub right: bool,
}

/// `s` after `key` went down (`held`) or up (`!held`); other keys change nothing.
pub open spec fn with_key(s: MoveState, key: Key, held: bool) -> MoveState {
    match key {
        Key::W => MoveState { forwards: held, backwards: s.backwards, left: s.left, right: s.right },
        Key::A => MoveState { forwards: s.forwards, backwards: s.backwards, left: held, right: s.right },
        Key::S => MoveState { forwards: s.forwards, backwards: held, left: s.left, right: s.right },
        Key::D => MoveState { forwards: s.forwards, backwards: s.backwards, left: s.left, right: held },
        _ => s,
    }
}

/// The moves to make in one update: one per held key, in the order forward,
/// left, back, right.
pub open spec fn active_directions(s: MoveState) -> Seq<Direction> {
    (if s.forwards {
        seq![Direction::Forward]
    } else {
        Seq::empty()
    }) + (if s.left {
        seq![Direction::Left]
    } else {
        Seq::empty()
    }) + (if s.backwards {
        seq![Direction::Back]
    } else {
        Seq::empty()
    }) + (if s.right {
        seq![Direction::Right]
    } else {
        Seq::empty()
    })
}

impl MoveState {
    /// No key held.
    pub fn new() -> (s: MoveState)
        ensures
            !s.forwards && !s.backwards && !s.left && !s.right,
    {
        MoveState { forwards: false, backwards: false, left: false, right: false }
    }

    fn set(&mut self, key: Key, held: bool)
        ensures
            *final(self) == with_key(*old(self), key, held),
    {
        match key {
            Key::W => self.forwards = held,
            Key::A => self.left = held,
            Key::S => self.backwards = held,
            Key::D => self.right = held,
            _ => {},
        }
    }

    /// Records that `key` went down.
    pub fn keydown(&mut self, key: Key)
        ensures
            *final(self) == with_key(*old(self), key, true),
    {
        self.set(key, true);
    }

    /// Records that `key` went up.
    pub fn keyup(&mut self, key: Key)
        ensures
            *final(self) == with_key(*old(self), key, false),
    {
        self.set(key, false);
    }

    /// The moves the held keys call for, in the order forward, left, back, right.
    pub fn directions(&self) -> (r: Vec<Direction>)
        ensures
            r@ == active_directions(*self),
    {
        let mut r: Vec<Direction> = Vec::new();
        if self.forwards {
            r.push(Direction::Forward);
        }
        if self.left {
            r.push(Direction::Left);
        }
        if self.backwards {
            r.push(Direction::Back);
        }
        if self.right {
            r.push(Direction::Right);
        }
        assert(r@ =~= active_directions(*self));
        r
    }
}

} // verus!
