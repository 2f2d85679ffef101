use vstd::prelude::*;

verus! {

/// Whether a key went down or up.
#[derive(Clone, Copy, Debug, PartialEq, Eq, Structural)]
pub enum ElementState {
    Pressed,
    Released,
}

/// The logical meaning of a key, as far as the camera cares about it.
#[derive(Clone, Copy, Debug, PartialEq, Eq, Structural)]
pub enum LogicalKey {
    Space,
    Other,
}

/// The physical key, as far as the camera cares about it.
#[derive(Clone, Copy, Debug, PartialEq, Eq, Structural)]
pub enum KeyCode {
    ShiftLeft,
    KeyW,
    ArrowUp,
    KeyA,
    ArrowLeft,
    KeyS,
    ArrowDown,
    KeyD,
    ArrowRight,
    Other,
}

/// A keyboard event: the key's state, its logical meaning and its physical key.
#[derive(Clone, Copy, Debug, PartialEq, Eq, Structural)]
pub struct KeyInput {
    pub state: ElementState,
    pub logical_key: LogicalKey,
    pub physical_key: KeyCode,
}

/// A direction in which the camera can be asked to move.
#[derive(Clone, Copy, Debug, PartialEq, Eq, Structural)]
pub enum Direction {
    Forward,
    Backward,
    Left,
    Right,
    Up,
    Down,
}

/// One movement that a camera update performs, in the order given.
#[derive(Clone, Copy, Debug, PartialEq, Eq, Structural)]
pub enum CameraStep {
    /// Move the eye towards the target, unless it is already closer than one step.
    MoveForward,
    /// Move the eye away from the target.
    MoveBackward,
    /// Orbit the eye to the right around the target, keeping its distance.
    OrbitRight,
    /// Orbit the eye to the left around the target, keeping its distance.
    OrbitLeft,
}

/// The direction that a key controls, if any. The logical Space key (move up)
/// takes precedence over the physical key.
pub open spec fn key_direction(e: KeyInput) -> Option<Direction> {
    if e.logical_key == LogicalKey::Space {
        Some(Direction::Up)
    } else {
        match e.physical_key {
            KeyCode::ShiftLeft => Some(Direction::Down),
            KeyCode::KeyW | KeyCode::ArrowUp => Some(Direction::Forward),
            KeyCode::KeyA | KeyCode::ArrowLeft => Some(Direction::Left),
            KeyCode::KeyS | KeyCode::ArrowDown => Some(Direction::Backward),
            KeyCode::KeyD | KeyCode::ArrowRight => Some(Direction::Right),
            KeyCode::Other => None,
        }
    }
}

/// Which movement keys are held down.
#[derive(Clone, Copy, Debug, PartialEq, Eq, Structural)]
pub struct CameraController {
    pub is_forward_pressed: bool,
    pub is_backward_pressed: bool,
    pub is_left_pressed: bool,
    pub is_right_pressed: bool,
    pub is_up_pressed: bool,
    pub is_down_pressed: bool,
}

impl CameraController {
    /// Whether the key for direction `d` is held down.
    pub open spec fn pressed(self, d: Direction) -> bool {
        match d {
            Direction::Forward => self.is_forward_pressed,
            Direction::Backward => self.is_backward_pressed,
            Direction::Left => self.is_left_pressed,
            Direction::Right => self.is_right_pressed,
            Direction::Up => self.is_up_pressed,
            Direction::Down => self.is_down_pressed,
        }
    }

    /// This controller with the key for direction `d` held down or not as `down` says.
    pub open spec fn with_direction(self, d: Direction, down: bool) -> CameraController {
        match d {
            Direction::Forward => CameraController { is_forward_pressed: down, ..self },
            Direction::Backward => CameraController { is_backward_pressed: down, ..self },
            Direction::Left => CameraController { is_left_pressed: down, ..self },
            Direction::Right => CameraController { is_right_pressed: down, ..self },
            Direction::Up => CameraController { is_up_pressed: down, ..self },
            Direction::Down => CameraController { is_down_pressed: down, ..self },
        }
    }

    /// The controller after a keyboard event.
    pub open spec fn apply_event(self, e: KeyInput) -> CameraController {
        match key_direction(e) {
            Some(d) => self.with_direction(d, e.state == ElementState::Pressed),
            None => self,
        }
    }

    /// The movements that one camera update performs, in order.
    pub open spec fn steps(self) -> Seq<CameraStep> {
        let s0 = if self.is_forward_pressed {
            seq![CameraStep::MoveForward]
        } else {
            Seq::empty()
        };
        let s1 = if self.is_backward_pressed {
            s0.push(CameraStep::MoveBackward)
        } else {
            s0
        };
        let s2 = if self.is_right_pressed {
            s1.push(CameraStep::OrbitRight)
        } else {
            s1
        };
        if self.is_left_pressed {
            s2.push(CameraStep::OrbitLeft)
        } else {
            s2
        }
    }

    /// A controller with no key held down.
    pub open spec fn new_spec() -> CameraController {
        CameraController {
            is_forward_pressed: false,
            is_backward_pressed: false,
            is_left_pressed: false,
            is_right_pressed: false,
            is_up_pressed: false,
            is_down_pressed: false,
        }
    }

    /// A controller with no key held down.
    pub fn new() -> (c: CameraController)
        ensures
            c == Self::new_spec(),
            forall|d: Direction| !c.pressed(d),
    {
        CameraController {
            is_forward_pressed: false,
            is_backward_pressed: false,
            is_left_pressed: false,
            is_right_pressed: false,
            is_up_pressed: false,
            is_down_pressed: false,
        }
    }

    /// Records a keyboard event. Returns whether the event's key is one that
    /// moves the camera; an event for any other key changes nothing.
    pub fn process_events(&mut self, event: &KeyInput) -> (handled: bool)
        ensures
            handled == key_direction(*event) is Some,
            *final(self) == old(self).apply_event(*event),
            event.logical_key == LogicalKey::Space ==> handled && final(self).is_up_pressed == (
            event.state == ElementState::Pressed),
    {
        let is_pressed = match event.state {
            ElementState::Pressed => true,
            ElementState::Released => false,
        };
        match event.logical_key {
            LogicalKey::Space => {
                self.is_up_pressed = is_pressed;
                return true;
            },
            LogicalKey::Other => {},
        }
        match event.physical_key {
            KeyCode::ShiftLeft => {
                self.is_down_pressed = is_pressed;
                true
            },
            KeyCode::KeyW | KeyCode::ArrowUp => {
                self.is_forward_pressed = is_pressed;
                true
            },
            KeyCode::KeyA | KeyCode::ArrowLeft => {
                self.is_left_pressed = is_pressed;
                true
            },
            KeyCode::KeyS | KeyCode::ArrowDown => {
                self.is_backward_pressed = is_pressed;
                true
            },
            KeyCode::KeyD | KeyCode::ArrowRight => {
                self.is_right_pressed = is_pressed;
                true
            },
            KeyCode::Other => false,
        }
    }

    /// The movements that one camera update performs, in this order: forward
    /// (while the forward key is held), backward, orbit right, orbit left.
    pub fn update_steps(&self) -> (steps: Vec<CameraStep>)
        ensures
            steps@ == self.steps(),
    {
        let mut steps: Vec<CameraStep> = Vec::new();
        if self.is_forward_pressed {
            steps.push(CameraStep::MoveForward);
        }
        if self.is_backward_pressed {
            steps.push(CameraStep::MoveBackward);
        }
        if self.is_right_pressed {
            steps.push(CameraStep::OrbitRight);
        }
        if self.is_left_pressed {
            steps.push(CameraStep::OrbitLeft);
        }
        steps
    }
}

/// Handling the same keyboard event twice has the effect of handling it once.
pub proof fn lemma_event_idempotent(c: CameraController, e: KeyInput)
    ensures
        c.apply_event(e).apply_event(e) == c.apply_event(e),
{
}

/// After an event for a key that controls direction `d`, the key for `d` is
/// held exactly when the event was a press, and every other direction is as before.
pub proof fn lemma_event_sets_only_its_direction(c: CameraController, e: KeyInput, d: Direction)
    requires
        key_direction(e) is Some,
    ensures
        c.apply_event(e).pressed(key_direction(e)->0) == (e.state == ElementState::Pressed),
        d != key_direction(e)->0 ==> c.apply_event(e).pressed(d) == c.pressed(d),
{
}

/// An event for a key that controls no direction leaves the controller as it was.
pub proof fn lemma_other_keys_ignored(c: CameraController, e: KeyInput)
    requires
        key_direction(e) is None,
    ensures
        c.apply_event(e) == c,
{
}

/// Releasing a key that was just pressed restores the controller, when that
/// key's direction was not held before the press.
pub proof fn lemma_release_undoes_press(c: CameraController, logical_key: LogicalKey, physical_key: KeyCode)
    requires
        key_direction(KeyInput { state: ElementState::Pressed, logical_key, physical_key }) matches Some(d)
            && !c.pressed(d),
    ensures
        c.apply_event(KeyInput { state: ElementState::Pressed, logical_key, physical_key }).apply_event(
            KeyInput { state: ElementState::Released, logical_key, physical_key },
        ) == c,
{
}

/// A camera update performs each movement at most once, and performs a
/// movement exactly when its key is held.
pub proof fn lemma_steps_follow_keys(c: CameraController)
    ensures
        c.steps().contains(CameraStep::MoveForward) <==> c.is_forward_pressed,
        c.steps().contains(CameraStep::MoveBackward) <==> c.is_backward_pressed,
        c.steps().contains(CameraStep::OrbitRight) <==> c.is_right_pressed,
        c.steps().contains(CameraStep::OrbitLeft) <==> c.is_left_pressed,
        c.steps().len() <= 4,
        c.steps().no_duplicates(),
{
    let s0: Seq<CameraStep> = if c.is_forward_pressed {
        seq![CameraStep::MoveForward]
    } else {
        Seq::empty()
    };
    assert(s0.contains(CameraStep::MoveForward) <==> c.is_forward_pressed) by {
        if c.is_forward_pressed {
            assert(s0[0] == CameraStep::MoveForward);
        }
    }
    let s1 = if c.is_backward_pressed { s0.push(CameraStep::MoveBackward) } else { s0 };
    let s2 = if c.is_right_pressed { s1.push(CameraStep::OrbitRight) } else { s1 };
    let s3 = if c.is_left_pressed { s2.push(CameraStep::OrbitLeft) } else { s2 };
    lemma_push_keeps_distinct(s0, CameraStep::MoveBackward);
    lemma_push_keeps_distinct(s1, CameraStep::OrbitRight);
    lemma_push_keeps_distinct(s2, CameraStep::OrbitLeft);
    assert(s3 == c.steps());
}

/// Pushing an element that a sequence lacks keeps its elements distinct, and
/// the result holds exactly the old elements and the new one.
proof fn lemma_push_keeps_distinct(s: Seq<CameraStep>, x: CameraStep)
    ensures
        forall|y: CameraStep| #[trigger] s.push(x).contains(y) <==> (y == x || s.contains(y)),
        s.no_duplicates() && !s.contains(x) ==> s.push(x).no_duplicates(),
{
    broadcast use vstd::seq_lib::lemma_seq_contains_after_push;

    if s.no_duplicates() && !s.contains(x) {
        let t = s.push(x);
        assert forall|i: int, j: int| 0 <= i < t.len() && 0 <= j < t.len() && i != j implies t[i] != t[j] by {
            if i < s.len() && j < s.len() {
                assert(t[i] == s[i] && t[j] == s[j]);
            } else if i < s.len() {
                assert(s.contains(t[i]));
            } else {
                assert(s.contains(t[j]));
            }
        }
    }
}

/// The logical Space key always controls moving up, whether pressed or
/// released and whatever its physical key.
pub proof fn lemma_space_is_up(e: KeyInput)
    requires
        e.logical_key == LogicalKey::Space,
    ensures
        key_direction(e) == Some(Direction::Up),
{
}

/// Without the logical Space key, each physical key controls its direction:
/// Shift-left down, W and up-arrow forward, S and down-arrow backward, A and
/// left-arrow left, D and right-arrow right; other keys nothing. The key's
/// state plays no part.
pub proof fn lemma_physical_key_directions(e: KeyInput)
    requires
        e.logical_key == LogicalKey::Other,
    ensures
        e.physical_key == KeyCode::ShiftLeft ==> key_direction(e) == Some(Direction::Down),
        e.physical_key == KeyCode::KeyW || e.physical_key == KeyCode::ArrowUp ==> key_direction(e)
            == Some(Direction::Forward),
        e.physical_key == KeyCode::KeyS || e.physical_key == KeyCode::ArrowDown ==> key_direction(
            e,
        ) == Some(Direction::Backward),
        e.physical_key == KeyCode::KeyA || e.physical_key == KeyCode::ArrowLeft ==> key_direction(
            e,
        ) == Some(Direction::Left),
        e.physical_key == KeyCode::KeyD || e.physical_key == KeyCode::ArrowRight ==> key_direction(
            e,
        ) == Some(Direction::Right),
        e.physical_key == KeyCode::Other ==> key_direction(e) is None,
        key_direction(e) == key_direction(KeyInput { state: ElementState::Pressed, ..e }),
{
}

} // verus!
