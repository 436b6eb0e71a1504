use vstd::prelude::*;
use crate::bind_group::{
    bind_group_for, fills, BindGroupEntry, BindGroupLayoutEntry, BindingResource, BindingType,
    ShaderStages,
};
use crate::event::{ElementState, KeyboardInput, VirtualKeyCode, WindowEvent};

verus! {

/// One fixed-speed displacement of the camera. `Forward` and `Backward` run
/// along the normalized view direction, `Left` and `Right` along the
/// normalized cross product of view direction and up vector.
#[derive(Clone, Copy, Debug, PartialEq, Eq, Structural)]
pub enum Direction {
    Forward,
    Backward,
    Left,
    Right,
}

/// The direction a key drives, if any: WASD and the arrow keys share the
/// four directions.
pub open spec fn key_direction(key: VirtualKeyCode) -> Option<Direction> {
    match key {
        VirtualKeyCode::W | VirtualKeyCode::Up => Some(Direction::Forward),
        VirtualKeyCode::A | VirtualKeyCode::Left => Some(Direction::Left),
        VirtualKeyCode::S | VirtualKeyCode::Down => Some(Direction::Backward),
        VirtualKeyCode::D | VirtualKeyCode::Right => Some(Direction::Right),
        _ => None,
    }
}

/// The direction a window event toggles and the state it toggles it to, for
/// the events that the controller consumes.
pub open spec fn event_toggle(event: WindowEvent) -> Option<(Direction, bool)> {
    match event {
        WindowEvent::KeyboardInput {
            input: KeyboardInput { state, virtual_keycode: Some(key) },
        } => match key_direction(key) {
            Some(d) => Some((d, state == ElementState::Pressed)),
            None => None,
        },
        _ => None,
    }
}

/// Net displacement in whole steps of the camera speed: `forward` along the
/// view direction, `lateral` along the rightward direction.
pub struct Displacement {
    pub forward: int,
    pub lateral: int,
}

impl Displacement {
    pub open spec fn zero() -> Displacement {
        Displacement { forward: 0, lateral: 0 }
    }

    pub open spec fn plus(self, other: Displacement) -> Displacement {
        Displacement {
            forward: self.forward + other.forward,
            lateral: self.lateral + other.lateral,
        }
    }

    /// Squared length in units of the camera speed; view direction and
    /// rightward direction are orthogonal unit vectors.
    pub open spec fn norm_squared(self) -> int {
        self.forward * self.forward + self.lateral * self.lateral
    }
}

/// The displacement of a single move.
pub open spec fn move_displacement(d: Direction) -> Displacement {
    match d {
        Direction::Forward => Displacement { forward: 1, lateral: 0 },
        Direction::Backward => Displacement { forward: -1, lateral: 0 },
        Direction::Left => Displacement { forward: 0, lateral: -1 },
        Direction::Right => Displacement { forward: 0, lateral: 1 },
    }
}

/// The displacement of a run of moves applied one after the other.
pub open spec fn displacement(moves: Seq<Direction>) -> Displacement
    decreases moves.len(),
{
    if moves.len() == 0 {
        Displacement::zero()
    } else {
        displacement(moves.drop_last()).plus(move_displacement(moves.last()))
    }
}

/// Which of the four directions are held down.
#[derive(Clone, Copy, Debug, PartialEq, Eq, Structural)]
pub struct CameraController {
    pub left_press: bool,
    pub right_press: bool,
    pub up_press: bool,
    pub down_press: bool,
}

impl CameraController {
    /// The controller with direction `d` set to `pressed`.
    pub open spec fn with(self, d: Direction, pressed: bool) -> CameraController {
        match d {
            Direction::Forward => CameraController { up_press: pressed, ..self },
            Direction::Backward => CameraController { down_press: pressed, ..self },
            Direction::Left => CameraController { left_press: pressed, ..self },
            Direction::Right => CameraController { right_press: pressed, ..self },
        }
    }

    /// Whether direction `d` is held down.
    pub open spec fn pressed(self, d: Direction) -> bool {
        match d {
            Direction::Forward => self.up_press,
            Direction::Backward => self.down_press,
            Direction::Left => self.left_press,
            Direction::Right => self.right_press,
        }
    }

    /// The controller with nothing held down.
    pub open spec fn released() -> CameraController {
        CameraController {
            left_press: false,
            right_press: false,
            up_press: false,
            down_press: false,
        }
    }

    /// The controller that holds `d` down exactly if `self` does, and nothing
    /// else.
    pub open spec fn only(self, d: Direction) -> CameraController {
        Self::released().with(d, self.pressed(d))
    }

    /// The moves of one tick, in the order in which they are applied:
    /// forward, backward, left, right, each only if held down.
    pub open spec fn moves(self) -> Seq<Direction> {
        (if self.up_press { seq![Direction::Forward] } else { Seq::empty() })
        + (if self.down_press { seq![Direction::Backward] } else { Seq::empty() })
        + (if self.left_press { seq![Direction::Left] } else { Seq::empty() })
        + (if self.right_press { seq![Direction::Right] } else { Seq::empty() })
    }

    pub fn new() -> (c: CameraController)
        ensures
            c == Self::released(),
    {
        CameraController { left_press: false, right_press: false, up_press: false, down_press: false }
    }

    /// Records a key press or release. Returns `true`, with the key's
    /// direction set to the key's state, for a keyboard event on WASD or an
    /// arrow key; otherwise returns `false` and changes nothing.
    pub fn process_events(&mut self, event: &WindowEvent) -> (consumed: bool)
        ensures
            consumed == event_toggle(*event).is_some(),
            match event_toggle(*event) {
                Some((d, pressed)) => *final(self) == old(self).with(d, pressed),
                None => *final(self) == *old(self),
            },
    {
        match event {
            WindowEvent::KeyboardInput {
                input: KeyboardInput { state, virtual_keycode: Some(keycode) },
            } => {
                let is_pressed = match state {
                    ElementState::Pressed => true,
                    ElementState::Released => false,
                };
                match keycode {
                    VirtualKeyCode::W | VirtualKeyCode::Up => {
                        self.up_press = is_pressed;
                        true
                    },
                    VirtualKeyCode::A | VirtualKeyCode::Left => {
                        self.left_press = is_pressed;
                        true
                    },
                    VirtualKeyCode::S | VirtualKeyCode::Down => {
                        self.down_press = is_pressed;
                        true
                    },
                    VirtualKeyCode::D | VirtualKeyCode::Right => {
                        self.right_press = is_pressed;
                        true
                    },
                    _ => false,
                }
            },
            _ => false,
        }
    }

    /// The moves of one tick: each is applied to both the camera's position
    /// and its target, in the order given. Held directions add up; opposite
    /// ones are both applied.
    pub fn update_camera(&self) -> (moves: Vec<Direction>)
        ensures
            moves@ == self.moves(),
    {
        let mut moves: Vec<Direction> = Vec::new();
        if self.up_press {
            moves.push(Direction::Forward);
        }
        if self.down_press {
            moves.push(Direction::Backward);
        }
        if self.left_press {
            moves.push(Direction::Left);
        }
        if self.right_press {
            moves.push(Direction::Right);
        }
        assert(moves@ =~= self.moves());
        moves
    }
}

/// Displacements of consecutive runs of moves add up.
pub proof fn lemma_displacement_concat(a: Seq<Direction>, b: Seq<Direction>)
    ensures
        displacement(a + b) == displacement(a).plus(displacement(b)),
    decreases b.len(),
{
    if b.len() == 0 {
        assert(a + b =~= a);
    } else {
        lemma_displacement_concat(a, b.drop_last());
        assert((a + b).drop_last() =~= a + b.drop_last());
        assert((a + b).last() == b.last());
    }
}

/// The displacement of a tick is the sum of the displacements that each held
/// direction gives alone: simultaneous directions compose additively, with
/// no renormalization.
pub proof fn lemma_tick_is_sum_of_single_directions(c: CameraController)
    ensures
        c.moves() == c.only(Direction::Forward).moves() + c.only(Direction::Backward).moves()
            + c.only(Direction::Left).moves() + c.only(Direction::Right).moves(),
        displacement(c.moves()) == displacement(c.only(Direction::Forward).moves()).plus(
            displacement(c.only(Direction::Backward).moves()),
        ).plus(displacement(c.only(Direction::Left).moves())).plus(
            displacement(c.only(Direction::Right).moves()),
        ),
{
    let f = c.only(Direction::Forward).moves();
    let b = c.only(Direction::Backward).moves();
    let l = c.only(Direction::Left).moves();
    let r = c.only(Direction::Right).moves();
    assert(f =~= if c.up_press { seq![Direction::Forward] } else { Seq::empty() });
    assert(b =~= if c.down_press { seq![Direction::Backward] } else { Seq::empty() });
    assert(l =~= if c.left_press { seq![Direction::Left] } else { Seq::empty() });
    assert(r =~= if c.right_press { seq![Direction::Right] } else { Seq::empty() });
    assert(c.moves() =~= f + b + l + r);
    lemma_displacement_concat(f, b);
    lemma_displacement_concat(f + b, l);
    lemma_displacement_concat(f + b + l, r);
}

/// A tick with one forward-or-backward and one sideways direction held
/// moves the camera strictly farther than either direction alone.
pub proof fn lemma_diagonal_is_longer(c: CameraController)
    requires
        c.up_press != c.down_press,
        c.left_press != c.right_press,
    ensures
        displacement(c.moves()).norm_squared() == 2,
        displacement(c.only(Direction::Forward).moves()).norm_squared() <= 1,
        displacement(c.only(Direction::Backward).moves()).norm_squared() <= 1,
        displacement(c.only(Direction::Left).moves()).norm_squared() <= 1,
        displacement(c.only(Direction::Right).moves()).norm_squared() <= 1,
{
    lemma_tick_displacement(c);
    lemma_tick_displacement(c.only(Direction::Forward));
    lemma_tick_displacement(c.only(Direction::Backward));
    lemma_tick_displacement(c.only(Direction::Left));
    lemma_tick_displacement(c.only(Direction::Right));
    lemma_unit_squares(displacement(c.moves()));
    lemma_unit_squares(displacement(c.only(Direction::Forward).moves()));
    lemma_unit_squares(displacement(c.only(Direction::Backward).moves()));
    lemma_unit_squares(displacement(c.only(Direction::Left).moves()));
    lemma_unit_squares(displacement(c.only(Direction::Right).moves()));
}

/// Squared length of a displacement of at most one step each way.
proof fn lemma_unit_squares(d: Displacement)
    requires
        -1 <= d.forward <= 1,
        -1 <= d.lateral <= 1,
    ensures
        d.norm_squared() == (if d.forward == 0 { 0int } else { 1 }) + (if d.lateral == 0 { 0int } else { 1 }),
{
    assert(d.forward * d.forward == if d.forward == 0 { 0int } else { 1 }) by (nonlinear_arith)
        requires
            -1 <= d.forward <= 1,
    ;
    assert(d.lateral * d.lateral == if d.lateral == 0 { 0int } else { 1 }) by (nonlinear_arith)
        requires
            -1 <= d.lateral <= 1,
    ;
}

/// What a tick displaces, read off the four flags.
pub proof fn lemma_tick_displacement(c: CameraController)
    ensures
        displacement(c.moves()).forward == (if c.up_press { 1int } else { 0 }) - (if c.down_press { 1int } else { 0 }),
        displacement(c.moves()).lateral == (if c.right_press { 1int } else { 0 }) - (if c.left_press { 1int } else { 0 }),
{
    let f: Seq<Direction> = if c.up_press { seq![Direction::Forward] } else { Seq::empty() };
    let b: Seq<Direction> = if c.down_press { seq![Direction::Backward] } else { Seq::empty() };
    let l: Seq<Direction> = if c.left_press { seq![Direction::Left] } else { Seq::empty() };
    let r: Seq<Direction> = if c.right_press { seq![Direction::Right] } else { Seq::empty() };
    assert(c.moves() =~= f + b + l + r);
    lemma_displacement_concat(f, b);
    lemma_displacement_concat(f + b, l);
    lemma_displacement_concat(f + b + l, r);
    lemma_displacement_run(f);
    lemma_displacement_run(b);
    lemma_displacement_run(l);
    lemma_displacement_run(r);
}

/// The displacement of a run of at most one move.
proof fn lemma_displacement_run(s: Seq<Direction>)
    requires
        s.len() <= 1,
    ensures
        displacement(s) == if s.len() == 0 { Displacement::zero() } else { move_displacement(s[0]) },
{
    if s.len() == 1 {
        assert(s.drop_last().len() == 0);
        assert(displacement(s.drop_last()) == Displacement::zero());
    }
}

/// The layout of the camera's bind group.
pub open spec fn camera_bind_group_layout() -> Seq<BindGroupLayoutEntry> {
    seq![
        BindGroupLayoutEntry {
            binding: 0,
            visibility: ShaderStages { vertex: true, fragment: false },
            ty: BindingType::UniformBuffer,
        },
    ]
}

/// The layout of the camera's bind group: the view-projection matrix as a
/// uniform buffer in slot 0, seen by the vertex stage. Every call gives the
/// same layout.
pub fn create_camera_bind_group_layout() -> (entries: Vec<BindGroupLayoutEntry>)
    ensures
        entries@ == camera_bind_group_layout(),
{
    let mut entries: Vec<BindGroupLayoutEntry> = Vec::new();
    entries.push(
        BindGroupLayoutEntry {
            binding: 0,
            visibility: ShaderStages { vertex: true, fragment: false },
            ty: BindingType::UniformBuffer,
        },
    );
    assert(entries@ =~= camera_bind_group_layout());
    entries
}

/// The camera's bind group: the uniform buffer in slot 0, filling the
/// camera bind group layout.
pub fn create_camera_bind_group() -> (entries: Vec<BindGroupEntry>)
    ensures
        entries@ == seq![BindGroupEntry { binding: 0, resource: BindingResource::Buffer }],
        fills(entries@, camera_bind_group_layout()),
{
    let layout = create_camera_bind_group_layout();
    let entries = bind_group_for(&layout);
    assert(entries@[0] == (BindGroupEntry { binding: 0, resource: BindingResource::Buffer }));
    assert(entries@ =~= seq![BindGroupEntry { binding: 0, resource: BindingResource::Buffer }]);
    entries
}

} // verus!
