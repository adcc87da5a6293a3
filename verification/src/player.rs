//! The state of a controllable actor and the rules that move it.
//!
//! Velocities and contact normals are measured by the physics engine that
//! hosts the game. The rules here never compute with them: they read a
//! normal through the few classes that matter to them ([`SurfaceNormal`]),
//! and they answer with the change to make ([`jump::VelocityEffect`],
//! [`dash::DashEffect`]), which the caller applies to its own numbers.
use vstd::prelude::*;

pub mod dash;
pub mod jump;

verus! {

/// A horizontal direction, as held or tapped on the controls.
#[derive(Clone, Copy, Debug, PartialEq, Eq, Structural, Hash)]
pub enum Direction {
    Left,
    Neutral,
    Right,
}

impl Direction {
    /// The direction as a factor: -1 for left, 0 for neutral, 1 for right.
    pub open spec fn spec_sign(self) -> int {
        match self {
            Direction::Left => -1,
            Direction::Neutral => 0,
            Direction::Right => 1,
        }
    }

    /// The direction as a factor: -1 for left, 0 for neutral, 1 for right.
    pub fn sign(self) -> (factor: i32)
        ensures
            factor == self.spec_sign(),
    {
        match self {
            Direction::Left => -1,
            Direction::Neutral => 0,
            Direction::Right => 1,
        }
    }

    /// The direction that a pair of keys asks for: left wins over right.
    pub open spec fn spec_from_keys(left: bool, right: bool) -> Direction {
        if left {
            Direction::Left
        } else if right {
            Direction::Right
        } else {
            Direction::Neutral
        }
    }

    /// The direction that a pair of keys asks for: left wins over right.
    #[verifier::when_used_as_spec(spec_from_keys)]
    pub fn from_keys(left: bool, right: bool) -> (direction: Direction)
        ensures
            direction == Direction::spec_from_keys(left, right),
    {
        if left {
            Direction::Left
        } else if right {
            Direction::Right
        } else {
            Direction::Neutral
        }
    }
}

impl Default for Direction {
    fn default() -> (direction: Direction)
        ensures
            direction == Direction::Neutral,
    {
        Direction::Neutral
    }
}

/// The horizontal part of a contact normal, as far as the rules read it.
#[derive(Clone, Copy, Debug, PartialEq, Eq, Structural, Hash)]
pub enum NormalX {
    /// Exactly zero.
    Zero,
    /// Exactly minus one: the surface faces left, so it lies to the right of
    /// the actor.
    Minus,
    /// Exactly one: the surface faces right, so it lies to the left of the
    /// actor.
    Plus,
    /// Any other value.
    Other,
}

impl NormalX {
    /// Whether the value is one in magnitude.
    pub open spec fn spec_is_unit(self) -> bool {
        self == NormalX::Minus || self == NormalX::Plus
    }

    /// Whether the value is one in magnitude.
    #[verifier::when_used_as_spec(spec_is_unit)]
    pub fn is_unit(self) -> (unit: bool)
        ensures
            unit == self.spec_is_unit(),
    {
        self == NormalX::Minus || self == NormalX::Plus
    }
}

/// The vertical part of a contact normal, as far as the rules read it.
#[derive(Clone, Copy, Debug, PartialEq, Eq, Structural, Hash)]
pub enum NormalY {
    /// Exactly zero.
    Zero,
    /// Exactly one.
    One,
    /// Above the ground threshold, and not one.
    Upward,
    /// Any other value: the dead zone between zero and the ground threshold.
    Deadzone,
}

/// The normal of the surface that an actor touches.
#[derive(Clone, Copy, Debug, PartialEq, Eq, Structural, Hash)]
pub struct SurfaceNormal {
    pub x: NormalX,
    pub y: NormalY,
}

impl SurfaceNormal {
    /// The normal of flat ground: straight up.
    pub open spec fn spec_up() -> SurfaceNormal {
        SurfaceNormal { x: NormalX::Zero, y: NormalY::One }
    }

    /// The normal of flat ground: straight up.
    #[verifier::when_used_as_spec(spec_up)]
    pub fn up() -> (normal: SurfaceNormal)
        ensures
            normal == SurfaceNormal::spec_up(),
    {
        SurfaceNormal { x: NormalX::Zero, y: NormalY::One }
    }

    /// The normal of a vertical wall to the left of the actor: level, to the
    /// right.
    pub open spec fn spec_wall_on_left() -> SurfaceNormal {
        SurfaceNormal { x: NormalX::Plus, y: NormalY::Zero }
    }

    /// The normal of a vertical wall to the left of the actor: level, to the
    /// right.
    #[verifier::when_used_as_spec(spec_wall_on_left)]
    pub fn wall_on_left() -> (normal: SurfaceNormal)
        ensures
            normal == SurfaceNormal::spec_wall_on_left(),
    {
        SurfaceNormal { x: NormalX::Plus, y: NormalY::Zero }
    }

    /// The normal of a vertical wall to the right of the actor: level, to
    /// the left.
    pub open spec fn spec_wall_on_right() -> SurfaceNormal {
        SurfaceNormal { x: NormalX::Minus, y: NormalY::Zero }
    }

    /// The normal of a vertical wall to the right of the actor: level, to
    /// the left.
    #[verifier::when_used_as_spec(spec_wall_on_right)]
    pub fn wall_on_right() -> (normal: SurfaceNormal)
        ensures
            normal == SurfaceNormal::spec_wall_on_right(),
    {
        SurfaceNormal { x: NormalX::Minus, y: NormalY::Zero }
    }

    /// Whether the surface is flat ground.
    pub open spec fn spec_is_flat(self) -> bool {
        self.x == NormalX::Zero && self.y == NormalY::One
    }

    /// Whether the surface is flat ground.
    #[verifier::when_used_as_spec(spec_is_flat)]
    pub fn is_flat(self) -> (flat: bool)
        ensures
            flat == self.spec_is_flat(),
    {
        self.x == NormalX::Zero && self.y == NormalY::One
    }

    /// Whether the surface is a wall to hold on to, on either side.
    pub open spec fn spec_is_wall(self) -> bool {
        self.x.spec_is_unit() && self.y == NormalY::Zero
    }

    /// Whether the surface is a wall to hold on to, on either side.
    #[verifier::when_used_as_spec(spec_is_wall)]
    pub fn is_wall(self) -> (wall: bool)
        ensures
            wall == self.spec_is_wall(),
    {
        self.x.is_unit() && self.y == NormalY::Zero
    }

    /// Whether the keys held push the actor toward the surface: the left
    /// key where the surface lies to the left, the right key where it lies
    /// to the right.
    pub open spec fn spec_is_pushed_against(self, left: bool, right: bool) -> bool {
        (self.x == NormalX::Plus && left) || (self.x == NormalX::Minus && right)
    }

    /// Whether the keys held push the actor toward the surface: the left
    /// key where the surface lies to the left, the right key where it lies
    /// to the right.
    #[verifier::when_used_as_spec(spec_is_pushed_against)]
    pub fn is_pushed_against(self, left: bool, right: bool) -> (pushed: bool)
        ensures
            pushed == self.spec_is_pushed_against(left, right),
    {
        (self.x == NormalX::Plus && left) || (self.x == NormalX::Minus && right)
    }

    /// Whether the surface faces up enough to stand on.
    pub open spec fn spec_is_ground(self) -> bool {
        self.y == NormalY::One || self.y == NormalY::Upward
    }

    /// Whether the surface faces up enough to stand on.
    #[verifier::when_used_as_spec(spec_is_ground)]
    pub fn is_ground(self) -> (ground: bool)
        ensures
            ground == self.spec_is_ground(),
    {
        self.y == NormalY::One || self.y == NormalY::Upward
    }

    /// Whether touching the surface ends a jump: a wall or flat ground.
    pub open spec fn spec_ends_jump(self) -> bool {
        self.x.spec_is_unit() || self.y == NormalY::One
    }

    /// Whether touching the surface ends a jump: a wall or flat ground.
    #[verifier::when_used_as_spec(spec_ends_jump)]
    pub fn ends_jump(self) -> (ends: bool)
        ensures
            ends == self.spec_ends_jump(),
    {
        self.x.is_unit() || self.y == NormalY::One
    }
}

/// What an actor's jump is doing in the current frame.
#[derive(Clone, Copy, Debug, PartialEq, Eq, Structural, Hash)]
pub enum JumpStatus {
    CanJump,
    InitiateJump,
    GoingUp,
    StoppingUp,
    Falling,
    WallSliding,
}

/// The movement state of one actor. Times are nanoseconds on the game's
/// clock.
#[derive(Clone, Copy, Debug, PartialEq, Eq, Hash)]
pub struct Player {
    pub dashing: bool,
    pub facing_direction: Direction,
    pub rising: bool,
    pub is_jumping: bool,
    pub wall_sliding: bool,
    pub last_stood_normal: SurfaceNormal,
    pub last_stood_time: Option<u64>,
    pub jump_status: JumpStatus,
}

impl Default for Player {
    fn default() -> (player: Player)
        ensures
            player == (Player {
                dashing: false,
                facing_direction: Direction::Right,
                rising: false,
                is_jumping: false,
                wall_sliding: false,
                last_stood_normal: SurfaceNormal::spec_up(),
                last_stood_time: None,
                jump_status: JumpStatus::CanJump,
            }),
    {
        Player {
            dashing: false,
            facing_direction: Direction::Right,
            rising: false,
            is_jumping: false,
            wall_sliding: false,
            last_stood_normal: SurfaceNormal::up(),
            last_stood_time: None,
            jump_status: JumpStatus::CanJump,
        }
    }
}

impl Player {
    /// The side that the actor faces after a frame with these keys held: the
    /// side of the one key that is held. With no key or both keys held the
    /// actor keeps its side.
    pub open spec fn facing_after(facing: Direction, left: bool, right: bool) -> Direction {
        if left && !right {
            Direction::Left
        } else if right && !left {
            Direction::Right
        } else {
            facing
        }
    }

    /// Turns the actor toward the held key.
    pub fn set_facing_direction(&mut self, left: bool, right: bool)
        ensures
            *final(self) == (Player {
                facing_direction: Player::facing_after(old(self).facing_direction, left, right),
                ..*old(self)
            }),
    {
        if left && !right {
            self.facing_direction = Direction::Left;
        } else if right && !left {
            self.facing_direction = Direction::Right;
        }
    }

    /// Records the time of the frame as the last time the actor stood, if it
    /// touches a surface.
    pub fn check_standing(&mut self, standing_normal: Option<SurfaceNormal>, now: Option<u64>)
        ensures
            *final(self) == (Player {
                last_stood_time: if standing_normal is Some {
                    now
                } else {
                    old(self).last_stood_time
                },
                ..*old(self)
            }),
    {
        if standing_normal.is_some() {
            self.last_stood_time = now;
        }
    }
}

/// The side toward which an actor runs while these keys are held.
pub fn run(left: bool, right: bool) -> (target: Direction)
    ensures
        target == Direction::spec_from_keys(left, right),
{
    Direction::from_keys(left, right)
}

} // verus!
