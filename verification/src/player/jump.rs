//! The jump of an actor, resolved once per frame.
//!
//! A frame first settles which surface carries the actor: the one it
//! touches, or, for a short grace period after it walked off an edge, the
//! one it stood on last. From that surface and the controls it derives one
//! [`JumpStatus`], and from the status the new flags of the actor and the
//! change to its vertical velocity.
use vstd::prelude::*;
use crate::player::{JumpStatus, NormalX, Player, SurfaceNormal};

verus! {

/// Nanoseconds in a millisecond.
pub const NANOS_PER_MILLI: u64 = 1_000_000;

/// What the jump rules read in one frame. `moving_up` says that the vertical
/// velocity is zero or upward; `now` is the time of the frame, if the clock
/// has one yet.
#[derive(Clone, Copy, Debug, PartialEq, Eq, Hash)]
pub struct JumpInput {
    pub standing_normal: Option<SurfaceNormal>,
    pub pressed_jump: bool,
    pub just_pressed_jump: bool,
    pub pressed_left: bool,
    pub pressed_right: bool,
    pub moving_up: bool,
    pub now: Option<u64>,
}

/// What a frame does to the vertical velocity of an actor.
#[derive(Clone, Copy, Debug, PartialEq, Eq, Structural, Hash)]
pub enum VelocityEffect {
    /// Nothing.
    Keep,
    /// Add the jump power, upward.
    Launch,
    /// Add gravity for the frame, scaled by the jump break factor.
    Brake,
    /// Add gravity for the frame, scaled by the fall factor.
    Fall,
    /// Set it to zero.
    Halt,
}

/// The time from `last` to `now`, zero if `now` is the earlier one.
pub open spec fn time_since(last: u64, now: u64) -> int {
    if now >= last {
        now - last
    } else {
        0
    }
}

/// Whether the frame at `now` is within the grace period after the actor
/// last stood. Without either time it is not.
pub open spec fn spec_within_coyote_time(
    last_stood_time: Option<u64>,
    now: Option<u64>,
    coyote_time_ms: u64,
) -> bool {
    match (last_stood_time, now) {
        (Some(last), Some(now)) => time_since(last, now) <= coyote_time_ms * NANOS_PER_MILLI,
        _ => false,
    }
}

/// Whether the frame at `now` is within the grace period after the actor
/// last stood. Without either time it is not.
#[verifier::when_used_as_spec(spec_within_coyote_time)]
pub fn within_coyote_time(last_stood_time: Option<u64>, now: Option<u64>, coyote_time_ms: u64) -> (within: bool)
    ensures
        within == spec_within_coyote_time(last_stood_time, now, coyote_time_ms),
{
    match (last_stood_time, now) {
        (Some(last), Some(now)) => {
            let elapsed: u64 = if now >= last {
                now - last
            } else {
                0
            };
            assert(NANOS_PER_MILLI == 1_000_000);
            let window: u128 = coyote_time_ms as u128 * 1_000_000;
            elapsed as u128 <= window
        },
        _ => false,
    }
}

/// Whether the grace period stands in for a missing contact: the actor
/// touches nothing, asks to jump, is not in a jump, and stood not long ago.
pub open spec fn coyote_applies(player: Player, input: JumpInput, coyote_time_ms: u64) -> bool {
    &&& input.standing_normal is None
    &&& input.pressed_jump
    &&& !player.is_jumping
    &&& spec_within_coyote_time(player.last_stood_time, input.now, coyote_time_ms)
}

/// The surface that carries the actor in this frame.
pub open spec fn spec_supporting_normal(
    player: Player,
    input: JumpInput,
    coyote_time_ms: u64,
) -> Option<SurfaceNormal> {
    if coyote_applies(player, input, coyote_time_ms) {
        Some(player.last_stood_normal)
    } else {
        input.standing_normal
    }
}

/// The surface that carries the actor in this frame.
pub fn supporting_normal(player: &Player, input: &JumpInput, coyote_time_ms: u64) -> (normal: Option<
    SurfaceNormal,
>)
    ensures
        normal == spec_supporting_normal(*player, *input, coyote_time_ms),
{
    if input.standing_normal.is_none() && input.pressed_jump && !player.is_jumping
        && within_coyote_time(player.last_stood_time, input.now, coyote_time_ms) {
        Some(player.last_stood_normal)
    } else {
        input.standing_normal
    }
}

/// Whether the actor holds on to a wall: it touches one and the key toward
/// it is held. The key away from the wall does not hold on to it.
pub open spec fn grips_wall(normal: Option<SurfaceNormal>, input: JumpInput) -> bool {
    &&& normal is Some
    &&& normal->0.spec_is_wall()
    &&& normal->0.spec_is_pushed_against(input.pressed_left, input.pressed_right)
}

/// Whether the actor stands: it holds on to no wall and the surface faces up
/// enough.
pub open spec fn stands(normal: Option<SurfaceNormal>, input: JumpInput) -> bool {
    &&& !grips_wall(normal, input)
    &&& normal is Some
    &&& normal->0.spec_is_ground()
}

/// The status of the jump for a frame, from the carrying surface, the
/// controls and whether the actor was rising.
pub open spec fn spec_classify_jump(
    normal: Option<SurfaceNormal>,
    input: JumpInput,
    rising: bool,
) -> JumpStatus {
    if grips_wall(normal, input) {
        if input.just_pressed_jump {
            JumpStatus::InitiateJump
        } else {
            JumpStatus::WallSliding
        }
    } else if stands(normal, input) {
        if input.pressed_jump {
            JumpStatus::InitiateJump
        } else {
            JumpStatus::CanJump
        }
    } else if input.moving_up {
        if input.pressed_jump && rising {
            JumpStatus::GoingUp
        } else {
            JumpStatus::StoppingUp
        }
    } else {
        JumpStatus::Falling
    }
}

/// The status of the jump for a frame, from the carrying surface, the
/// controls and whether the actor was rising.
pub fn classify_jump(normal: Option<SurfaceNormal>, input: &JumpInput, rising: bool) -> (status:
    JumpStatus)
    ensures
        status == spec_classify_jump(normal, *input, rising),
{
    if let Some(surface) = normal {
        if surface.is_wall() && surface.is_pushed_against(input.pressed_left, input.pressed_right)
        {
            if input.just_pressed_jump {
                return JumpStatus::InitiateJump;
            }
            return JumpStatus::WallSliding;
        }
        if surface.is_ground() {
            if input.pressed_jump {
                return JumpStatus::InitiateJump;
            }
            return JumpStatus::CanJump;
        }
    }
    if input.moving_up {
        if input.pressed_jump && rising {
            JumpStatus::GoingUp
        } else {
            JumpStatus::StoppingUp
        }
    } else {
        JumpStatus::Falling
    }
}

impl JumpStatus {
    /// What a frame of this status does to the vertical velocity. Holding on
    /// to a wall stops the actor; it does not slide.
    pub open spec fn spec_velocity_effect(self) -> VelocityEffect {
        match self {
            JumpStatus::CanJump => VelocityEffect::Keep,
            JumpStatus::InitiateJump => VelocityEffect::Launch,
            JumpStatus::GoingUp => VelocityEffect::Keep,
            JumpStatus::StoppingUp => VelocityEffect::Brake,
            JumpStatus::Falling => VelocityEffect::Fall,
            JumpStatus::WallSliding => VelocityEffect::Halt,
        }
    }

    /// What a frame of this status does to the vertical velocity. Holding on
    /// to a wall stops the actor; it does not slide.
    #[verifier::when_used_as_spec(spec_velocity_effect)]
    pub fn velocity_effect(self) -> (effect: VelocityEffect)
        ensures
            effect == self.spec_velocity_effect(),
    {
        match self {
            JumpStatus::CanJump => VelocityEffect::Keep,
            JumpStatus::InitiateJump => VelocityEffect::Launch,
            JumpStatus::GoingUp => VelocityEffect::Keep,
            JumpStatus::StoppingUp => VelocityEffect::Brake,
            JumpStatus::Falling => VelocityEffect::Fall,
            JumpStatus::WallSliding => VelocityEffect::Halt,
        }
    }
}

/// The status that a frame gives the actor.
pub open spec fn status_after(player: Player, input: JumpInput, coyote_time_ms: u64) -> JumpStatus {
    spec_classify_jump(
        spec_supporting_normal(player, input, coyote_time_ms),
        input,
        player.rising,
    )
}

/// The actor after a frame of the jump rules.
pub open spec fn player_after(player: Player, input: JumpInput, coyote_time_ms: u64) -> Player {
    let normal = spec_supporting_normal(player, input, coyote_time_ms);
    let status = status_after(player, input, coyote_time_ms);
    Player {
        rising: status == JumpStatus::InitiateJump || status == JumpStatus::GoingUp,
        is_jumping: if status == JumpStatus::InitiateJump {
            true
        } else if normal is Some && normal->0.spec_ends_jump() {
            false
        } else {
            player.is_jumping
        },
        wall_sliding: status == JumpStatus::WallSliding,
        last_stood_normal: match normal {
            Some(surface) => surface,
            None => player.last_stood_normal,
        },
        jump_status: status,
        ..player
    }
}

/// Resolves the jump of one actor for one frame: updates its state and
/// returns what to do to its vertical velocity.
pub fn jump(player: &mut Player, input: &JumpInput, coyote_time_ms: u64) -> (effect: VelocityEffect)
    ensures
        *final(player) == player_after(*old(player), *input, coyote_time_ms),
        effect == status_after(*old(player), *input, coyote_time_ms).spec_velocity_effect(),
{
    let normal = supporting_normal(player, input, coyote_time_ms);
    player.wall_sliding = false;
    if let Some(surface) = normal {
        // Back on the ground or on a wall: the jump is over.
        if surface.ends_jump() {
            player.is_jumping = false;
        }
        player.last_stood_normal = surface;
    }
    let status = classify_jump(normal, input, player.rising);
    match status {
        JumpStatus::CanJump => {
            player.rising = false;
        },
        JumpStatus::InitiateJump => {
            player.rising = true;
            // Stays set until the actor touches ground or a wall again.
            player.is_jumping = true;
        },
        JumpStatus::GoingUp => {
            player.rising = true;
        },
        JumpStatus::StoppingUp => {
            player.rising = false;
        },
        JumpStatus::Falling => {
            player.rising = false;
        },
        JumpStatus::WallSliding => {
            player.wall_sliding = true;
            player.rising = false;
        },
    }
    player.jump_status = status;
    status.velocity_effect()
}

/// Every frame has exactly one status, and each status has its own
/// condition: the six conditions exclude each other and leave no input out.
pub proof fn lemma_each_frame_has_one_status(
    normal: Option<SurfaceNormal>,
    input: JumpInput,
    rising: bool,
)
    ensures
        ({
            let status = spec_classify_jump(normal, input, rising);
            let grips = grips_wall(normal, input);
            let stands = stands(normal, input);
            let airborne = !grips && !stands;
            &&& !(grips && stands)
            &&& status == JumpStatus::InitiateJump <==> (grips && input.just_pressed_jump) || (
            stands && input.pressed_jump)
            &&& status == JumpStatus::WallSliding <==> grips && !input.just_pressed_jump
            &&& status == JumpStatus::CanJump <==> stands && !input.pressed_jump
            &&& status == JumpStatus::GoingUp <==> airborne && input.moving_up
                && input.pressed_jump && rising
            &&& status == JumpStatus::StoppingUp <==> airborne && input.moving_up && !(
            input.pressed_jump && rising)
            &&& status == JumpStatus::Falling <==> airborne && !input.moving_up
        }),
{
}

/// The grace period is closed at both ends of its reach: an actor that
/// walked off an edge and asks to jump is carried by the surface it last
/// stood on if no more than `coyote_time_ms` have passed, and by nothing
/// after that.
pub proof fn lemma_coyote_time_boundary(player: Player, input: JumpInput, coyote_time_ms: u64)
    requires
        input.standing_normal is None,
        input.pressed_jump,
        !player.is_jumping,
        player.last_stood_time is Some,
        input.now is Some,
    ensures
        time_since(player.last_stood_time->0, input.now->0) <= coyote_time_ms * NANOS_PER_MILLI
            ==> spec_supporting_normal(player, input, coyote_time_ms) == Some(
            player.last_stood_normal,
        ),
        time_since(player.last_stood_time->0, input.now->0) > coyote_time_ms * NANOS_PER_MILLI
            ==> spec_supporting_normal(player, input, coyote_time_ms) is None,
{
}

/// After a frame on a wall or on flat ground the actor is in a jump only if
/// the jump began in that frame.
pub proof fn lemma_landing_ends_jump(player: Player, input: JumpInput, coyote_time_ms: u64)
    requires
        spec_supporting_normal(player, input, coyote_time_ms) is Some,
        spec_supporting_normal(player, input, coyote_time_ms)->0.spec_ends_jump(),
    ensures
        player_after(player, input, coyote_time_ms).is_jumping <==> status_after(
            player,
            input,
            coyote_time_ms,
        ) == JumpStatus::InitiateJump,
{
}

/// No grace period in the air: an actor that is in a jump and touches
/// nothing stays in that jump and cannot begin another, whatever the
/// controls and the clock say.
pub proof fn lemma_no_second_jump_in_the_air(player: Player, input: JumpInput, coyote_time_ms: u64)
    requires
        player.is_jumping,
        input.standing_normal is None,
    ensures
        spec_supporting_normal(player, input, coyote_time_ms) is None,
        status_after(player, input, coyote_time_ms) != JumpStatus::InitiateJump,
        status_after(player, input, coyote_time_ms) != JumpStatus::CanJump,
        status_after(player, input, coyote_time_ms) != JumpStatus::WallSliding,
        player_after(player, input, coyote_time_ms).is_jumping,
{
}

/// The key away from a wall does not hold on to it: an actor that touches
/// a wall and does not hold the key toward it is in the air.
pub proof fn lemma_key_away_from_wall_does_not_grip(
    normal: SurfaceNormal,
    input: JumpInput,
    rising: bool,
)
    requires
        normal.spec_is_wall(),
        normal.x == NormalX::Plus ==> !input.pressed_left,
        normal.x == NormalX::Minus ==> !input.pressed_right,
    ensures
        spec_classify_jump(Some(normal), input, rising) == spec_classify_jump(None, input, rising),
        spec_classify_jump(Some(normal), input, rising) != JumpStatus::WallSliding,
        spec_classify_jump(Some(normal), input, rising) != JumpStatus::InitiateJump,
{
}

} // verus!
