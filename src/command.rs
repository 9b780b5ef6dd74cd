//! The per-entity action state machine: the current `Command` and the single
//! queued `NextCommand`, and the step that promotes one to the other.

use vstd::prelude::*;

use crate::world::{Entity, MotionId, MoveMode, Position};

verus! {

#[derive(Clone, Copy, Debug, PartialEq, Eq, Structural)]
pub struct CommandMove {
    pub destination: Position,
    pub target: Option<Entity>,
    pub move_mode: Option<MoveMode>,
}

#[derive(Clone, Copy, Debug, PartialEq, Eq, Structural)]
pub struct CommandAttack {
    pub target: Entity,
}

#[derive(Clone, Copy, Debug, PartialEq, Eq, Structural)]
pub struct CommandEmote {
    pub motion_id: MotionId,
    pub is_stop: bool,
}

/// The three phases of sitting down: the animated transition down, the
/// steady seated state, and the animated transition back up.
#[derive(Clone, Copy, Debug, PartialEq, Eq, Structural)]
pub enum CommandSit {
    Sitting,
    Sit,
    Standing,
}

#[derive(Clone, Copy, Debug, PartialEq, Eq, Structural)]
pub enum Command {
    Stop,
    Move(CommandMove),
    Attack(CommandAttack),
    Die,
    PickupItem(Entity),
    Emote(CommandEmote),
    Sit(CommandSit),
}

impl Command {
    /// Whether the current animation must finish before this command is complete.
    pub open spec fn spec_requires_animation_complete(self) -> bool {
        match self {
            Command::Stop => false,
            Command::Move(_) => false,
            Command::Attack(_) => true,
            Command::Die => true,
            Command::PickupItem(_) => true,
            Command::Emote(_) => true,
            Command::Sit(CommandSit::Sitting) => true,
            Command::Sit(CommandSit::Sit) => false,
            Command::Sit(CommandSit::Standing) => true,
        }
    }

    /// Whether completion is signalled by an explicit event rather than by
    /// the end of an animation.
    pub open spec fn spec_is_manual_complete(self) -> bool {
        self is Sit
    }

    pub fn with_die() -> (r: Self)
        ensures
            r == Command::Die,
    {
        Command::Die
    }

    pub fn with_stop() -> (r: Self)
        ensures
            r == Command::Stop,
    {
        Command::Stop
    }

    pub fn with_attack(target: Entity) -> (r: Self)
        ensures
            r == Command::Attack(CommandAttack { target }),
    {
        Command::Attack(CommandAttack { target })
    }

    pub fn with_emote(motion_id: MotionId, is_stop: bool) -> (r: Self)
        ensures
            r == Command::Emote(CommandEmote { motion_id, is_stop }),
    {
        Command::Emote(CommandEmote { motion_id, is_stop })
    }

    pub fn with_move(destination: Position, target: Option<Entity>, move_mode: Option<MoveMode>) -> (r:
        Self)
        ensures
            r == Command::Move(CommandMove { destination, target, move_mode }),
    {
        Command::Move(CommandMove { destination, target, move_mode })
    }

    pub fn with_pickup_item(target: Entity) -> (r: Self)
        ensures
            r == Command::PickupItem(target),
    {
        Command::PickupItem(target)
    }

    /// The only way into the sitting family: the transition down.
    pub fn with_sitting() -> (r: Self)
        ensures
            r == Command::Sit(CommandSit::Sitting),
    {
        Command::Sit(CommandSit::Sitting)
    }

    pub fn with_sit() -> (r: Self)
        ensures
            r == Command::Sit(CommandSit::Sit),
    {
        Command::Sit(CommandSit::Sit)
    }

    pub fn with_standing() -> (r: Self)
        ensures
            r == Command::Sit(CommandSit::Standing),
    {
        Command::Sit(CommandSit::Standing)
    }

    pub fn is_die(&self) -> (r: bool)
        ensures
            r == (*self is Die),
    {
        matches!(self, Command::Die)
    }

    pub fn is_emote(&self) -> (r: bool)
        ensures
            r == (*self is Emote),
    {
        matches!(self, Command::Emote(_))
    }

    pub fn is_stop(&self) -> (r: bool)
        ensures
            r == (*self is Stop),
    {
        matches!(self, Command::Stop)
    }

    pub fn is_sitting(&self) -> (r: bool)
        ensures
            r == (*self == Command::Sit(CommandSit::Sitting)),
    {
        matches!(self, Command::Sit(CommandSit::Sitting))
    }

    pub fn is_sit(&self) -> (r: bool)
        ensures
            r == (*self == Command::Sit(CommandSit::Sit)),
    {
        matches!(self, Command::Sit(CommandSit::Sit))
    }

    pub fn is_manual_complete(&self) -> (r: bool)
        ensures
            r == self.spec_is_manual_complete(),
    {
        matches!(self, Command::Sit(_))
    }

    pub fn requires_animation_complete(&self) -> (r: bool)
        ensures
            r == self.spec_requires_animation_complete(),
    {
        match self {
            Command::Stop => false,
            Command::Move(_) => false,
            Command::Attack(_) => true,
            Command::Die => true,
            Command::PickupItem(_) => true,
            Command::Emote(_) => true,
            Command::Sit(CommandSit::Sitting) => true,
            Command::Sit(CommandSit::Sit) => false,
            Command::Sit(CommandSit::Standing) => true,
        }
    }
}

/// The command to perform once the current one completes: a single slot,
/// which each write overwrites.
pub struct NextCommand(pub Option<Command>);

impl NextCommand {
    pub fn new(command: Option<Command>) -> (r: Self)
        ensures
            r.0 == command,
    {
        NextCommand(command)
    }

    pub fn default() -> (r: Self)
        ensures
            r.0 is None,
    {
        Self::new(None)
    }

    pub fn is_die(&self) -> (r: bool)
        ensures
            r == (self.0 == Some(Command::Die)),
    {
        matches!(self.0, Some(Command::Die))
    }

    pub fn with_die() -> (r: Self)
        ensures
            r.0 == Some(Command::Die),
    {
        NextCommand(Some(Command::Die))
    }

    pub fn with_stop() -> (r: Self)
        ensures
            r.0 == Some(Command::Stop),
    {
        NextCommand(Some(Command::Stop))
    }

    pub fn with_pickup_item(target: Entity) -> (r: Self)
        ensures
            r.0 == Some(Command::PickupItem(target)),
    {
        NextCommand(Some(Command::PickupItem(target)))
    }

    pub fn with_move(destination: Position, target: Option<Entity>, move_mode: Option<MoveMode>) -> (r:
        Self)
        ensures
            r.0 == Some(Command::Move(CommandMove { destination, target, move_mode })),
    {
        NextCommand(Some(Command::Move(CommandMove { destination, target, move_mode })))
    }

    pub fn with_emote(motion_id: MotionId, is_stop: bool) -> (r: Self)
        ensures
            r.0 == Some(Command::Emote(CommandEmote { motion_id, is_stop })),
    {
        NextCommand(Some(Command::Emote(CommandEmote { motion_id, is_stop })))
    }

    pub fn with_attack(target: Entity) -> (r: Self)
        ensures
            r.0 == Some(Command::Attack(CommandAttack { target })),
    {
        NextCommand(Some(Command::Attack(CommandAttack { target })))
    }

    pub fn with_sitting() -> (r: Self)
        ensures
            r.0 == Some(Command::Sit(CommandSit::Sitting)),
    {
        NextCommand(Some(Command::Sit(CommandSit::Sitting)))
    }

    pub fn with_standing() -> (r: Self)
        ensures
            r.0 == Some(Command::Sit(CommandSit::Standing)),
    {
        NextCommand(Some(Command::Sit(CommandSit::Standing)))
    }

    /// The queued command, if any.
    pub fn get(&self) -> (r: &Option<Command>)
        ensures
            *r == self.0,
    {
        &self.0
    }

    /// Queues `command`, replacing whatever was queued before.
    pub fn set(&mut self, command: Option<Command>)
        ensures
            final(self).0 == command,
    {
        self.0 = command;
    }
}

/// Whether `command` has finished, given whether its animation has finished
/// and whether its explicit completion event has arrived: an animation-gated
/// command completes with its animation, a manually completed one with its
/// event, and a command that is neither completes at once. The steady seated
/// phase is the one command that is manually completed and not animation
/// gated: it waits for its event.
pub open spec fn is_complete(command: Command, animation_complete: bool, manual_complete: bool) -> bool {
    ||| command.spec_requires_animation_complete() && animation_complete
    ||| command.spec_is_manual_complete() && manual_complete
    ||| !command.spec_requires_animation_complete() && !command.spec_is_manual_complete()
}

/// Whether a queued command may become current. The seated phases are only
/// reached through the sitting progression, never from a queue.
pub open spec fn may_promote(next: Command) -> bool {
    next != Command::Sit(CommandSit::Sit) && next != Command::Sit(CommandSit::Standing)
}

/// One advance step on (current, queued): death is sticky and a queued death
/// is taken at once; an incomplete command stays; a complete sitting phase
/// moves on to the next phase, the last one to `Stop`, keeping the queued
/// command for the step after; any other complete command gives way to the
/// queued one, or to `Stop`.
pub open spec fn advance(
    command: Command,
    next: Option<Command>,
    animation_complete: bool,
    manual_complete: bool,
) -> (Command, Option<Command>) {
    if command is Die {
        (command, next)
    } else if next == Some(Command::Die) {
        (Command::Die, None)
    } else if !is_complete(command, animation_complete, manual_complete) {
        (command, next)
    } else if command == Command::Sit(CommandSit::Sitting) {
        (Command::Sit(CommandSit::Sit), next)
    } else if command == Command::Sit(CommandSit::Sit) {
        (
            Command::Sit(CommandSit::Standing),
            if next == Some(Command::Sit(CommandSit::Standing)) {
                None
            } else {
                next
            },
        )
    } else if command == Command::Sit(CommandSit::Standing) {
        (Command::Stop, next)
    } else {
        match next {
            Some(n) => if may_promote(n) {
                (n, None)
            } else {
                (Command::Stop, None)
            },
            None => (Command::Stop, None),
        }
    }
}

/// Runs one advance step of the command state machine of an entity.
pub fn advance_command(
    command: &mut Command,
    next_command: &mut NextCommand,
    animation_complete: bool,
    manual_complete: bool,
)
    ensures
        (*final(command), final(next_command).0) == advance(
            *old(command),
            old(next_command).0,
            animation_complete,
            manual_complete,
        ),
{
    if command.is_die() {
        return ;
    }
    if next_command.is_die() {
        *command = Command::with_die();
        next_command.set(None);
        return ;
    }
    let requires_animation = command.requires_animation_complete();
    let manual = command.is_manual_complete();
    let complete = (requires_animation && animation_complete) || (manual && manual_complete) || (
    !requires_animation && !manual);
    if !complete {
        return ;
    }
    if command.is_sitting() {
        *command = Command::with_sit();
    } else if command.is_sit() {
        *command = Command::with_standing();
        if matches!(next_command.0, Some(Command::Sit(CommandSit::Standing))) {
            next_command.set(None);
        }
    } else if matches!(command, Command::Sit(CommandSit::Standing)) {
        *command = Command::with_stop();
    } else {
        let queued = next_command.0;
        next_command.set(None);
        *command = match queued {
            Some(Command::Sit(CommandSit::Sit)) => Command::with_stop(),
            Some(Command::Sit(CommandSit::Standing)) => Command::with_stop(),
            Some(n) => n,
            None => Command::with_stop(),
        };
    }
}

/// An advance step on an incomplete command changes nothing, so repeating it
/// changes nothing either, unless a death is queued.
pub proof fn lemma_advance_idempotent_when_incomplete(
    command: Command,
    next: Option<Command>,
    manual_complete: bool,
)
    requires
        !is_complete(command, false, manual_complete),
        next != Some(Command::Die),
    ensures
        advance(command, next, false, manual_complete) == (command, next),
        advance(
            advance(command, next, false, manual_complete).0,
            advance(command, next, false, manual_complete).1,
            false,
            manual_complete,
        ) == advance(command, next, false, manual_complete),
{
}

/// The seated phases are entered only in order: `Sit` only from `Sitting` (or
/// itself), `Standing` only from `Sit` (or itself), and a step never jumps
/// from outside the sitting family straight to `Sit` or `Standing`; and
/// `Standing` is left only for `Stop`, or by death.
pub proof fn lemma_sit_progression(
    command: Command,
    next: Option<Command>,
    animation_complete: bool,
    manual_complete: bool,
)
    ensures
        ({
            let after = advance(command, next, animation_complete, manual_complete).0;
            &&& after == Command::Sit(CommandSit::Sit) ==> (command == Command::Sit(
                CommandSit::Sitting,
            ) || command == Command::Sit(CommandSit::Sit))
            &&& after == Command::Sit(CommandSit::Standing) ==> (command == Command::Sit(
                CommandSit::Sit,
            ) || command == Command::Sit(CommandSit::Standing))
            &&& command == Command::Sit(CommandSit::Sitting) ==> (after == command || after
                == Command::Sit(CommandSit::Sit) || after is Die)
            &&& command == Command::Sit(CommandSit::Sit) ==> (after == command || after
                == Command::Sit(CommandSit::Standing) || after is Die)
            &&& command == Command::Sit(CommandSit::Standing) ==> (after == command || after
                == Command::Stop || after is Die)
        }),
{
}

} // verus!
