//! The player's jump state from one step of the simulation to the next: ground contact,
//! coyote time and the jump buffer.
//!
//! Each function here is one rule of a step. [`fixed_update`] runs them in the order in which
//! a step applies them.

use crate::ground::{grounded, ground_hit, ProbeHit};
use crate::input::PlayerInput;
use crate::movement::{movement, decide, Footing, Jump, Movement};
use crate::timer::{Timer, TimerMode};
use crate::walls::{find_walls, wall_contacts, Contact, WallContacts};
use vstd::prelude::*;

verus! {

/// How long after leaving the ground a jump is still accepted: a tenth of a second.
pub const COYOTE_TIME_NANOS: u64 = 100_000_000;

/// How long a jump that was asked for in the air is remembered: a tenth of a second.
pub const JUMP_BUFFER_NANOS: u64 = 100_000_000;

/// What the last look at the ground changed.
#[derive(Clone, Copy, Debug, PartialEq, Eq, Structural)]
pub enum GroundChange {
    /// The player was in the air and stands now.
    Landed,
    /// The player stood and is in the air now.
    Left,
    /// Nothing changed.
    Same,
}

/// The change from `was` to `now`.
pub open spec fn ground_change(was: bool, now: bool) -> GroundChange {
    if was && !now {
        GroundChange::Left
    } else if !was && now {
        GroundChange::Landed
    } else {
        GroundChange::Same
    }
}

/// A running timer, given by the nanoseconds it has counted, after `delta` more: it goes on
/// below `duration` and is gone from there on.
pub open spec fn ticked(timer: Option<nat>, delta: nat, duration: nat) -> Option<nat> {
    match timer {
        Some(elapsed) if elapsed + delta < duration => Some(elapsed + delta),
        _ => None,
    }
}

/// The mathematical state of a [`PlayerState`]. A timer that runs is given by the
/// nanoseconds it has counted.
pub struct PlayerView {
    pub grounded: bool,
    pub change: GroundChange,
    pub walls: WallContacts,
    pub coyote: Option<nat>,
    pub jump_buffer: Option<nat>,
}

/// What one step of the simulation feeds into the rules.
pub struct Step {
    /// True when the ground probe finds ground in this step.
    pub grounded: bool,
    /// The walls that the player touches in this step.
    pub walls: WallContacts,
    /// The nanoseconds since the step before.
    pub delta: nat,
    /// The player's input at this step.
    pub input: PlayerInput,
}

impl PlayerView {
    /// A player in the air that touches nothing and has no timer running.
    pub open spec fn spawned() -> PlayerView {
        PlayerView {
            grounded: false,
            change: GroundChange::Same,
            walls: WallContacts { left: false, right: false },
            coyote: None,
            jump_buffer: None,
        }
    }

    /// What the movement rules read of the player.
    pub open spec fn footing(self) -> Footing {
        Footing {
            grounded: self.grounded,
            coyote: self.coyote is Some,
            jump_buffer: self.jump_buffer is Some,
            walls: self.walls,
        }
    }

    /// After a look at the ground.
    pub open spec fn update_grounded(self, now: bool) -> PlayerView {
        PlayerView { grounded: now, change: ground_change(self.grounded, now), ..self }
    }

    /// After a look at the walls.
    pub open spec fn update_wall_contact(self, walls: WallContacts) -> PlayerView {
        PlayerView { walls, ..self }
    }

    /// Leaving the ground starts the coyote timer.
    pub open spec fn start_coyote_timer(self) -> PlayerView {
        if self.change == GroundChange::Left {
            PlayerView { coyote: Some(0), ..self }
        } else {
            self
        }
    }

    /// Landing ends the coyote timer.
    pub open spec fn clear_coyote_timer(self) -> PlayerView {
        if self.change == GroundChange::Landed {
            PlayerView { coyote: None, ..self }
        } else {
            self
        }
    }

    /// The coyote timer runs on, or runs out.
    pub open spec fn tick_coyote_timer(self, delta: nat) -> PlayerView {
        PlayerView { coyote: ticked(self.coyote, delta, COYOTE_TIME_NANOS as nat), ..self }
    }

    /// The jump buffer runs on, or runs out.
    pub open spec fn tick_jump_buffer(self, delta: nat) -> PlayerView {
        PlayerView { jump_buffer: ticked(self.jump_buffer, delta, JUMP_BUFFER_NANOS as nat), ..self }
    }

    /// What the player does on the given input.
    pub open spec fn movement(self, input: PlayerInput) -> Movement {
        movement(input, self.footing())
    }

    /// After the movement rules: a leap uses up both timers, a press in vain starts the jump
    /// buffer anew.
    pub open spec fn apply_player_movement(self, input: PlayerInput) -> PlayerView {
        match self.movement(input).jump {
            Jump::Leap => PlayerView { coyote: None, jump_buffer: None, ..self },
            Jump::Buffer => PlayerView { jump_buffer: Some(0), ..self },
            Jump::Nothing => self,
        }
    }

    /// The player as the movement rules find it in a step: the timers that ran before the
    /// step have been advanced, then the ground and the walls have been looked at.
    pub open spec fn before_movement(self, step: Step) -> PlayerView {
        self.update_grounded(step.grounded).update_wall_contact(step.walls).tick_coyote_timer(
            step.delta,
        ).tick_jump_buffer(step.delta).start_coyote_timer().clear_coyote_timer()
    }

    /// The player after a whole step.
    pub open spec fn fixed_update(self, step: Step) -> PlayerView {
        self.before_movement(step).apply_player_movement(step.input)
    }

    /// What the player does in a step.
    pub open spec fn step_movement(self, step: Step) -> Movement {
        self.before_movement(step).movement(step.input)
    }

    /// The player after a sequence of steps.
    pub open spec fn run(self, steps: Seq<Step>) -> PlayerView
        decreases steps.len(),
    {
        if steps.len() == 0 {
            self
        } else {
            self.run(steps.drop_last()).fixed_update(steps.last())
        }
    }

    /// What holds of a player at any time: the timers run below their durations, and no
    /// coyote timer runs while the player stands.
    pub open spec fn wf(self) -> bool {
        &&& self.coyote matches Some(elapsed) ==> elapsed < COYOTE_TIME_NANOS
        &&& self.jump_buffer matches Some(elapsed) ==> elapsed < JUMP_BUFFER_NANOS
        &&& self.grounded ==> self.coyote is None
    }
}

/// The jump state of the player.
#[derive(Clone, Copy, Debug)]
pub struct PlayerState {
    grounded: bool,
    change: GroundChange,
    walls: WallContacts,
    coyote: Option<Timer>,
    jump_buffer: Option<Timer>,
}

/// The nanoseconds counted by a timer that may be there.
pub open spec fn elapsed_of(timer: Option<Timer>) -> Option<nat> {
    match timer {
        Some(timer) => Some(timer@.elapsed),
        None => None,
    }
}

impl View for PlayerState {
    type V = PlayerView;

    closed spec fn view(&self) -> PlayerView {
        PlayerView {
            grounded: self.grounded,
            change: self.change,
            walls: self.walls,
            coyote: elapsed_of(self.coyote),
            jump_buffer: elapsed_of(self.jump_buffer),
        }
    }
}

impl PlayerState {
    #[verifier::type_invariant]
    spec fn inv(self) -> bool {
        &&& self.coyote matches Some(timer) ==> timer@.is_running(
            COYOTE_TIME_NANOS as nat,
            timer@.elapsed,
        )
        &&& self.jump_buffer matches Some(timer) ==> timer@.is_running(
            JUMP_BUFFER_NANOS as nat,
            timer@.elapsed,
        )
    }

    /// A player in the air that touches nothing and has no timer running.
    pub fn new() -> (player: PlayerState)
        ensures
            player@ == PlayerView::spawned(),
    {
        PlayerState {
            grounded: false,
            change: GroundChange::Same,
            walls: WallContacts { left: false, right: false },
            coyote: None,
            jump_buffer: None,
        }
    }

    /// True when the player stands on ground.
    pub fn is_grounded(&self) -> (b: bool)
        ensures
            b == self@.grounded,
    {
        self.grounded
    }

    /// What the last look at the ground changed.
    pub fn ground_change(&self) -> (change: GroundChange)
        ensures
            change == self@.change,
    {
        self.change
    }

    /// The walls that the player touches.
    pub fn walls(&self) -> (walls: WallContacts)
        ensures
            walls == self@.walls,
    {
        self.walls
    }

    /// The nanoseconds counted by the coyote timer, while it runs.
    pub fn coyote_nanos(&self) -> (elapsed: Option<u64>)
        ensures
            elapsed is Some == self@.coyote is Some,
            elapsed matches Some(nanos) ==> self@.coyote == Some(nanos as nat),
    {
        match self.coyote {
            Some(timer) => Some(timer.elapsed_nanos()),
            None => None,
        }
    }

    /// The nanoseconds counted by the jump buffer, while it runs.
    pub fn jump_buffer_nanos(&self) -> (elapsed: Option<u64>)
        ensures
            elapsed is Some == self@.jump_buffer is Some,
            elapsed matches Some(nanos) ==> self@.jump_buffer == Some(nanos as nat),
    {
        match self.jump_buffer {
            Some(timer) => Some(timer.elapsed_nanos()),
            None => None,
        }
    }

    /// What the movement rules read of the player.
    pub fn footing(&self) -> (footing: Footing)
        ensures
            footing == self@.footing(),
    {
        Footing {
            grounded: self.grounded,
            coyote: self.coyote.is_some(),
            jump_buffer: self.jump_buffer.is_some(),
            walls: self.walls,
        }
    }
}

/// Advances a running one-shot timer; `None` when it ran out in this tick.
fn tick_running(timer: Timer, delta_nanos: u64, duration: u64) -> (next: Option<Timer>)
    requires
        timer@.is_running(duration as nat, timer@.elapsed),
    ensures
        elapsed_of(next) == ticked(Some(timer@.elapsed), delta_nanos as nat, duration as nat),
        next matches Some(t) ==> t@.is_running(duration as nat, t@.elapsed),
{
    let mut timer = timer;
    timer.tick(delta_nanos);
    if timer.just_finished() {
        None
    } else {
        Some(timer)
    }
}

/// Looks at the ground: the player is grounded when the probe hit a surface that is no
/// sensor and faces upwards. The change is kept for the rules of the coyote timer.
pub fn update_grounded(player: &mut PlayerState, hits: &Vec<ProbeHit>)
    ensures
        final(player)@ == old(player)@.update_grounded(grounded(hits@)),
{
    proof {
        use_type_invariant(&*player);
    }
    let now = ground_hit(hits).is_some();
    let change = if player.grounded && !now {
        GroundChange::Left
    } else if !player.grounded && now {
        GroundChange::Landed
    } else {
        GroundChange::Same
    };
    player.grounded = now;
    player.change = change;
}

/// Looks at the walls that the player touches.
pub fn update_wall_contact(player: &mut PlayerState, contacts: &Vec<Contact>)
    ensures
        final(player)@ == old(player)@.update_wall_contact(wall_contacts(contacts@)),
{
    proof {
        use_type_invariant(&*player);
    }
    player.walls = find_walls(contacts);
}

/// Starts the coyote timer when the player has just left the ground.
pub fn start_coyote_timer(player: &mut PlayerState)
    ensures
        final(player)@ == old(player)@.start_coyote_timer(),
{
    proof {
        use_type_invariant(&*player);
    }
    if player.change == GroundChange::Left {
        player.coyote = Some(Timer::new(COYOTE_TIME_NANOS, TimerMode::Once));
    }
}

/// Ends the coyote timer when the player has just landed.
pub fn clear_coyote_timer(player: &mut PlayerState)
    ensures
        final(player)@ == old(player)@.clear_coyote_timer(),
{
    proof {
        use_type_invariant(&*player);
    }
    if player.change == GroundChange::Landed {
        player.coyote = None;
    }
}

/// Advances the coyote timer and removes it when it runs out.
pub fn tick_coyote_timer(player: &mut PlayerState, delta_nanos: u64)
    ensures
        final(player)@ == old(player)@.tick_coyote_timer(delta_nanos as nat),
{
    proof {
        use_type_invariant(&*player);
    }
    if let Some(timer) = player.coyote {
        player.coyote = tick_running(timer, delta_nanos, COYOTE_TIME_NANOS);
    }
}

/// Advances the jump buffer and removes it when it runs out.
pub fn tick_jump_buffer(player: &mut PlayerState, delta_nanos: u64)
    ensures
        final(player)@ == old(player)@.tick_jump_buffer(delta_nanos as nat),
{
    proof {
        use_type_invariant(&*player);
    }
    if let Some(timer) = player.jump_buffer {
        player.jump_buffer = tick_running(timer, delta_nanos, JUMP_BUFFER_NANOS);
    }
}

/// Decides what the player does in this step, clears the jump request, and lets the timers
/// follow: a leap uses up the coyote timer and the jump buffer, and a jump that was asked
/// for in vain starts the jump buffer anew.
pub fn apply_player_movement(player: &mut PlayerState, input: &mut PlayerInput) -> (outcome:
    Movement)
    ensures
        outcome == old(player)@.movement(*old(input)),
        final(player)@ == old(player)@.apply_player_movement(*old(input)),
        final(input).movement_direction == old(input).movement_direction,
        !final(input).jump_requested,
{
    proof {
        use_type_invariant(&*player);
    }
    let outcome = decide(input, player.footing());
    match outcome.jump {
        Jump::Leap => {
            player.coyote = None;
            player.jump_buffer = None;
        },
        Jump::Buffer => {
            player.jump_buffer = Some(Timer::new(JUMP_BUFFER_NANOS, TimerMode::Once));
        },
        Jump::Nothing => {},
    }
    outcome
}

/// Runs one step of the player's rules, `delta_nanos` nanoseconds after the step before.
///
/// The timers that ran before the step are advanced first, so that a timer started by this
/// step has its whole duration ahead of it when the movement rules look at it.
pub fn fixed_update(
    player: &mut PlayerState,
    hits: &Vec<ProbeHit>,
    contacts: &Vec<Contact>,
    delta_nanos: u64,
    input: &mut PlayerInput,
) -> (outcome: Movement)
    ensures
        ({
            let step = Step {
                grounded: grounded(hits@),
                walls: wall_contacts(contacts@),
                delta: delta_nanos as nat,
                input: *old(input),
            };
            &&& outcome == old(player)@.step_movement(step)
            &&& final(player)@ == old(player)@.fixed_update(step)
        }),
        final(input).movement_direction == old(input).movement_direction,
        !final(input).jump_requested,
{
    update_grounded(player, hits);
    update_wall_contact(player, contacts);
    tick_coyote_timer(player, delta_nanos);
    tick_jump_buffer(player, delta_nanos);
    start_coyote_timer(player);
    clear_coyote_timer(player);
    apply_player_movement(player, input)
}

/// The nanoseconds that a sequence of steps takes.
pub open spec fn total_delta(steps: Seq<Step>) -> nat
    decreases steps.len(),
{
    if steps.len() == 0 {
        0
    } else {
        total_delta(steps.drop_last()) + steps.last().delta
    }
}

/// True when every step is in the air, and every step but the last is without a jump request.
pub open spec fn in_the_air(steps: Seq<Step>) -> bool {
    &&& forall|i: int| 0 <= i < steps.len() ==> !(#[trigger] steps[i]).grounded
    &&& forall|i: int| 0 <= i < steps.len() - 1 ==> !(#[trigger] steps[i]).input.jump_requested
}

/// A freshly spawned player is well formed.
pub proof fn lemma_spawned_is_wf()
    ensures
        PlayerView::spawned().wf(),
{
}

/// A step keeps the player well formed.
pub proof fn lemma_step_keeps_wf(player: PlayerView, step: Step)
    requires
        player.wf(),
    ensures
        player.fixed_update(step).wf(),
{
}

/// Any number of steps keeps the player well formed.
pub proof fn lemma_run_keeps_wf(player: PlayerView, steps: Seq<Step>)
    requires
        player.wf(),
    ensures
        player.run(steps).wf(),
    decreases steps.len(),
{
    if steps.len() > 0 {
        lemma_run_keeps_wf(player, steps.drop_last());
        lemma_step_keeps_wf(player.run(steps.drop_last()), steps.last());
    }
}

/// The time of a sequence of steps without its first is the time of the sequence without
/// its first and last, and the time of the last.
proof fn lemma_total_delta_of_tail(steps: Seq<Step>)
    requires
        steps.len() >= 2,
    ensures
        total_delta(steps.drop_first()) == total_delta(steps.drop_last().drop_first())
            + steps.last().delta,
{
    assert(steps.drop_first().drop_last() == steps.drop_last().drop_first());
    assert(steps.drop_first().last() == steps.last());
}

/// After leaving the ground without asking for a jump, the coyote timer shows the time
/// since the step in which the player left, for as long as that is below the coyote time.
proof fn lemma_coyote_runs(player: PlayerView, steps: Seq<Step>)
    requires
        player.wf(),
        player.grounded,
        player.jump_buffer is None,
        steps.len() > 0,
        in_the_air(steps),
        !steps.last().input.jump_requested,
    ensures
        !player.run(steps).grounded,
        player.run(steps).jump_buffer is None,
        player.run(steps).coyote == (if total_delta(steps.drop_first()) < COYOTE_TIME_NANOS {
            Some(total_delta(steps.drop_first()))
        } else {
            None
        }),
    decreases steps.len(),
{
    let before = steps.drop_last();
    if steps.len() == 1 {
        assert(before.len() == 0);
        assert(player.run(before) == player);
        assert(steps.drop_first().len() == 0);
    } else {
        assert(in_the_air(before));
        lemma_coyote_runs(player, before);
        lemma_total_delta_of_tail(steps);
    }
}

/// Coyote time. A player that stood, left the ground and asks for a jump only now leaps if
/// less than the coyote time has passed since the step in which it left the ground, and has
/// the press buffered otherwise. The press may come in the very step of leaving.
pub proof fn lemma_coyote_time(player: PlayerView, steps: Seq<Step>)
    requires
        player.wf(),
        player.grounded,
        player.jump_buffer is None,
        steps.len() > 0,
        in_the_air(steps),
        steps.last().input.jump_requested,
    ensures
        player.run(steps.drop_last()).step_movement(steps.last()).jump == (if total_delta(
            steps.drop_first(),
        ) < COYOTE_TIME_NANOS {
            Jump::Leap
        } else {
            Jump::Buffer
        }),
{
    let before = steps.drop_last();
    if steps.len() == 1 {
        assert(before.len() == 0);
        assert(player.run(before) == player);
        assert(steps.drop_first().len() == 0);
    } else {
        assert(in_the_air(before));
        lemma_coyote_runs(player, before);
        lemma_total_delta_of_tail(steps);
    }
}

/// True when the first step is a press in the air and the steps after it are in the air and
/// without a jump request.
pub open spec fn pressed_in_the_air(steps: Seq<Step>) -> bool {
    &&& steps.len() > 0
    &&& steps[0].input.jump_requested
    &&& forall|i: int| 0 <= i < steps.len() ==> !(#[trigger] steps[i]).grounded
    &&& forall|i: int| 1 <= i < steps.len() ==> !(#[trigger] steps[i]).input.jump_requested
}

/// After a press in the air, outside coyote time, the jump buffer shows the time since the
/// step of the press, for as long as that is below the buffer time.
proof fn lemma_buffer_runs(player: PlayerView, steps: Seq<Step>)
    requires
        player.wf(),
        !player.grounded,
        player.coyote is None,
        pressed_in_the_air(steps),
    ensures
        !player.run(steps).grounded,
        player.run(steps).coyote is None,
        player.run(steps).jump_buffer == (if total_delta(steps.drop_first()) < JUMP_BUFFER_NANOS {
            Some(total_delta(steps.drop_first()))
        } else {
            None
        }),
    decreases steps.len(),
{
    let before = steps.drop_last();
    if steps.len() == 1 {
        assert(before.len() == 0);
        assert(player.run(before) == player);
        assert(steps.drop_first().len() == 0);
    } else {
        assert(pressed_in_the_air(before)) by {
            assert(before[0] == steps[0]);
        }
        lemma_buffer_runs(player, before);
        lemma_total_delta_of_tail(steps);
    }
}

/// Jump buffering. A player that asks for a jump in the air, outside coyote time, and lands
/// some steps later leaps in the step of landing, without a new press, if less than the
/// buffer time has passed since the step of the press; otherwise nothing happens.
pub proof fn lemma_jump_buffer(player: PlayerView, steps: Seq<Step>, landing: Step)
    requires
        player.wf(),
        !player.grounded,
        player.coyote is None,
        pressed_in_the_air(steps),
        landing.grounded,
        !landing.input.jump_requested,
    ensures
        player.run(steps).step_movement(landing).jump == (if total_delta(steps.drop_first())
            + landing.delta < JUMP_BUFFER_NANOS {
            Jump::Leap
        } else {
            Jump::Nothing
        }),
{
    lemma_buffer_runs(player, steps);
}

} // verus!
