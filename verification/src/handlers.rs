//! The rules that decide, for each message, whether its author catches the infection,
//! is cured of it, or stays as they are.
//!
//! The functions here decide and describe; they touch neither the store nor the chat
//! platform. A decision comes back as a `Transition`, which the caller applies: first
//! the player's new state, then the audit record, then the role.

use crate::config::GameConfig;
use crate::models::{stamp, stamp_of, InfectionEvent, InfectionRecord, InfectionRecordView, Player};
use crate::text::{proximity_reason, proximity_text, threshold_reason, threshold_text, timeout_reason, timeout_text};
use vstd::prelude::*;

verus! {

/// What is to be done with the infected role of a player on the chat platform.
#[derive(Clone, Copy, Debug, PartialEq, Eq, Structural)]
pub enum RoleSync {
    AddRole,
    RemoveRole,
}

/// Why an infected player is cured by a message.
#[derive(Clone, Copy, Debug, PartialEq, Eq, Structural)]
pub enum CureReason {
    /// The player has sent more counted messages than the threshold since the infection.
    MessageThreshold,
    /// The infection has lasted longer than the timeout.
    Timeout,
}

/// A change of a player's state, with everything that goes with it.
#[derive(Clone, Debug)]
pub struct Transition {
    /// The player's infected flag from now on.
    pub infected: bool,
    /// The player's new last action, where the change sets one.
    pub last_action: Option<i64>,
    /// The one audit record of the change.
    pub record: InfectionRecord,
    /// What to do with the player's role.
    pub role: RoleSync,
}

/// What a `Transition` holds, with the texts of its record as sequences of characters.
pub struct TransitionView {
    pub infected: bool,
    pub last_action: Option<i64>,
    pub record: InfectionRecordView,
    pub role: RoleSync,
}

impl View for Transition {
    type V = TransitionView;

    open spec fn view(&self) -> TransitionView {
        TransitionView {
            infected: self.infected,
            last_action: self.last_action,
            record: self.record@,
            role: self.role,
        }
    }
}

/// The view of a transition that may be absent.
pub open spec fn view_of(t: Option<Transition>) -> Option<TransitionView> {
    match t {
        Some(x) => Some(x@),
        None => None,
    }
}

/// The author of the message that came just before the current one in a channel, as
/// the store and the chat platform know them.
#[derive(Clone, Debug)]
pub struct Predecessor {
    /// The player's id in decimal digits.
    pub id: String,
    /// The stored infected flag; `false` for a player the store does not know.
    pub infected: bool,
    /// The player's roles on the chat platform.
    pub roles: Vec<u64>,
    /// When the player last infected someone, if ever.
    pub last_sourced: Option<i64>,
}

/// More than `limit` seconds lie between `since` and `now`.
pub open spec fn elapsed_more_than(now: u64, since: i64, limit: u64) -> bool {
    now - since > limit
}

/// Whether more than `limit` seconds lie between `since` and `now`.
pub fn has_elapsed(now: u64, since: i64, limit: u64) -> (yes: bool)
    ensures
        yes == elapsed_more_than(now, since, limit),
{
    now as i128 - since as i128 > limit as i128
}

/// Whether, and why, a message cures its infected author. The counted messages come
/// first: the timeout is looked at only when they do not suffice.
pub open spec fn cure_due(
    sanitized: i64,
    sanitized_at_infection: i64,
    infected_at: i64,
    now: u64,
    config: GameConfig,
) -> Option<CureReason> {
    if sanitized - sanitized_at_infection > config.cure_threshold {
        Some(CureReason::MessageThreshold)
    } else if config.cure_timeout is Some && elapsed_more_than(
        now,
        infected_at,
        config.cure_timeout->0,
    ) {
        Some(CureReason::Timeout)
    } else {
        None
    }
}

/// The text that a cure for `reason` is recorded with.
pub open spec fn cure_text(reason: CureReason, config: GameConfig) -> Seq<char> {
    match reason {
        CureReason::MessageThreshold => threshold_text(config.cure_threshold),
        CureReason::Timeout => timeout_text(config.cure_timeout->0),
    }
}

/// The cure of `player` at `now`: the flag is cleared, the role goes, and the record
/// names no source.
pub open spec fn cure_transition(player: Player, text: Seq<char>, now: u64) -> TransitionView {
    TransitionView {
        infected: false,
        last_action: None,
        record: InfectionRecordView {
            event: InfectionEvent::Cured,
            target: player.id@,
            source: None,
            reason: Some(text),
            recorded_at: stamp_of(now),
            target_total_messages: player.total_messages,
            target_sanitized_messages: player.sanitized_messages,
        },
        role: RoleSync::RemoveRole,
    }
}

/// The infection of `player` at `now` by the author of the message before theirs.
pub open spec fn proximity_transition(player: Player, source: Seq<char>, now: u64) -> TransitionView {
    TransitionView {
        infected: true,
        last_action: None,
        record: InfectionRecordView {
            event: InfectionEvent::Infected,
            target: player.id@,
            source: Some(source),
            reason: Some(proximity_text(source)),
            recorded_at: stamp_of(now),
            target_total_messages: player.total_messages,
            target_sanitized_messages: player.sanitized_messages,
        },
        role: RoleSync::AddRole,
    }
}

/// What a message does to its infected author, given the record of their infection.
pub open spec fn cure_outcome(player: Player, baseline: InfectionRecord, now: u64, config: GameConfig) -> Option<
    TransitionView,
> {
    match cure_due(
        player.sanitized_messages,
        baseline.target_sanitized_messages,
        baseline.recorded_at,
        now,
        config,
    ) {
        Some(reason) => Some(cure_transition(player, cure_text(reason, config), now)),
        None => None,
    }
}

/// The previous author passes the infection on: they are infected or a carrier, and
/// the last infection they caused, if any, is more than the cooldown ago.
pub open spec fn can_infect(previous: Predecessor, now: u64, config: GameConfig) -> bool {
    &&& previous.infected || config.carrier(previous.roles@)
    &&& match previous.last_sourced {
        Some(at) => elapsed_more_than(now, at, config.infection_cooldown as u64),
        None => true,
    }
}

/// A healthy author catches the infection: there was a message before theirs, written
/// by someone else who passes the infection on, and the author is not immune.
pub open spec fn should_infect(
    author: Player,
    author_roles: Seq<u64>,
    previous: Option<Predecessor>,
    now: u64,
    config: GameConfig,
) -> bool {
    &&& !author.infected
    &&& !config.immune(author_roles)
    &&& previous is Some
    &&& previous->0.id@ != author.id@
    &&& can_infect(previous->0, now, config)
}

/// What a message does to its author. An infected author can only be cured, and only
/// if the record of their infection is at hand; a healthy author can only be infected.
pub open spec fn message_outcome(
    author: Player,
    author_roles: Seq<u64>,
    previous: Option<Predecessor>,
    baseline: Option<InfectionRecord>,
    now: u64,
    config: GameConfig,
) -> Option<TransitionView> {
    if author.infected {
        match baseline {
            Some(b) => cure_outcome(author, b, now, config),
            None => None,
        }
    } else if should_infect(author, author_roles, previous, now, config) {
        Some(proximity_transition(author, previous->0.id@, now))
    } else {
        None
    }
}

/// Decides whether, and why, a message cures its infected author.
pub fn cure_reason(
    sanitized: i64,
    sanitized_at_infection: i64,
    infected_at: i64,
    now: u64,
    config: &GameConfig,
) -> (reason: Option<CureReason>)
    ensures
        reason == cure_due(sanitized, sanitized_at_infection, infected_at, now, *config),
{
    if sanitized as i128 - sanitized_at_infection as i128 > config.cure_threshold as i128 {
        return Some(CureReason::MessageThreshold);
    }
    match config.cure_timeout {
        Some(timeout) => {
            if has_elapsed(now, infected_at, timeout) {
                Some(CureReason::Timeout)
            } else {
                None
            }
        },
        None => None,
    }
}

/// Decides what a message does to its infected author `player`, whose counts include
/// the message. `baseline` is the record of the player's most recent infection.
pub fn check_cure(player: &Player, baseline: &InfectionRecord, now: u64, config: &GameConfig) -> (t:
    Option<Transition>)
    ensures
        view_of(t) == cure_outcome(*player, *baseline, now, *config),
{
    let reason = cure_reason(
        player.sanitized_messages,
        baseline.target_sanitized_messages,
        baseline.recorded_at,
        now,
        config,
    );
    let text = match reason {
        Some(CureReason::MessageThreshold) => threshold_reason(config.cure_threshold),
        Some(CureReason::Timeout) => {
            match config.cure_timeout {
                Some(timeout) => timeout_reason(timeout),
                None => {
                    return None;
                },
            }
        },
        None => {
            return None;
        },
    };
    Some(
        Transition {
            infected: false,
            last_action: None,
            record: InfectionRecord {
                event: InfectionEvent::Cured,
                target: player.id.clone(),
                source: None,
                reason: Some(text),
                recorded_at: stamp(now),
                target_total_messages: player.total_messages,
                target_sanitized_messages: player.sanitized_messages,
            },
            role: RoleSync::RemoveRole,
        },
    )
}

/// Decides whether the previous author passes the infection on.
pub fn passes_on(previous: &Predecessor, now: u64, config: &GameConfig) -> (yes: bool)
    ensures
        yes == can_infect(*previous, now, *config),
{
    if !previous.infected && !config.is_carrier(&previous.roles) {
        return false;
    }
    match previous.last_sourced {
        Some(at) => has_elapsed(now, at, config.infection_cooldown as u64),
        None => true,
    }
}

/// Decides what a message does to its author.
///
/// `author` is the author's state with the message counted, `previous` the author of
/// the message that came just before it in the channel (`None` if there was none), and
/// `baseline` the record of the author's most recent infection, which is only looked
/// at for an infected author.
pub fn new_message(
    author: &Player,
    author_roles: &Vec<u64>,
    previous: Option<&Predecessor>,
    baseline: Option<&InfectionRecord>,
    now: u64,
    config: &GameConfig,
) -> (t: Option<Transition>)
    ensures
        view_of(t) == message_outcome(
            *author,
            author_roles@,
            match previous {
                Some(p) => Some(*p),
                None => None,
            },
            match baseline {
                Some(b) => Some(*b),
                None => None,
            },
            now,
            *config,
        ),
{
    if author.infected {
        return match baseline {
            Some(b) => check_cure(author, b, now, config),
            None => None,
        };
    }
    let source = match previous {
        Some(p) => p,
        None => {
            return None;
        },
    };
    if config.is_immune(author_roles) || source.id == author.id || !passes_on(source, now, config) {
        return None;
    }
    Some(
        Transition {
            infected: true,
            last_action: None,
            record: InfectionRecord {
                event: InfectionEvent::Infected,
                target: author.id.clone(),
                source: Some(source.id.clone()),
                reason: Some(proximity_reason(&source.id)),
                recorded_at: stamp(now),
                target_total_messages: author.total_messages,
                target_sanitized_messages: author.sanitized_messages,
            },
            role: RoleSync::AddRole,
        },
    )
}

/// Why a transition could not be carried out in full.
#[derive(Clone, Copy, Debug, PartialEq, Eq, Structural)]
pub enum EngineError {
    /// The store did not take the player's new state or the audit record. Nothing that
    /// comes after the failed step has been done.
    StoreUnavailable,
    /// The chat platform did not take the role change. The player's state and the
    /// audit record stay as written.
    RoleSyncFailed,
}

/// One step in carrying out a transition.
#[derive(Clone, Copy, Debug, PartialEq, Eq, Structural)]
pub enum Step {
    /// Write the player's new state to the store.
    SetInfected,
    /// Append the audit record.
    AppendRecord,
    /// Give or take the role on the chat platform.
    SyncRole,
}

/// What follows a step.
#[derive(Clone, Copy, Debug, PartialEq, Eq, Structural)]
pub enum Progress {
    Next(Step),
    Finished,
    Failed(EngineError),
}

/// What follows the step `done`, which succeeded or not: the steps come in the order
/// state, record, role, and the first failure ends the run.
pub open spec fn following(done: Step, succeeded: bool) -> Progress {
    match done {
        Step::SetInfected => if succeeded {
            Progress::Next(Step::AppendRecord)
        } else {
            Progress::Failed(EngineError::StoreUnavailable)
        },
        Step::AppendRecord => if succeeded {
            Progress::Next(Step::SyncRole)
        } else {
            Progress::Failed(EngineError::StoreUnavailable)
        },
        Step::SyncRole => if succeeded {
            Progress::Finished
        } else {
            Progress::Failed(EngineError::RoleSyncFailed)
        },
    }
}

/// The step that carrying out a transition begins with.
pub fn first_step() -> (step: Step)
    ensures
        step == Step::SetInfected,
{
    Step::SetInfected
}

/// Decides what follows a step of carrying out a transition.
pub fn advance(done: Step, succeeded: bool) -> (progress: Progress)
    ensures
        progress == following(done, succeeded),
{
    match done {
        Step::SetInfected => if succeeded {
            Progress::Next(Step::AppendRecord)
        } else {
            Progress::Failed(EngineError::StoreUnavailable)
        },
        Step::AppendRecord => if succeeded {
            Progress::Next(Step::SyncRole)
        } else {
            Progress::Failed(EngineError::StoreUnavailable)
        },
        Step::SyncRole => if succeeded {
            Progress::Finished
        } else {
            Progress::Failed(EngineError::RoleSyncFailed)
        },
    }
}

/// The steps that are taken, beginning with `step`, when the steps succeed or fail as
/// `outcomes` says, one outcome for each step taken.
pub open spec fn steps_taken(step: Step, outcomes: Seq<bool>) -> Seq<Step>
    decreases outcomes.len(),
{
    if outcomes.len() == 0 {
        Seq::empty()
    } else {
        match following(step, outcomes[0]) {
            Progress::Next(next) => seq![step] + steps_taken(next, outcomes.drop_first()),
            _ => seq![step],
        }
    }
}

/// The audit record is appended only after the state was written, and the role is
/// changed only after both were written: whatever the outcomes of the steps, a step is
/// taken only if every step before it succeeded. No step is taken twice.
pub proof fn law_no_step_after_a_failure(outcomes: Seq<bool>)
    ensures
        ({
            let taken = steps_taken(Step::SetInfected, outcomes);
            &&& taken.len() <= 3
            &&& taken.len() <= outcomes.len()
            &&& taken.len() >= 1 ==> taken[0] == Step::SetInfected
            &&& taken.len() >= 2 ==> taken[1] == Step::AppendRecord && outcomes[0]
            &&& taken.len() >= 3 ==> taken[2] == Step::SyncRole && outcomes[0] && outcomes[1]
        }),
{
    reveal_with_fuel(steps_taken, 4);
    if outcomes.len() >= 2 {
        assert(outcomes.drop_first()[0] == outcomes[1]);
    }
}

/// An immune author is never infected by a message, whoever wrote the one before.
pub proof fn law_immune_never_infected(
    author: Player,
    author_roles: Seq<u64>,
    previous: Option<Predecessor>,
    baseline: Option<InfectionRecord>,
    now: u64,
    config: GameConfig,
)
    requires
        config.immune(author_roles),
    ensures
        !should_infect(author, author_roles, previous, now, config),
        match message_outcome(author, author_roles, previous, baseline, now, config) {
            Some(t) => !t.infected && t.record.event == InfectionEvent::Cured,
            None => true,
        },
{
}

/// A message changes its author's state or leaves it alone, and never confirms it: an
/// infected author is at most cured, a healthy one at most infected. A cure clears the
/// flag and takes the role away; an infection sets the flag and gives the role.
pub proof fn law_transitions_change_state(
    author: Player,
    author_roles: Seq<u64>,
    previous: Option<Predecessor>,
    baseline: Option<InfectionRecord>,
    now: u64,
    config: GameConfig,
)
    ensures
        match message_outcome(author, author_roles, previous, baseline, now, config) {
            Some(t) => {
                &&& t.infected == !author.infected
                &&& t.record.target == author.id@
                &&& t.infected ==> t.record.event == InfectionEvent::Infected && t.role
                    == RoleSync::AddRole && t.record.source == Some(previous->0.id@)
                &&& !t.infected ==> t.record.event == InfectionEvent::Cured && t.role
                    == RoleSync::RemoveRole && t.record.source.is_none()
            },
            None => true,
        },
{
}

/// Where the counted messages suffice for a cure, they are the reason recorded, whether
/// or not the timeout has passed as well.
pub proof fn law_threshold_before_timeout(
    sanitized: i64,
    sanitized_at_infection: i64,
    infected_at: i64,
    now: u64,
    config: GameConfig,
)
    requires
        sanitized - sanitized_at_infection > config.cure_threshold,
    ensures
        cure_due(sanitized, sanitized_at_infection, infected_at, now, config) == Some(
            CureReason::MessageThreshold,
        ),
{
}

} // verus!
