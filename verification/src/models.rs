//! The player state and the audit records that the game keeps in its store.

use vstd::prelude::*;

verus! {

/// A player as the store holds it.
#[derive(Clone, Debug)]
pub struct Player {
    /// The player's id in decimal digits.
    pub id: String,
    pub infected: bool,
    /// Every message the player has sent.
    pub total_messages: i64,
    /// The messages that count towards a cure: those sent after the message cooldown
    /// had passed.
    pub sanitized_messages: i64,
    /// When a message of the player was last counted, in unix seconds.
    pub last_action: i64,
}

/// What a `Player` holds, with its id as a sequence of characters.
pub struct PlayerView {
    pub id: Seq<char>,
    pub infected: bool,
    pub total_messages: i64,
    pub sanitized_messages: i64,
    pub last_action: i64,
}

impl View for Player {
    type V = PlayerView;

    open spec fn view(&self) -> PlayerView {
        PlayerView {
            id: self.id@,
            infected: self.infected,
            total_messages: self.total_messages,
            sanitized_messages: self.sanitized_messages,
            last_action: self.last_action,
        }
    }
}

impl PlayerView {
    /// No more messages count towards a cure than were sent.
    pub open spec fn wf(self) -> bool {
        0 <= self.sanitized_messages <= self.total_messages
    }

    /// The player after one more message at time `now`. The message always counts
    /// towards the total; it counts towards a cure, and becomes the player's last
    /// action, only if at least `cooldown` seconds have passed since the last action.
    pub open spec fn after_message(self, now: i64, cooldown: u32) -> PlayerView {
        if now - self.last_action >= cooldown {
            PlayerView {
                total_messages: (self.total_messages + 1) as i64,
                sanitized_messages: (self.sanitized_messages + 1) as i64,
                last_action: now,
                ..self
            }
        } else {
            PlayerView { total_messages: (self.total_messages + 1) as i64, ..self }
        }
    }

    /// A player who has just sent a first message at time `now`.
    pub open spec fn first_message(id: Seq<char>, now: i64) -> PlayerView {
        PlayerView { id, infected: false, total_messages: 1, sanitized_messages: 1, last_action: now }
    }
}

/// The time `now` as the store keeps it: a signed number of seconds, at most `i64::MAX`.
pub open spec fn stamp_of(now: u64) -> i64 {
    if now > i64::MAX {
        i64::MAX
    } else {
        now as i64
    }
}

/// The time `now` as the store keeps it.
pub fn stamp(now: u64) -> (at: i64)
    ensures
        at == stamp_of(now),
{
    if now > 0x7fff_ffff_ffff_ffff {
        0x7fff_ffff_ffff_ffff
    } else {
        now as i64
    }
}

impl Player {
    /// Counts one message of a player at time `now`: of a player the store knows, or,
    /// with `None`, of a new player with the id `id`.
    pub fn upsert_on_message(known: Option<Player>, id: String, now: u64, cooldown: u32) -> (player:
        Player)
        requires
            known is Some ==> known->0@.wf() && known->0.total_messages < i64::MAX,
        ensures
            player@.wf(),
            player@ == (match known {
                Some(p) => p@.after_message(stamp_of(now), cooldown),
                None => PlayerView::first_message(id@, stamp_of(now)),
            }),
    {
        let at = stamp(now);
        match known {
            Some(p) => {
                let waited: i128 = at as i128 - p.last_action as i128;
                if waited >= cooldown as i128 {
                    Player {
                        id: p.id,
                        infected: p.infected,
                        total_messages: p.total_messages + 1,
                        sanitized_messages: p.sanitized_messages + 1,
                        last_action: at,
                    }
                } else {
                    Player {
                        id: p.id,
                        infected: p.infected,
                        total_messages: p.total_messages + 1,
                        sanitized_messages: p.sanitized_messages,
                        last_action: p.last_action,
                    }
                }
            },
            None => Player {
                id,
                infected: false,
                total_messages: 1,
                sanitized_messages: 1,
                last_action: at,
            },
        }
    }
}

/// The kind of an audit record.
#[derive(Clone, Copy, Debug, PartialEq, Eq, Structural)]
pub enum InfectionEvent {
    Infected,
    Cured,
}

impl InfectionEvent {
    /// The event that a stored name stands for: `"cured"` is a cure, every other name
    /// an infection.
    pub open spec fn of_name(name: Seq<char>) -> InfectionEvent {
        if name == "cured"@ {
            InfectionEvent::Cured
        } else {
            InfectionEvent::Infected
        }
    }
}

impl vstd::std_specs::convert::FromSpecImpl<String> for InfectionEvent {
    open spec fn obeys_from_spec() -> bool {
        true
    }

    open spec fn from_spec(value: String) -> InfectionEvent {
        InfectionEvent::of_name(value@)
    }
}

impl From<String> for InfectionEvent {
    fn from(value: String) -> (event: InfectionEvent) {
        let cured = "cured".to_string();
        if value == cured {
            InfectionEvent::Cured
        } else {
            InfectionEvent::Infected
        }
    }
}

/// One entry of the audit trail: who was infected or cured, by whom, why and when, with
/// the target's message counts at that moment.
#[derive(Clone, Debug)]
pub struct InfectionRecord {
    pub event: InfectionEvent,
    pub target: String,
    /// Absent when the system itself caused the event.
    pub source: Option<String>,
    pub reason: Option<String>,
    pub recorded_at: i64,
    pub target_total_messages: i64,
    pub target_sanitized_messages: i64,
}

/// What an `InfectionRecord` holds, with its texts as sequences of characters.
pub struct InfectionRecordView {
    pub event: InfectionEvent,
    pub target: Seq<char>,
    pub source: Option<Seq<char>>,
    pub reason: Option<Seq<char>>,
    pub recorded_at: i64,
    pub target_total_messages: i64,
    pub target_sanitized_messages: i64,
}

impl View for InfectionRecord {
    type V = InfectionRecordView;

    open spec fn view(&self) -> InfectionRecordView {
        InfectionRecordView {
            event: self.event,
            target: self.target@,
            source: match self.source {
                Some(s) => Some(s@),
                None => None,
            },
            reason: match self.reason {
                Some(s) => Some(s@),
                None => None,
            },
            recorded_at: self.recorded_at,
            target_total_messages: self.target_total_messages,
            target_sanitized_messages: self.target_sanitized_messages,
        }
    }
}

} // verus!
