//! What the moderators' commands do: the reply to a ping, and the transitions that a
//! manual infection and a manual cure stand for.

use crate::handlers::{RoleSync, Transition, TransitionView};
use crate::models::{stamp, stamp_of, InfectionEvent, InfectionRecord, InfectionRecordView, Player};
use crate::text::{
    decimal, decimal_digits, manual_cure_reason, manual_cure_text, manual_infection_reason,
    manual_infection_text,
};
use vstd::prelude::*;
use vstd::string::*;

verus! {

/// The latency as the reply shows it.
pub open spec fn latency_text(latency_ms: Option<u64>) -> Seq<char> {
    match latency_ms {
        Some(ms) => decimal_digits(ms as nat) + "ms"@,
        None => "not yet available"@,
    }
}

/// The start of the process as the detailed reply shows it: twice the same time, once
/// as a date and once relative to now.
pub open spec fn uptime_text(started_at: u64) -> Seq<char> {
    " Process started at <t:"@ + decimal_digits(started_at as nat) + ":f>, <t:"@ + decimal_digits(
        started_at as nat,
    ) + ":R>."@
}

/// The reply to a ping.
pub open spec fn ping_text(latency_ms: Option<u64>, started_at: u64, detailed: bool) -> Seq<char> {
    "Pong! My ping is "@ + latency_text(latency_ms) + "."@ + (if detailed {
        uptime_text(started_at)
    } else {
        Seq::<char>::empty()
    })
}

/// Writes the reply to a ping: the latency in milliseconds, or a note that none was
/// measured yet, and, if `detailed`, when the process started.
pub fn ping(latency_ms: Option<u64>, started_at: u64, detailed: bool) -> (reply: String)
    ensures
        reply@ == ping_text(latency_ms, started_at, detailed),
{
    let mut reply = String::from_str("Pong! My ping is ");
    match latency_ms {
        Some(ms) => {
            let digits = decimal(ms);
            reply.append(digits.as_str());
            reply.append("ms");
        },
        None => {
            reply.append("not yet available");
        },
    }
    reply.append(".");
    if detailed {
        let at = decimal(started_at);
        reply.append(" Process started at <t:");
        reply.append(at.as_str());
        reply.append(":f>, <t:");
        reply.append(at.as_str());
        reply.append(":R>.");
    }
    assert(reply@ =~= ping_text(latency_ms, started_at, detailed));
    reply
}

/// The infection of `target` by the command of `by` at `now`. The command counts as
/// the target's last action, so that their next message is not counted at once.
pub open spec fn manual_infection(target: Player, by: Seq<char>, now: u64) -> TransitionView {
    TransitionView {
        infected: true,
        last_action: Some(stamp_of(now)),
        record: InfectionRecordView {
            event: InfectionEvent::Infected,
            target: target.id@,
            source: Some(by),
            reason: Some(manual_infection_text(by)),
            recorded_at: stamp_of(now),
            target_total_messages: target.total_messages,
            target_sanitized_messages: target.sanitized_messages,
        },
        role: RoleSync::AddRole,
    }
}

/// The cure of `target` by the command of `by` at `now`.
pub open spec fn manual_cure(target: Player, by: Seq<char>, now: u64) -> TransitionView {
    TransitionView {
        infected: false,
        last_action: Some(stamp_of(now)),
        record: InfectionRecordView {
            event: InfectionEvent::Cured,
            target: target.id@,
            source: Some(by),
            reason: Some(manual_cure_text(by)),
            recorded_at: stamp_of(now),
            target_total_messages: target.total_messages,
            target_sanitized_messages: target.sanitized_messages,
        },
        role: RoleSync::RemoveRole,
    }
}

/// Infects `target` at the command of the player with the id `by`.
pub fn infect(target: &Player, by: &String, now: u64) -> (t: Transition)
    ensures
        t@ == manual_infection(*target, by@, now),
{
    Transition {
        infected: true,
        last_action: Some(stamp(now)),
        record: InfectionRecord {
            event: InfectionEvent::Infected,
            target: target.id.clone(),
            source: Some(by.clone()),
            reason: Some(manual_infection_reason(by)),
            recorded_at: stamp(now),
            target_total_messages: target.total_messages,
            target_sanitized_messages: target.sanitized_messages,
        },
        role: RoleSync::AddRole,
    }
}

/// Cures `target` at the command of the player with the id `by`.
pub fn cure(target: &Player, by: &String, now: u64) -> (t: Transition)
    ensures
        t@ == manual_cure(*target, by@, now),
{
    Transition {
        infected: false,
        last_action: Some(stamp(now)),
        record: InfectionRecord {
            event: InfectionEvent::Cured,
            target: target.id.clone(),
            source: Some(by.clone()),
            reason: Some(manual_cure_reason(by)),
            recorded_at: stamp(now),
            target_total_messages: target.total_messages,
            target_sanitized_messages: target.sanitized_messages,
        },
        role: RoleSync::RemoveRole,
    }
}

} // verus!
