//! The settings of a game.

use vstd::prelude::*;

verus! {

/// Everything the program is started with.
pub struct Config {
    pub bot: BotConfig,
    pub game: GameConfig,
}

/// How the program reaches the chat platform and its store.
pub struct BotConfig {
    pub token: String,
    pub db_url: String,
}

/// The rules of one game.
pub struct GameConfig {
    /// The server to run the game in.
    pub server_id: u64,
    /// The role to assign to infected players.
    pub infected_role: u64,
    /// Roles that cannot be infected.
    pub immune_roles: Option<Vec<u64>>,
    /// Roles that always count as being infected.
    pub carrier_roles: Option<Vec<u64>>,
    /// The number of counted messages that an infected player must exceed to be cured.
    pub cure_threshold: u32,
    /// The minimum number of seconds between two messages that count towards a cure.
    pub message_cooldown: u32,
    /// The minimum number of seconds between two infections caused by one player.
    pub infection_cooldown: u32,
    /// The number of seconds after which an infection ends by itself, if any.
    pub cure_timeout: Option<u64>,
}

/// Some role of `roles` is among `listed`.
pub open spec fn shares_role(roles: Seq<u64>, listed: Seq<u64>) -> bool {
    exists|i: int| 0 <= i < roles.len() && listed.contains(#[trigger] roles[i])
}

/// Whether some role of `roles` is among `listed`.
pub fn holds_any(roles: &Vec<u64>, listed: &Vec<u64>) -> (found: bool)
    ensures
        found == shares_role(roles@, listed@),
{
    let mut i: usize = 0;
    while i < roles.len()
        invariant
            i <= roles.len(),
            forall|a: int| 0 <= a < i ==> !listed@.contains(#[trigger] roles@[a]),
        decreases roles.len() - i,
    {
        let mut j: usize = 0;
        while j < listed.len()
            invariant
                i < roles.len(),
                j <= listed.len(),
                forall|b: int| 0 <= b < j ==> (#[trigger] listed@[b]) != roles@[i as int],
            decreases listed.len() - j,
        {
            if listed[j] == roles[i] {
                assert(listed@.contains(roles@[i as int]));
                return true;
            }
            j += 1;
        }
        i += 1;
    }
    false
}

impl GameConfig {
    /// A player with these roles cannot catch the infection from a message.
    pub open spec fn immune(&self, roles: Seq<u64>) -> bool {
        match self.immune_roles {
            Some(listed) => shares_role(roles, listed@),
            None => false,
        }
    }

    /// A player with these roles passes the infection on, infected or not.
    pub open spec fn carrier(&self, roles: Seq<u64>) -> bool {
        match self.carrier_roles {
            Some(listed) => shares_role(roles, listed@),
            None => false,
        }
    }

    /// Whether a player with these roles is immune.
    pub fn is_immune(&self, roles: &Vec<u64>) -> (yes: bool)
        ensures
            yes == self.immune(roles@),
    {
        match &self.immune_roles {
            Some(listed) => holds_any(roles, listed),
            None => false,
        }
    }

    /// Whether a player with these roles is a carrier.
    pub fn is_carrier(&self, roles: &Vec<u64>) -> (yes: bool)
        ensures
            yes == self.carrier(roles@),
    {
        match &self.carrier_roles {
            Some(listed) => holds_any(roles, listed),
            None => false,
        }
    }
}

} // verus!
