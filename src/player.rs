//! Players of the pool and the messages that carry them.
use vstd::prelude::*;

verus! {

/// A player of the pool. `ign` (the in-game name) is the player's key.
#[derive(Debug, PartialEq, Eq)]
pub struct Player {
    pub name: String,
    pub peak_rank: String,
    pub current_rank: String,
    pub teammate_preferences: Option<String>,
    pub roles: Option<String>,
    pub ign: String,
    pub current_rank_order: i64,
    pub peak_rank_order: i64,
    pub drafted: bool,
}

/// The same player, marked as drafted.
pub open spec fn drafted_copy(p: Player) -> Player {
    Player { drafted: true, ..p }
}

fn copy_optional_text(t: &Option<String>) -> (r: Option<String>)
    ensures
        r == *t,
{
    match t {
        Some(s) => Some(s.clone()),
        None => None,
    }
}

impl Clone for Player {
    fn clone(&self) -> (r: Self)
        ensures
            r == *self,
    {
        Player {
            name: self.name.clone(),
            peak_rank: self.peak_rank.clone(),
            current_rank: self.current_rank.clone(),
            teammate_preferences: copy_optional_text(&self.teammate_preferences),
            roles: copy_optional_text(&self.roles),
            ign: self.ign.clone(),
            current_rank_order: self.current_rank_order,
            peak_rank_order: self.peak_rank_order,
            drafted: self.drafted,
        }
    }
}

/// Whether some player of `players` has the in-game name `ign`.
pub open spec fn has_ign(players: Seq<Player>, ign: Seq<char>) -> bool {
    exists|i: int| 0 <= i < players.len() && (#[trigger] players[i]).ign@ == ign
}

/// How many players of `players` have the in-game name `ign`.
pub open spec fn ign_count(players: Seq<Player>, ign: Seq<char>) -> nat
    decreases players.len(),
{
    if players.len() == 0 {
        0
    } else {
        ign_count(players.drop_last(), ign) + if players.last().ign@ == ign {
            1nat
        } else {
            0nat
        }
    }
}

/// Looks for a player with the in-game name `ign`.
pub fn contains_ign(players: &Vec<Player>, ign: &String) -> (r: bool)
    ensures
        r == has_ign(players@, ign@),
{
    let mut i: usize = 0;
    while i < players.len()
        invariant
            i <= players@.len(),
            forall|j: int| 0 <= j < i ==> (#[trigger] players@[j]).ign@ != ign@,
        decreases players@.len() - i,
    {
        if players[i].ign == *ign {
            return true;
        }
        i += 1;
    }
    false
}

/// The message that tells subscribers the player pool changed.
#[derive(Debug)]
pub struct PlayerUpdate {
    pub kind: String,
    pub players: Vec<Player>,
}

impl PlayerUpdate {
    /// A `player_update` message carrying `players`.
    pub fn new(players: Vec<Player>) -> (r: PlayerUpdate)
        ensures
            r.kind@ == "player_update"@,
            r.players@ == players@,
    {
        PlayerUpdate { kind: String::from_str("player_update"), players }
    }
}

} // verus!
