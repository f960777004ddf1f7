//! Teams: their owners, their picks, and the messages that carry them.
use vstd::prelude::*;
use crate::player::{Player, drafted_copy};

verus! {

/// The most players a team may hold.
pub const TEAM_CAPACITY: usize = 5;

/// A team of the draft. `created_by` is the identity that owns the team
/// and alone may pick for it; `selections` holds its picks in order.
#[derive(Debug, Clone, PartialEq, Eq)]
pub struct Team {
    pub id: i64,
    pub name: String,
    pub selections: Vec<Player>,
    pub team_size: i64,
    pub team_money: i64,
    pub is_picking: bool,
    pub created_by: String,
}

/// A team as a mathematical value: its picks as a sequence.
pub struct TeamView {
    pub id: i64,
    pub name: String,
    pub selections: Seq<Player>,
    pub team_size: i64,
    pub team_money: i64,
    pub is_picking: bool,
    pub created_by: String,
}

impl TeamView {
    /// The team after `player` joins it, marked as drafted.
    pub open spec fn with_selection(self, player: Player) -> TeamView {
        TeamView { selections: self.selections.push(drafted_copy(player)), ..self }
    }
}

impl View for Team {
    type V = TeamView;

    open spec fn view(&self) -> TeamView {
        TeamView {
            id: self.id,
            name: self.name,
            selections: self.selections@,
            team_size: self.team_size,
            team_money: self.team_money,
            is_picking: self.is_picking,
            created_by: self.created_by,
        }
    }
}

impl Team {
    /// A new team owned by `owner`, with no picks yet.
    pub fn new(id: i64, name: String, owner: String) -> (r: Team)
        ensures
            r.id == id,
            r.name == name,
            r.created_by == owner,
            r.selections@ == Seq::<Player>::empty(),
            r.team_size == 0,
            r.team_money == 0,
            !r.is_picking,
    {
        Team {
            id,
            name,
            selections: Vec::new(),
            team_size: 0,
            team_money: 0,
            is_picking: false,
            created_by: owner,
        }
    }

    /// Appends `player` to the team's picks, marked as drafted.
    pub fn add_selection(&mut self, player: Player)
        ensures
            final(self)@ == old(self)@.with_selection(player),
    {
        let chosen = Player { drafted: true, ..player };
        self.selections.push(chosen);
    }
}

/// What a client sends to create a team.
#[derive(Debug)]
pub struct CreateTeam {
    pub name: String,
    pub selections: Vec<String>,
}

/// The message that tells subscribers the list of teams changed.
#[derive(Debug)]
pub struct TeamsUpdate {
    pub kind: String,
    pub teams: Vec<Team>,
}

impl TeamsUpdate {
    /// A `teams_update` message carrying `teams`.
    pub fn new(teams: Vec<Team>) -> (r: TeamsUpdate)
        ensures
            r.kind@ == "teams_update"@,
            r.teams@ == teams@,
    {
        TeamsUpdate { kind: String::from_str("teams_update"), teams }
    }
}

} // verus!
