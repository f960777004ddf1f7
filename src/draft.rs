//! The draft session: its state, the pick transaction and the lifecycle
//! (start, stop, restore) that moves it between phases.
use vstd::prelude::*;
use crate::player::{Player, drafted_copy, has_ign, ign_count, contains_ign};
use crate::team::{Team, TeamView, TEAM_CAPACITY};
use crate::text::same_text;
use crate::turn::{next_turn, spec_next_turn};
use rand::seq::SliceRandom;

verus! {

/// The coarse phase of the session. Picks are taken only while drafting;
/// stopping a draft brings it back to waiting.
#[derive(Debug, Clone, Copy, PartialEq, Eq, Structural)]
pub enum DraftPhase {
    Waiting,
    Drafting,
}

/// Why a draft operation was refused.
#[derive(Debug, Clone, Copy, PartialEq, Eq, Structural)]
pub enum DraftError {
    /// The requester may not do this.
    Unauthorized,
    /// The operation is not valid in the current phase.
    InvalidPhase,
    /// The turn index does not name a team: the state is inconsistent.
    InvalidTurn,
    /// The team whose turn it is already holds a full roster.
    TeamFull,
    /// The player was drafted before.
    PlayerAlreadyDrafted,
    /// The durable copy of the state could not be written or read.
    PersistenceFailure,
    /// The state could not be encoded or decoded.
    SerializationFailure,
}

/// The single draft session.
#[derive(Debug, Clone, PartialEq, Eq)]
pub struct DraftState {
    pub phase: DraftPhase,
    /// The teams in draft order.
    pub teams: Vec<Team>,
    /// The index in `teams` of the team whose turn it is.
    pub current_turn: i64,
    /// Every player drafted so far.
    pub drafted_players: Vec<Player>,
    /// `1` while the order walks forward, `-1` while it walks back.
    pub direction: i64,
}

/// A draft session as a mathematical value.
pub struct DraftView {
    pub phase: DraftPhase,
    pub teams: Seq<TeamView>,
    pub current_turn: i64,
    pub drafted_players: Seq<Player>,
    pub direction: i64,
}

impl View for DraftState {
    type V = DraftView;

    open spec fn view(&self) -> DraftView {
        DraftView {
            phase: self.phase,
            teams: self.teams@.map_values(|t: Team| t@),
            current_turn: self.current_turn,
            drafted_players: self.drafted_players@,
            direction: self.direction,
        }
    }
}

/// The identity that may start and stop a draft.
pub const ADMIN_IDENTITY: &'static str = "admin";

/// Whether `identity` is the administrator's.
pub open spec fn is_admin_identity(identity: Seq<char>) -> bool {
    identity == ADMIN_IDENTITY@
}

/// Tells whether `identity` is the administrator's.
pub fn is_admin(identity: &str) -> (r: bool)
    ensures
        r == is_admin_identity(identity@),
{
    same_text(identity, ADMIN_IDENTITY)
}

impl DraftView {
    /// The idle session: waiting, with no teams and no drafted players.
    pub open spec fn waiting() -> DraftView {
        DraftView {
            phase: DraftPhase::Waiting,
            teams: Seq::empty(),
            current_turn: 0,
            drafted_players: Seq::empty(),
            direction: 1,
        }
    }

    /// Well-formedness: the direction is `+1` or `-1`, the turn index fits
    /// an `i64`, and while drafting with teams it names one of them.
    pub open spec fn wf(self) -> bool {
        &&& self.direction == 1 || self.direction == -1
        &&& self.teams.len() <= i64::MAX
        &&& (self.phase == DraftPhase::Drafting && self.teams.len() > 0) ==> 0
            <= self.current_turn < self.teams.len()
    }

    /// The index of the team whose turn it is.
    pub open spec fn turn(self) -> int {
        self.current_turn as int
    }

    /// The session after the team whose turn it is takes `player`: the
    /// player, marked as drafted, joins that team and the drafted players,
    /// and the turn moves on in snake order.
    pub open spec fn with_pick(self, player: Player) -> DraftView {
        let t = self.turn();
        let next = spec_next_turn(self.teams.len() as int, t, self.direction as int);
        DraftView {
            teams: self.teams.update(t, self.teams[t].with_selection(player)),
            drafted_players: self.drafted_players.push(drafted_copy(player)),
            current_turn: next.0 as i64,
            direction: next.1 as i64,
            ..self
        }
    }

    /// The outcome of a pick of `player` by `requester`: the first check
    /// that fails, in this order, or the session after the pick.
    pub open spec fn pick_result(self, requester: Seq<char>, player: Player) -> Result<
        DraftView,
        DraftError,
    > {
        if self.phase != DraftPhase::Drafting {
            Err(DraftError::InvalidPhase)
        } else if !(0 <= self.turn() < self.teams.len()) {
            Err(DraftError::InvalidTurn)
        } else if self.teams[self.turn()].created_by@ != requester {
            Err(DraftError::Unauthorized)
        } else if self.teams[self.turn()].selections.len() >= TEAM_CAPACITY {
            Err(DraftError::TeamFull)
        } else if player.drafted || has_ign(self.drafted_players, player.ign@) {
            Err(DraftError::PlayerAlreadyDrafted)
        } else {
            Ok(self.with_pick(player))
        }
    }
}

impl Default for DraftState {
    /// The idle session.
    fn default() -> (r: DraftState)
        ensures
            r@ == DraftView::waiting(),
            r.wf(),
    {
        let r = DraftState {
            phase: DraftPhase::Waiting,
            teams: Vec::new(),
            current_turn: 0,
            drafted_players: Vec::new(),
            direction: 1,
        };
        assert(r@.teams =~= Seq::<TeamView>::empty());
        r
    }
}

impl DraftState {
    pub open spec fn wf(&self) -> bool {
        self@.wf()
    }


    /// Tells whether the session is well formed, as `DraftView::wf` says.
    pub fn is_well_formed(&self) -> (r: bool)
        ensures
            r == self.wf(),
    {
        let len = self.teams.len();
        if !(self.direction == 1 || self.direction == -1) || len as u64 > i64::MAX as u64 {
            return false;
        }
        match self.phase {
            DraftPhase::Drafting => len == 0 || (0 <= self.current_turn && (self.current_turn as u64)
                < len as u64),
            DraftPhase::Waiting => true,
        }
    }

    /// Whether a player with the in-game name `ign` was drafted.
    pub fn is_drafted(&self, ign: &String) -> (r: bool)
        ensures
            r == has_ign(self.drafted_players@, ign@),
    {
        contains_ign(&self.drafted_players, ign)
    }

    /// The pick transaction: the team whose turn it is takes `player` for
    /// `requester`. Refused with the first failing check of
    /// `pick_result`, and then nothing changes.
    pub fn pick(&mut self, requester: &str, player: Player) -> (r: Result<(), DraftError>)
        requires
            old(self).wf(),
        ensures
            final(self).wf(),
            match old(self)@.pick_result(requester@, player) {
                Ok(v) => r is Ok && final(self)@ == v,
                Err(e) => r == Err::<(), DraftError>(e) && *final(self) == *old(self),
            },
    {
        if self.phase != DraftPhase::Drafting {
            return Err(DraftError::InvalidPhase);
        }
        let len = self.teams.len();
        if self.current_turn < 0 || self.current_turn as u64 >= len as u64 {
            return Err(DraftError::InvalidTurn);
        }
        let idx = self.current_turn as usize;
        assert(self.teams@.map_values(|t: Team| t@)[idx as int] == self.teams@[idx as int]@);
        if !same_text(self.teams[idx].created_by.as_str(), requester) {
            return Err(DraftError::Unauthorized);
        }
        if self.teams[idx].selections.len() >= TEAM_CAPACITY {
            return Err(DraftError::TeamFull);
        }
        if player.drafted || self.is_drafted(&player.ign) {
            return Err(DraftError::PlayerAlreadyDrafted);
        }
        let ghost before = self@;
        let chosen = Player { drafted: true, ..player };
        self.teams[idx].add_selection(chosen.clone());
        self.drafted_players.push(chosen);
        let (next, direction) = next_turn(len, idx, self.direction);
        self.current_turn = next as i64;
        self.direction = direction;
        assert(drafted_copy(chosen) == drafted_copy(player));
        assert(self@.teams =~= before.with_pick(player).teams);
        Ok(())
    }

    /// Ends a pick transaction once the durable copy was written, or not:
    /// when `saved` is false the session goes back to `before`, the state
    /// it had when the transaction began, so that memory and storage agree.
    pub fn finish_pick(&mut self, before: DraftState, saved: bool) -> (r: Result<(), DraftError>)
        ensures
            saved ==> r is Ok && *final(self) == *old(self),
            !saved ==> r == Err::<(), DraftError>(DraftError::PersistenceFailure) && *final(self)
                == before,
            old(self).wf() && before.wf() ==> final(self).wf(),
    {
        if saved {
            Ok(())
        } else {
            *self = before;
            Err(DraftError::PersistenceFailure)
        }
    }
}


impl DraftView {
    /// The outcome of `stop` asked by `requester`.
    pub open spec fn stop_result(self, requester: Seq<char>) -> Result<DraftView, DraftError> {
        if is_admin_identity(requester) {
            Ok(DraftView::waiting())
        } else {
            Err(DraftError::Unauthorized)
        }
    }
}

/// Relies on rand's `SliceRandom::shuffle`, fed by `rand::rng()`: it only
/// swaps elements of the slice, so the same teams come back in some order.
/// (`rand::rng()` panics only when the system's entropy source cannot seed
/// the thread's generator, whatever the teams.)
#[verifier::external_body]
fn shuffle_teams(teams: &mut Vec<Team>)
    ensures
        final(teams)@.to_multiset() == old(teams)@.to_multiset(),
{
    teams.shuffle(&mut rand::rng());
}

impl DraftState {
    /// Opens the draft with `teams` in exactly this order: the first team
    /// picks first, walking forward, and `drafted_players` are the players
    /// already drafted before (when a draft is resumed).
    pub fn begin_drafting(&mut self, teams: Vec<Team>, drafted_players: Vec<Player>)
        requires
            teams@.len() <= i64::MAX,
        ensures
            final(self)@ == (DraftView {
                phase: DraftPhase::Drafting,
                teams: teams@.map_values(|t: Team| t@),
                current_turn: 0,
                drafted_players: drafted_players@,
                direction: 1,
            }),
            final(self).teams@ == teams@,
            final(self).wf(),
    {
        self.phase = DraftPhase::Drafting;
        self.teams = teams;
        self.current_turn = 0;
        self.drafted_players = drafted_players;
        self.direction = 1;
    }

    /// Starts the draft for `requester`, who must be the administrator:
    /// the teams are shuffled into a random draft order, the first of them
    /// picks first, and `drafted_players` are the players already drafted.
    pub fn start(&mut self, requester: &str, teams: Vec<Team>, drafted_players: Vec<Player>) -> (r:
        Result<(), DraftError>)
        requires
            teams@.len() <= i64::MAX,
        ensures
            !is_admin_identity(requester@) ==> r == Err::<(), DraftError>(DraftError::Unauthorized)
                && *final(self) == *old(self),
            is_admin_identity(requester@) ==> {
                &&& r is Ok
                &&& final(self).phase == DraftPhase::Drafting
                &&& final(self).teams@.to_multiset() == teams@.to_multiset()
                &&& final(self).current_turn == 0
                &&& final(self).direction == 1
                &&& final(self).drafted_players@ == drafted_players@
                &&& final(self).wf()
            },
    {
        if !is_admin(requester) {
            return Err(DraftError::Unauthorized);
        }
        let mut order = teams;
        shuffle_teams(&mut order);
        proof {
            order@.to_multiset_ensures();
            teams@.to_multiset_ensures();
        }
        self.begin_drafting(order, drafted_players);
        Ok(())
    }

    /// Stops the draft for `requester`, who must be the administrator: the
    /// session goes back to the idle state.
    pub fn stop(&mut self, requester: &str) -> (r: Result<(), DraftError>)
        ensures
            match old(self)@.stop_result(requester@) {
                Ok(v) => r is Ok && final(self)@ == v,
                Err(e) => r == Err::<(), DraftError>(e) && *final(self) == *old(self),
            },
            final(self).wf() || *final(self) == *old(self),
    {
        if !is_admin(requester) {
            return Err(DraftError::Unauthorized);
        }
        *self = DraftState::default();
        Ok(())
    }
}

/// The message that hands subscribers a snapshot of the session.
#[derive(Debug)]
pub struct UpdateDraft {
    pub kind: String,
    pub draft_state: DraftState,
}

impl UpdateDraft {
    /// A `draft_update` message carrying `draft_state`.
    pub fn new(draft_state: DraftState) -> (r: UpdateDraft)
        ensures
            r.kind@ == "draft_update"@,
            r.draft_state == draft_state,
    {
        UpdateDraft { kind: String::from_str("draft_update"), draft_state }
    }
}

/// A successful pick keeps the session well formed: in particular, while
/// drafting, the turn index still names one of the teams.
pub proof fn lemma_pick_keeps_wf(v: DraftView, requester: Seq<char>, player: Player)
    requires
        v.wf(),
        v.pick_result(requester, player) is Ok,
    ensures
        v.pick_result(requester, player)->Ok_0.wf(),
{
}

/// No successful pick leaves a team with more than `TEAM_CAPACITY`
/// players: the team that picked had room before, and every other team is
/// unchanged. A pick for a team that is already full is refused.
pub proof fn lemma_pick_respects_capacity(v: DraftView, requester: Seq<char>, player: Player)
    requires
        v.wf(),
    ensures
        v.pick_result(requester, player) is Ok ==> {
            let w = v.pick_result(requester, player)->Ok_0;
            &&& w.teams[v.turn()].selections.len() <= TEAM_CAPACITY
            &&& forall|i: int|
                0 <= i < w.teams.len() && i != v.turn() ==> #[trigger] w.teams[i] == v.teams[i]
        },
        (v.phase == DraftPhase::Drafting && v.teams.len() > 0 && v.teams[v.turn()].created_by@
            == requester && v.teams[v.turn()].selections.len() >= TEAM_CAPACITY)
            ==> v.pick_result(requester, player) == Err::<DraftView, DraftError>(
            DraftError::TeamFull,
        ),
{
}

/// While drafting, a pick asked by anyone but the owner of the team whose
/// turn it is is refused as unauthorized.
pub proof fn lemma_pick_needs_owner(v: DraftView, requester: Seq<char>, player: Player)
    requires
        v.wf(),
        v.phase == DraftPhase::Drafting,
        v.teams.len() > 0,
        v.teams[v.turn()].created_by@ != requester,
    ensures
        v.pick_result(requester, player) == Err::<DraftView, DraftError>(DraftError::Unauthorized),
{
}

proof fn lemma_ign_count_absent(players: Seq<Player>, ign: Seq<char>)
    requires
        !has_ign(players, ign),
    ensures
        ign_count(players, ign) == 0,
    decreases players.len(),
{
    if players.len() > 0 {
        let rest = players.drop_last();
        assert forall|i: int| 0 <= i < rest.len() implies (#[trigger] rest[i]).ign@ != ign by {
            assert(rest[i] == players[i]);
        }
        assert(players.last() == players[players.len() - 1]);
        lemma_ign_count_absent(rest, ign);
    }
}

/// Once a player is drafted, no later pick of that player succeeds,
/// whoever asks: by the owner of the team whose turn it now is, with room
/// left, it is refused as already drafted. The drafted players then hold
/// that player exactly once.
pub proof fn lemma_no_double_draft(
    v: DraftView,
    first: Seq<char>,
    player: Player,
    second: Seq<char>,
    again: Player,
)
    requires
        v.wf(),
        v.pick_result(first, player) is Ok,
        again.ign@ == player.ign@,
    ensures
        ({
            let w = v.pick_result(first, player)->Ok_0;
            &&& w.pick_result(second, again) is Err
            &&& (w.teams[w.turn()].created_by@ == second && w.teams[w.turn()].selections.len()
                < TEAM_CAPACITY) ==> w.pick_result(second, again) == Err::<DraftView, DraftError>(
                DraftError::PlayerAlreadyDrafted,
            )
            &&& ign_count(w.drafted_players, player.ign@) == 1
        }),
{
    let w = v.pick_result(first, player)->Ok_0;
    let n = w.drafted_players.len() - 1;
    assert(w.drafted_players[n] == drafted_copy(player));
    assert(has_ign(w.drafted_players, again.ign@));
    lemma_ign_count_absent(v.drafted_players, player.ign@);
    assert(w.drafted_players.drop_last() == v.drafted_players);
}

/// Stopping a draft, from any drafting state, leaves the idle session:
/// waiting, with no teams and no drafted players. Once the stored record is
/// deleted, the session found at the next start-up is that same session.
pub proof fn lemma_stop_resets(v: DraftView)
    requires
        v.phase == DraftPhase::Drafting,
    ensures
        v.stop_result(ADMIN_IDENTITY@) == Ok::<DraftView, DraftError>(DraftView::waiting()),
        DraftView::waiting().phase == DraftPhase::Waiting,
        DraftView::waiting().teams.len() == 0,
        DraftView::waiting().drafted_players.len() == 0,
        crate::record::restored(None) == DraftView::waiting(),
{
}

} // verus!
