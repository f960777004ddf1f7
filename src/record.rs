//! The durable form of a draft session: the phase is stored by name, the
//! rest field by field. Loading a record checks that it describes a
//! well-formed session.
use vstd::prelude::*;
use crate::draft::{DraftError, DraftPhase, DraftState, DraftView};
use crate::player::Player;
use crate::team::{Team, TeamView};
use crate::text::same_text;

verus! {

/// A draft session as storage holds it.
#[derive(Debug, Clone, PartialEq, Eq)]
pub struct DraftRecord {
    pub phase: String,
    pub teams: Vec<Team>,
    pub current_turn: i64,
    pub drafted_players: Vec<Player>,
    pub direction: i64,
}

/// A stored session as a mathematical value.
pub struct RecordView {
    pub phase: Seq<char>,
    pub teams: Seq<TeamView>,
    pub current_turn: i64,
    pub drafted_players: Seq<Player>,
    pub direction: i64,
}

impl View for DraftRecord {
    type V = RecordView;

    open spec fn view(&self) -> RecordView {
        RecordView {
            phase: self.phase@,
            teams: self.teams@.map_values(|t: Team| t@),
            current_turn: self.current_turn,
            drafted_players: self.drafted_players@,
            direction: self.direction,
        }
    }
}

/// The name under which a phase is stored.
pub open spec fn phase_name(phase: DraftPhase) -> Seq<char> {
    match phase {
        DraftPhase::Waiting => "Waiting"@,
        DraftPhase::Drafting => "Drafting"@,
    }
}

/// The phase stored under `name`, if any.
pub open spec fn phase_named(name: Seq<char>) -> Option<DraftPhase> {
    if name == "Waiting"@ {
        Some(DraftPhase::Waiting)
    } else if name == "Drafting"@ {
        Some(DraftPhase::Drafting)
    } else {
        None
    }
}

impl DraftView {
    /// The record that stores this session.
    pub open spec fn record(self) -> RecordView {
        RecordView {
            phase: phase_name(self.phase),
            teams: self.teams,
            current_turn: self.current_turn,
            drafted_players: self.drafted_players,
            direction: self.direction,
        }
    }
}

impl RecordView {
    /// The session a record describes: refused as undecodable when the
    /// phase name or the direction is unknown, and as an invalid turn when
    /// the turn index does not name a team while drafting.
    pub open spec fn session(self) -> Result<DraftView, DraftError> {
        match phase_named(self.phase) {
            None => Err(DraftError::SerializationFailure),
            Some(phase) => {
                let v = DraftView {
                    phase,
                    teams: self.teams,
                    current_turn: self.current_turn,
                    drafted_players: self.drafted_players,
                    direction: self.direction,
                };
                if !(self.direction == 1 || self.direction == -1) {
                    Err(DraftError::SerializationFailure)
                } else if !v.wf() {
                    Err(DraftError::InvalidTurn)
                } else {
                    Ok(v)
                }
            },
        }
    }
}

/// The session found at start-up: the stored one when there is a valid
/// record, else the idle session.
pub open spec fn restored(stored: Option<RecordView>) -> DraftView {
    match stored {
        Some(rec) => match rec.session() {
            Ok(v) => v,
            Err(_) => DraftView::waiting(),
        },
        None => DraftView::waiting(),
    }
}

/// The name under which `phase` is stored.
pub fn phase_to_name(phase: DraftPhase) -> (r: String)
    ensures
        r@ == phase_name(phase),
{
    match phase {
        DraftPhase::Waiting => String::from_str("Waiting"),
        DraftPhase::Drafting => String::from_str("Drafting"),
    }
}

/// Reads a stored phase name.
pub fn phase_from_name(name: &str) -> (r: Option<DraftPhase>)
    ensures
        r == phase_named(name@),
{
    if same_text(name, "Waiting") {
        Some(DraftPhase::Waiting)
    } else if same_text(name, "Drafting") {
        Some(DraftPhase::Drafting)
    } else {
        None
    }
}

impl DraftState {
    /// The record that stores this session.
    pub fn into_record(self) -> (r: DraftRecord)
        ensures
            r@ == self@.record(),
    {
        DraftRecord {
            phase: phase_to_name(self.phase),
            teams: self.teams,
            current_turn: self.current_turn,
            drafted_players: self.drafted_players,
            direction: self.direction,
        }
    }

    /// The session at start-up, from what storage returned: `None` when
    /// there was no record or it could not be read.
    pub fn restore(stored: Option<DraftRecord>) -> (r: DraftState)
        ensures
            r@ == restored(
                match stored {
                    Some(rec) => Some(rec@),
                    None => None,
                },
            ),
            r.wf(),
    {
        match stored {
            Some(rec) => match rec.into_session() {
                Ok(s) => s,
                Err(_) => DraftState::default(),
            },
            None => DraftState::default(),
        }
    }
}

impl DraftRecord {
    /// The session this record describes, as `RecordView::session` says.
    pub fn into_session(self) -> (r: Result<DraftState, DraftError>)
        ensures
            match r {
                Ok(s) => self@.session() == Ok::<DraftView, DraftError>(s@) && s.wf(),
                Err(e) => self@.session() == Err::<DraftView, DraftError>(e),
            },
    {
        let phase = match phase_from_name(self.phase.as_str()) {
            Some(p) => p,
            None => return Err(DraftError::SerializationFailure),
        };
        if !(self.direction == 1 || self.direction == -1) {
            return Err(DraftError::SerializationFailure);
        }
        let len = self.teams.len();
        if len as u64 > i64::MAX as u64 {
            return Err(DraftError::InvalidTurn);
        }
        if phase == DraftPhase::Drafting && len > 0 && (self.current_turn < 0
            || self.current_turn as u64 >= len as u64) {
            return Err(DraftError::InvalidTurn);
        }
        Ok(
            DraftState {
                phase,
                teams: self.teams,
                current_turn: self.current_turn,
                drafted_players: self.drafted_players,
                direction: self.direction,
            },
        )
    }
}

/// Storing a well-formed session and loading it back gives the same
/// session, in every field.
pub proof fn lemma_record_round_trip(v: DraftView)
    requires
        v.wf(),
    ensures
        v.record().session() == Ok::<DraftView, DraftError>(v),
{
    reveal_strlit("Waiting");
    reveal_strlit("Drafting");
    assert("Waiting"@ != "Drafting"@) by {
        assert("Waiting"@.len() != "Drafting"@.len());
    }
}

} // verus!
