//! Sign-up sheets: a header row of column titles, then one row per player.
//! Each row becomes a player card, and the cards are ranked from the
//! strongest player down.
use vstd::prelude::*;
use crate::ranks::{rank_order, rank_to_number};
use crate::text::{same_text, trim_text, trimmed};

verus! {

pub const NAME_HEADER: &'static str = "Your Name";

pub const PEAK_RANK_HEADER: &'static str = "Your highest rank achieved on your main";

pub const CURRENT_RANK_HEADER: &'static str = "Your current rank on your main";

pub const PREFERENCES_HEADER: &'static str = "Do you have any teammate preferences? While we can't guarantee you'll be placed with them, listing preferences will increase your chances.";

pub const ROLES_HEADER: &'static str = "Role preferences";

pub const IGN_HEADER: &'static str = "In game name (including #)";

/// One player's answers, under the sheet's column titles.
#[derive(Debug, Clone, PartialEq, Eq)]
pub struct RawPlayer {
    pub name: String,
    pub peak_rank: String,
    pub current_rank: String,
    pub teammate_preferences: String,
    pub roles: String,
    pub ign: String,
}

/// A player's answers with the order of each rank.
#[derive(Debug, PartialEq, Eq)]
pub struct PlayerCard {
    pub name: String,
    pub peak_rank: String,
    pub current_rank: String,
    pub teammate_preferences: String,
    pub roles: String,
    pub ign: String,
    pub current_rank_order: u8,
    pub peak_rank_order: u8,
}

/// A player card as a mathematical value.
pub struct CardView {
    pub name: Seq<char>,
    pub peak_rank: Seq<char>,
    pub current_rank: Seq<char>,
    pub teammate_preferences: Seq<char>,
    pub roles: Seq<char>,
    pub ign: Seq<char>,
    pub current_rank_order: u8,
    pub peak_rank_order: u8,
}

impl View for PlayerCard {
    type V = CardView;

    open spec fn view(&self) -> CardView {
        CardView {
            name: self.name@,
            peak_rank: self.peak_rank@,
            current_rank: self.current_rank@,
            teammate_preferences: self.teammate_preferences@,
            roles: self.roles@,
            ign: self.ign@,
            current_rank_order: self.current_rank_order,
            peak_rank_order: self.peak_rank_order,
        }
    }
}

impl Clone for PlayerCard {
    fn clone(&self) -> (r: Self)
        ensures
            r == *self,
    {
        PlayerCard {
            name: self.name.clone(),
            peak_rank: self.peak_rank.clone(),
            current_rank: self.current_rank.clone(),
            teammate_preferences: self.teammate_preferences.clone(),
            roles: self.roles.clone(),
            ign: self.ign.clone(),
            current_rank_order: self.current_rank_order,
            peak_rank_order: self.peak_rank_order,
        }
    }
}

/// A sheet as a mathematical value: rows of cells, where a cell that holds
/// no text is `None`.
pub open spec fn sheet(rows: Seq<Vec<Option<String>>>) -> Seq<Seq<Option<String>>> {
    rows.map_values(|r: Vec<Option<String>>| r@)
}

/// The text of a title cell.
pub open spec fn title_text(cell: Option<String>) -> Seq<char> {
    match cell {
        Some(s) => s@,
        None => Seq::empty(),
    }
}

/// The text of an answer cell: a cell without text reads as empty, and
/// white space around the text is dropped.
pub open spec fn answer_text(cell: Option<String>) -> Seq<char> {
    trimmed(title_text(cell))
}

/// A header row holds text in every cell.
pub open spec fn is_header_row(row: Seq<Option<String>>) -> bool {
    forall|j: int| 0 <= j < row.len() ==> (#[trigger] row[j]) is Some
}

pub open spec fn titles(row: Seq<Option<String>>) -> Seq<Seq<char>> {
    row.map_values(|c: Option<String>| title_text(c))
}

/// The answer under the title `key` among the first `n` columns: that of
/// the last such column, if any.
pub open spec fn answer_within(
    titles: Seq<Seq<char>>,
    row: Seq<Option<String>>,
    key: Seq<char>,
    n: int,
) -> Option<Seq<char>>
    decreases n,
{
    if n <= 0 {
        None
    } else if titles[n - 1] == key {
        Some(answer_text(row[n - 1]))
    } else {
        answer_within(titles, row, key, n - 1)
    }
}

/// The answer under the title `key`, among the columns that both the
/// titles and the row reach.
pub open spec fn answer(titles: Seq<Seq<char>>, row: Seq<Option<String>>, key: Seq<char>) -> Option<
    Seq<char>,
> {
    let n = if titles.len() <= row.len() {
        titles.len() as int
    } else {
        row.len() as int
    };
    answer_within(titles, row, key, n)
}

/// A row answers every question of the sheet.
pub open spec fn is_complete(titles: Seq<Seq<char>>, row: Seq<Option<String>>) -> bool {
    &&& answer(titles, row, NAME_HEADER@) is Some
    &&& answer(titles, row, PEAK_RANK_HEADER@) is Some
    &&& answer(titles, row, CURRENT_RANK_HEADER@) is Some
    &&& answer(titles, row, PREFERENCES_HEADER@) is Some
    &&& answer(titles, row, ROLES_HEADER@) is Some
    &&& answer(titles, row, IGN_HEADER@) is Some
}

/// The card of a complete row.
pub open spec fn card_of(titles: Seq<Seq<char>>, row: Seq<Option<String>>) -> CardView {
    let current = answer(titles, row, CURRENT_RANK_HEADER@)->Some_0;
    let peak = answer(titles, row, PEAK_RANK_HEADER@)->Some_0;
    CardView {
        name: answer(titles, row, NAME_HEADER@)->Some_0,
        peak_rank: peak,
        current_rank: current,
        teammate_preferences: answer(titles, row, PREFERENCES_HEADER@)->Some_0,
        roles: answer(titles, row, ROLES_HEADER@)->Some_0,
        ign: answer(titles, row, IGN_HEADER@)->Some_0,
        current_rank_order: rank_order(trimmed(current)),
        peak_rank_order: rank_order(trimmed(peak)),
    }
}

/// A sheet can be read: it has a header row, and every later row is
/// complete.
pub open spec fn is_readable(s: Seq<Seq<Option<String>>>) -> bool {
    &&& s.len() >= 1
    &&& is_header_row(s[0])
    &&& forall|i: int| 1 <= i < s.len() ==> is_complete(titles(s[0]), #[trigger] s[i])
}

/// The cards of a readable sheet, in the order of its rows.
pub open spec fn sheet_cards(s: Seq<Seq<Option<String>>>) -> Seq<CardView> {
    s.drop_first().map_values(|r: Seq<Option<String>>| card_of(titles(s[0]), r))
}

/// The ranking key of a card: its current rank first, its peak rank next.
pub open spec fn rank_key(c: CardView) -> int {
    c.current_rank_order * 10 + c.peak_rank_order
}

/// The cards of `cards` whose ranking key is `k`, in their order.
pub open spec fn with_key(cards: Seq<CardView>, k: int) -> Seq<CardView>
    decreases cards.len(),
{
    if cards.len() == 0 {
        Seq::empty()
    } else if rank_key(cards.last()) == k {
        with_key(cards.drop_last(), k).push(cards.last())
    } else {
        with_key(cards.drop_last(), k)
    }
}

/// The cards whose key is at least `k` (at most 99), highest key first,
/// cards of equal key in their order.
pub open spec fn ranked_from(cards: Seq<CardView>, k: int) -> Seq<CardView>
    decreases 100 - k,
{
    if k >= 100 {
        Seq::empty()
    } else {
        ranked_from(cards, k + 1) + with_key(cards, k)
    }
}

/// The cards sorted from the highest current rank down, then from the
/// highest peak rank down, cards that tie keeping their order (a stable
/// sort), given rank orders of at most 9.
pub open spec fn ranked(cards: Seq<CardView>) -> Seq<CardView> {
    ranked_from(cards, 0)
}

pub open spec fn card_views(cards: Seq<PlayerCard>) -> Seq<CardView> {
    cards.map_values(|c: PlayerCard| c@)
}

impl PlayerCard {
    /// The card of a player's answers, with the order of each rank.
    pub fn from_raw(p: RawPlayer) -> (r: PlayerCard)
        ensures
            r.name == p.name,
            r.peak_rank == p.peak_rank,
            r.current_rank == p.current_rank,
            r.teammate_preferences == p.teammate_preferences,
            r.roles == p.roles,
            r.ign == p.ign,
            r.current_rank_order == rank_order(trimmed(p.current_rank@)),
            r.peak_rank_order == rank_order(trimmed(p.peak_rank@)),
    {
        let current_rank_order = rank_to_number(p.current_rank.as_str());
        let peak_rank_order = rank_to_number(p.peak_rank.as_str());
        PlayerCard {
            name: p.name,
            peak_rank: p.peak_rank,
            current_rank: p.current_rank,
            teammate_preferences: p.teammate_preferences,
            roles: p.roles,
            ign: p.ign,
            current_rank_order,
            peak_rank_order,
        }
    }
}

pub open spec fn string_texts(v: Seq<String>) -> Seq<Seq<char>> {
    v.map_values(|s: String| s@)
}

/// The titles of a header row, or `None` when a cell holds no text.
fn header_titles(row: &Vec<Option<String>>) -> (r: Option<Vec<String>>)
    ensures
        r is Some <==> is_header_row(row@),
        r is Some ==> string_texts(r->Some_0@) == titles(row@),
{
    let mut out: Vec<String> = Vec::new();
    let mut j: usize = 0;
    while j < row.len()
        invariant
            j <= row@.len(),
            out@.len() == j,
            forall|k: int| 0 <= k < j ==> (#[trigger] row@[k]) is Some,
            forall|k: int| 0 <= k < j ==> (#[trigger] out@[k])@ == title_text(row@[k]),
        decreases row@.len() - j,
    {
        match &row[j] {
            Some(t) => out.push(t.clone()),
            None => return None,
        }
        j += 1;
    }
    assert(string_texts(out@) =~= titles(row@));
    Some(out)
}

/// The answer under the title `key`, as `answer` says.
fn find_answer(titles: &Vec<String>, row: &Vec<Option<String>>, key: &str) -> (r: Option<String>)
    ensures
        match r {
            Some(s) => answer(string_texts(titles@), row@, key@) == Some(s@),
            None => answer(string_texts(titles@), row@, key@) is None,
        },
{
    let ghost t = string_texts(titles@);
    let n = if titles.len() <= row.len() {
        titles.len()
    } else {
        row.len()
    };
    let mut found: Option<String> = None;
    let mut j: usize = 0;
    while j < n
        invariant
            t == string_texts(titles@),
            n <= titles@.len(),
            n <= row@.len(),
            n == (if titles@.len() <= row@.len() {
                titles@.len()
            } else {
                row@.len()
            }),
            j <= n,
            match found {
                Some(s) => answer_within(t, row@, key@, j as int) == Some(s@),
                None => answer_within(t, row@, key@, j as int) is None,
            },
        decreases n - j,
    {
        assert(t[j as int] == titles@[j as int]@);
        if same_text(titles[j].as_str(), key) {
            let text = match &row[j] {
                Some(s) => trim_text(s.as_str()),
                None => trim_text(""),
            };
            proof {
                reveal_strlit("");
                assert(""@ =~= Seq::<char>::empty());
            }
            found = Some(text.to_owned());
        }
        j += 1;
    }
    found
}

/// The answers of a row, or `None` when a question is unanswered.
fn raw_player_from(titles: &Vec<String>, row: &Vec<Option<String>>) -> (r: Option<RawPlayer>)
    ensures
        r is Some <==> is_complete(string_texts(titles@), row@),
        r is Some ==> {
            let p = r->Some_0;
            let t = string_texts(titles@);
            &&& answer(t, row@, NAME_HEADER@) == Some(p.name@)
            &&& answer(t, row@, PEAK_RANK_HEADER@) == Some(p.peak_rank@)
            &&& answer(t, row@, CURRENT_RANK_HEADER@) == Some(p.current_rank@)
            &&& answer(t, row@, PREFERENCES_HEADER@) == Some(p.teammate_preferences@)
            &&& answer(t, row@, ROLES_HEADER@) == Some(p.roles@)
            &&& answer(t, row@, IGN_HEADER@) == Some(p.ign@)
        },
{
    let name = match find_answer(titles, row, NAME_HEADER) {
        Some(s) => s,
        None => return None,
    };
    let peak_rank = match find_answer(titles, row, PEAK_RANK_HEADER) {
        Some(s) => s,
        None => return None,
    };
    let current_rank = match find_answer(titles, row, CURRENT_RANK_HEADER) {
        Some(s) => s,
        None => return None,
    };
    let teammate_preferences = match find_answer(titles, row, PREFERENCES_HEADER) {
        Some(s) => s,
        None => return None,
    };
    let roles = match find_answer(titles, row, ROLES_HEADER) {
        Some(s) => s,
        None => return None,
    };
    let ign = match find_answer(titles, row, IGN_HEADER) {
        Some(s) => s,
        None => return None,
    };
    Some(RawPlayer { name, peak_rank, current_rank, teammate_preferences, roles, ign })
}

/// The cards in ranked order, as `ranked` says.
fn order_by_rank(cards: &Vec<PlayerCard>) -> (r: Vec<PlayerCard>)
    ensures
        card_views(r@) == ranked(card_views(cards@)),
{
    let ghost cv = card_views(cards@);
    let mut out: Vec<PlayerCard> = Vec::new();
    let mut k: u32 = 100;
    assert(card_views(out@) =~= ranked_from(cv, 100));
    while k > 0
        invariant
            k <= 100,
            cv == card_views(cards@),
            card_views(out@) == ranked_from(cv, k as int),
        decreases k,
    {
        k -= 1;
        let mut i: usize = 0;
        assert(cv.take(0) =~= Seq::<CardView>::empty());
        assert(card_views(out@) =~= ranked_from(cv, k + 1) + with_key(cv.take(0), k as int));
        while i < cards.len()
            invariant
                i <= cards@.len(),
                k < 100,
                cv == card_views(cards@),
                card_views(out@) == ranked_from(cv, k + 1) + with_key(cv.take(i as int), k as int),
            decreases cards@.len() - i,
        {
            let key = cards[i].current_rank_order as u32 * 10 + cards[i].peak_rank_order as u32;
            let ghost before = out@;
            proof {
                assert(cv.take(i + 1).drop_last() =~= cv.take(i as int));
                assert(cv.take(i + 1).last() == cards@[i as int]@);
            }
            if key == k {
                out.push(cards[i].clone());
                assert(card_views(out@) =~= card_views(before).push(cards@[i as int]@));
            }
            i += 1;
        }
        assert(cv.take(cards@.len() as int) =~= cv);
    }
    out
}

/// Reads a sign-up sheet into player cards, strongest first: ranked by
/// current rank, then by peak rank, players that tie keeping the order of
/// the sheet. `None` when the sheet has no header row, a title cell holds
/// no text, or a row leaves a question unanswered.
pub fn format_responses(rows: &Vec<Vec<Option<String>>>) -> (r: Option<Vec<PlayerCard>>)
    ensures
        r is Some <==> is_readable(sheet(rows@)),
        r is Some ==> card_views(r->Some_0@) == ranked(sheet_cards(sheet(rows@))),
{
    let ghost s = sheet(rows@);
    if rows.len() == 0 {
        return None;
    }
    assert(s[0] == rows@[0]@);
    let header = match header_titles(&rows[0]) {
        Some(t) => t,
        None => return None,
    };
    let mut cards: Vec<PlayerCard> = Vec::new();
    let mut i: usize = 1;
    while i < rows.len()
        invariant
            1 <= i <= rows@.len(),
            s == sheet(rows@),
            is_header_row(s[0]),
            string_texts(header@) == titles(s[0]),
            cards@.len() == i - 1,
            forall|j: int| 1 <= j < i ==> is_complete(titles(s[0]), #[trigger] s[j]),
            forall|j: int| 0 <= j < i - 1 ==> (#[trigger] cards@[j])@ == card_of(titles(s[0]), s[j + 1]),
        decreases rows@.len() - i,
    {
        assert(s[i as int] == rows@[i as int]@);
        let raw = match raw_player_from(&header, &rows[i]) {
            Some(p) => p,
            None => return None,
        };
        cards.push(PlayerCard::from_raw(raw));
        i += 1;
    }
    assert(card_views(cards@) =~= sheet_cards(s));
    Some(order_by_rank(&cards))
}

} // verus!
