use snake_draft::ranks::{rank_of_name, rank_to_number};
use snake_draft::signup::{
    format_responses, PlayerCard, RawPlayer, CURRENT_RANK_HEADER, IGN_HEADER, NAME_HEADER,
    PEAK_RANK_HEADER, PREFERENCES_HEADER, ROLES_HEADER,
};

fn cell(s: &str) -> Option<String> {
    Some(s.to_string())
}

fn header() -> Vec<Option<String>> {
    vec![
        cell("Timestamp"),
        cell(NAME_HEADER),
        cell(PEAK_RANK_HEADER),
        cell(CURRENT_RANK_HEADER),
        cell(PREFERENCES_HEADER),
        cell(ROLES_HEADER),
        cell(IGN_HEADER),
    ]
}

fn row(name: &str, peak: &str, current: &str, ign: &str) -> Vec<Option<String>> {
    vec![cell("1/1/2025"), cell(name), cell(peak), cell(current), cell("none"), cell("Flex"), cell(ign)]
}

fn igns(cards: &[PlayerCard]) -> Vec<String> {
    cards.iter().map(|c| c.ign.clone()).collect()
}

#[test]
fn rank_numbers() {
    assert_eq!(rank_to_number("Iron"), 1);
    assert_eq!(rank_to_number("Bronze"), 2);
    assert_eq!(rank_to_number("Silver"), 3);
    assert_eq!(rank_to_number("Gold"), 4);
    assert_eq!(rank_to_number("Plat"), 5);
    assert_eq!(rank_to_number("Platinum"), 5);
    assert_eq!(rank_to_number("Diamond"), 6);
    assert_eq!(rank_to_number("Ascendant"), 7);
    assert_eq!(rank_to_number("Immortal"), 8);
    assert_eq!(rank_to_number("Radiant"), 9);
    assert_eq!(rank_to_number("Unranked"), 0);
    assert_eq!(rank_to_number(""), 0);
}

#[test]
fn rank_ignores_surrounding_white_space() {
    assert_eq!(rank_to_number("  Gold \n"), 4);
    assert_eq!(rank_to_number("\tRadiant"), 9);
}

#[test]
fn rank_of_name_is_exact() {
    assert_eq!(rank_of_name("Gold"), 4);
    assert_eq!(rank_of_name(" Gold"), 0);
    assert_eq!(rank_of_name("gold"), 0);
}

#[test]
fn cards_are_ranked_strongest_first() {
    let rows = vec![
        header(),
        row("Ann", "Gold", "Silver", "ann#1"),
        row("Bo", "Radiant", "Immortal", "bo#2"),
        row("Cy", "Diamond", "Silver", "cy#3"),
        row("Di", "Iron", "Iron", "di#4"),
    ];
    let cards = format_responses(&rows).unwrap();
    assert_eq!(igns(&cards), vec!["bo#2", "cy#3", "ann#1", "di#4"]);
    assert_eq!(cards[0].current_rank_order, 8);
    assert_eq!(cards[0].peak_rank_order, 9);
    assert_eq!(cards[1].current_rank_order, 3);
    assert_eq!(cards[1].peak_rank_order, 6);
}

#[test]
fn ties_keep_sheet_order() {
    let rows = vec![
        header(),
        row("A", "Gold", "Gold", "a"),
        row("B", "Gold", "Gold", "b"),
        row("C", "Plat", "Gold", "c"),
        row("D", "Gold", "Gold", "d"),
    ];
    let cards = format_responses(&rows).unwrap();
    assert_eq!(igns(&cards), vec!["c", "a", "b", "d"]);
}

#[test]
fn answers_are_trimmed_and_copied() {
    let rows = vec![header(), row("  Ann  ", " Gold", "Silver ", " ann#1 ")];
    let cards = format_responses(&rows).unwrap();
    let c = &cards[0];
    assert_eq!(c.name, "Ann");
    assert_eq!(c.peak_rank, "Gold");
    assert_eq!(c.current_rank, "Silver");
    assert_eq!(c.teammate_preferences, "none");
    assert_eq!(c.roles, "Flex");
    assert_eq!(c.ign, "ann#1");
    assert_eq!(c.peak_rank_order, 4);
    assert_eq!(c.current_rank_order, 3);
}

#[test]
fn non_text_answer_reads_as_empty() {
    let mut r = row("Ann", "Gold", "Silver", "ann#1");
    r[4] = None;
    let cards = format_responses(&vec![header(), r]).unwrap();
    assert_eq!(cards[0].teammate_preferences, "");
}

#[test]
fn header_only_sheet_gives_no_cards() {
    assert_eq!(format_responses(&vec![header()]), Some(vec![]));
}

#[test]
fn empty_sheet_is_refused() {
    assert_eq!(format_responses(&vec![]), None);
}

#[test]
fn non_text_title_is_refused() {
    let mut h = header();
    h[0] = None;
    assert_eq!(format_responses(&vec![h, row("A", "Gold", "Gold", "a")]), None);
}

#[test]
fn short_row_is_refused() {
    let mut r = row("A", "Gold", "Gold", "a");
    r.truncate(6);
    assert_eq!(format_responses(&vec![header(), r]), None);
}

#[test]
fn repeated_title_takes_last_column() {
    let mut h = header();
    h.push(cell(NAME_HEADER));
    let mut r = row("First", "Gold", "Gold", "a");
    r.push(cell("Second"));
    let cards = format_responses(&vec![h, r]).unwrap();
    assert_eq!(cards[0].name, "Second");
}

#[test]
fn card_from_raw_player() {
    let raw = RawPlayer {
        name: "N".to_string(),
        peak_rank: "Ascendant".to_string(),
        current_rank: " Bronze ".to_string(),
        teammate_preferences: "p".to_string(),
        roles: "r".to_string(),
        ign: "n#1".to_string(),
    };
    let c = PlayerCard::from_raw(raw);
    assert_eq!(c.peak_rank_order, 7);
    assert_eq!(c.current_rank_order, 2);
    assert_eq!(c.current_rank, " Bronze ");
}
