use snake_draft::turn::next_turn;

fn walk(count: usize, steps: usize) -> Vec<usize> {
    let mut out = vec![];
    let (mut index, mut direction) = (0usize, 1i64);
    for _ in 0..steps {
        out.push(index);
        let (i, d) = next_turn(count, index, direction);
        index = i;
        direction = d;
    }
    out
}

#[test]
fn four_teams_follow_the_snake_order() {
    assert_eq!(walk(4, 12), vec![0, 1, 2, 3, 3, 2, 1, 0, 0, 1, 2, 3]);
}

#[test]
fn single_team_picks_every_turn_and_flips_direction() {
    let (mut index, mut direction) = (0usize, 1i64);
    for _ in 0..6 {
        let (i, d) = next_turn(1, index, direction);
        assert_eq!(i, 0);
        assert_eq!(d, -direction);
        index = i;
        direction = d;
    }
}

#[test]
fn bounce_at_the_high_end() {
    assert_eq!(next_turn(3, 2, 1), (2, -1));
}

#[test]
fn bounce_at_the_low_end() {
    assert_eq!(next_turn(3, 0, -1), (0, 1));
}

#[test]
fn middle_steps_keep_direction() {
    assert_eq!(next_turn(3, 0, 1), (1, 1));
    assert_eq!(next_turn(3, 2, -1), (1, -1));
}

#[test]
fn two_teams_order() {
    assert_eq!(walk(2, 8), vec![0, 1, 1, 0, 0, 1, 1, 0]);
}
