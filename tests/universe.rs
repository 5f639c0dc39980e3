use rule_life::cell::Cell;
use rule_life::rule::is_evaluable;
use rule_life::universe::{IndexError, ParseError, Universe};

fn all_dead(width: u32, height: u32) -> Universe {
    let mut u = Universe::with_size(width, height);
    for row in 0..height {
        for col in 0..width {
            u.set(row, col, Cell::Dead);
        }
    }
    u
}

fn add(u: &mut Universe, from: &str, to: &str, condition: &str) {
    assert_eq!(
        u.add_rule(from.to_string(), to.to_string(), condition.to_string()),
        Ok(())
    );
}

#[test]
fn parse_reads_states_ignoring_case() {
    assert_eq!(Cell::parse_from_string(&"Alive".to_string()), Some(Cell::Alive));
    assert_eq!(Cell::parse_from_string(&"ALIVE".to_string()), Some(Cell::Alive));
    assert_eq!(Cell::parse_from_string(&"DeAd".to_string()), Some(Cell::Dead));
    assert_eq!(Cell::parse_from_string(&"  the cell is dead  ".to_string()), Some(Cell::Dead));
    assert_eq!(Cell::parse_from_string(&"bogus".to_string()), None);
    assert_eq!(Cell::parse_from_string(&"".to_string()), None);
}

#[test]
fn parse_prefers_alive_over_dead() {
    assert_eq!(Cell::parse_from_string(&"dead or alive".to_string()), Some(Cell::Alive));
}

#[test]
fn parse_lowercase_does_not_fold_case() {
    assert_eq!(Cell::parse_lowercase("alive"), Some(Cell::Alive));
    assert_eq!(Cell::parse_lowercase("ALIVE"), None);
}

#[test]
fn new_has_default_size_and_seed() {
    let u = Universe::new();
    assert_eq!(u.width(), 64);
    assert_eq!(u.height(), 32);
    assert_eq!(u.cells().len(), 64 * 32);
    assert_eq!(u.rule_count(), 0);
    for (i, c) in u.cells().iter().enumerate() {
        let expected = if i % 2 == 0 || i % 5 == 0 { Cell::Alive } else { Cell::Dead };
        assert_eq!(*c, expected, "cell {}", i);
    }
}

#[test]
fn restart_reproduces_fresh_universe() {
    let fresh = Universe::new();
    let mut u = Universe::new();
    add(&mut u, "alive", "dead", "x < 2 || x > 3");
    add(&mut u, "dead", "alive", "x == 3");
    u.tick();
    u.tick();
    assert_ne!(u.cells(), fresh.cells());
    u.restart();
    assert_eq!(u.cells(), fresh.cells());
    assert_eq!(u.rule_count(), 2);
}

#[test]
fn restart_on_small_grid() {
    let mut u = all_dead(3, 4);
    u.restart();
    assert_eq!(u.cells(), Universe::with_size(3, 4).cells());
}

#[test]
fn get_and_set_use_row_major_index() {
    let mut u = all_dead(4, 3);
    u.set(2, 1, Cell::Alive);
    assert_eq!(u.get(2, 1), Cell::Alive);
    assert_eq!(u.cells()[2 * 4 + 1], Cell::Alive);
    assert_eq!(u.cells().iter().filter(|c| **c == Cell::Alive).count(), 1);
}

#[test]
fn corner_counts_wrapped_neighbours() {
    let (w, h) = (5u32, 4u32);
    let neighbours = [
        (h - 1, w - 1),
        (h - 1, 0),
        (h - 1, 1),
        (0, w - 1),
        (0, 1),
        (1, w - 1),
        (1, 0),
        (1, 1),
    ];
    let mut u = all_dead(w, h);
    assert_eq!(u.live_neighbour_count(0, 0), 0);
    for (k, (r, c)) in neighbours.iter().enumerate() {
        u.set(*r, *c, Cell::Alive);
        assert_eq!(u.live_neighbour_count(0, 0), (k + 1) as u8);
    }
    u.set(2, 2, Cell::Alive);
    u.set(0, 0, Cell::Alive);
    assert_eq!(u.live_neighbour_count(0, 0), 8);
}

#[test]
fn count_of_full_grid_is_eight() {
    let mut u = all_dead(3, 3);
    for row in 0..3 {
        for col in 0..3 {
            u.set(row, col, Cell::Alive);
        }
    }
    for row in 0..3 {
        for col in 0..3 {
            assert_eq!(u.live_neighbour_count(row, col), 8);
        }
    }
}

#[test]
fn tick_without_rules_keeps_grid() {
    let mut u = Universe::new();
    let before = u.cells().clone();
    u.tick();
    assert_eq!(u.cells(), &before);
}

#[test]
fn first_matching_rule_wins() {
    let mut u = Universe::with_size(6, 5);
    let before = u.cells().clone();
    add(&mut u, "alive", "dead", "true");
    add(&mut u, "alive", "alive", "true");
    u.tick();
    for (old, new) in before.iter().zip(u.cells().iter()) {
        match old {
            Cell::Alive => assert_eq!(*new, Cell::Dead),
            Cell::Dead => assert_eq!(*new, Cell::Dead),
        }
    }
}

#[test]
fn rules_of_other_state_are_skipped() {
    let mut u = Universe::with_size(6, 5);
    let before = u.cells().clone();
    add(&mut u, "dead", "alive", "false");
    add(&mut u, "dead", "alive", "x >= 0");
    u.tick();
    assert!(u.cells().iter().all(|c| *c == Cell::Alive));
    assert!(before.iter().any(|c| *c == Cell::Dead));
}

#[test]
fn add_rule_with_bad_from_state_changes_nothing() {
    let mut u = Universe::new();
    add(&mut u, "alive", "dead", "x < 2");
    assert_eq!(u.rule_count(), 1);
    let r = u.add_rule("bogus".to_string(), "alive".to_string(), "true".to_string());
    assert_eq!(r, Err(ParseError::FromState));
    assert_eq!(u.rule_count(), 1);
}

#[test]
fn add_rule_with_bad_to_state_changes_nothing() {
    let mut u = Universe::new();
    let r = u.add_rule("alive".to_string(), "zombie".to_string(), "true".to_string());
    assert_eq!(r, Err(ParseError::ToState));
    assert_eq!(u.rule_count(), 0);
}

#[test]
fn add_rule_appends_parsed_rule() {
    let mut u = Universe::new();
    add(&mut u, "Alive", "DEAD", "x > 3");
    let rule = u.rule(0);
    assert_eq!(rule.from_state(), Cell::Alive);
    assert_eq!(rule.to_state(), Cell::Dead);
    assert_eq!(rule.condition(), "x > 3");
}

#[test]
fn remove_rule_shifts_later_rules() {
    let mut u = Universe::new();
    add(&mut u, "alive", "dead", "A");
    add(&mut u, "alive", "dead", "B");
    add(&mut u, "alive", "dead", "C");
    assert_eq!(u.remove_rule(0), Ok(()));
    assert_eq!(u.rule_count(), 2);
    assert_eq!(u.rule(0).condition(), "B");
    assert_eq!(u.rule(1).condition(), "C");
    assert_eq!(u.remove_rule(5), Err(IndexError { index: 5, len: 2 }));
    assert_eq!(u.rule_count(), 2);
    assert_eq!(u.rule(0).condition(), "B");
    assert_eq!(u.rule(1).condition(), "C");
}

#[test]
fn remove_rule_on_empty_list_fails() {
    let mut u = Universe::new();
    assert_eq!(u.remove_rule(0), Err(IndexError { index: 0, len: 0 }));
}

#[test]
fn lonely_center_dies() {
    let mut u = all_dead(3, 3);
    u.set(1, 1, Cell::Alive);
    assert_eq!(u.live_neighbour_count(1, 1), 0);
    add(&mut u, "alive", "dead", "x < 2");
    u.tick();
    assert!(u.cells().iter().all(|c| *c == Cell::Dead));
}

#[test]
fn birth_across_the_wrapped_corner() {
    // On a 3x3 torus every cell touches every other one, so each dead cell
    // sees the single live cell at (0, 0).
    let mut u = all_dead(3, 3);
    u.set(0, 0, Cell::Alive);
    assert_eq!(u.live_neighbour_count(2, 2), 1);
    assert_eq!(u.live_neighbour_count(1, 1), 1);
    add(&mut u, "dead", "alive", "x == 1");
    u.tick();
    assert_eq!(u.get(2, 2), Cell::Alive);
    assert_eq!(u.get(0, 0), Cell::Alive);
    assert!(u.cells().iter().all(|c| *c == Cell::Alive));
}

#[test]
fn birth_across_the_wrapped_corner_on_larger_grid() {
    let mut u = all_dead(5, 5);
    u.set(0, 0, Cell::Alive);
    assert_eq!(u.live_neighbour_count(4, 4), 1);
    assert_eq!(u.live_neighbour_count(2, 2), 0);
    add(&mut u, "dead", "alive", "x == 1");
    u.tick();
    assert_eq!(u.get(4, 4), Cell::Alive);
    assert_eq!(u.get(2, 2), Cell::Dead);
    assert_eq!(u.get(0, 0), Cell::Alive);
}

#[test]
fn tick_reads_only_the_old_generation() {
    // A blinker: with in-place updates the result would differ.
    let mut u = all_dead(5, 5);
    u.set(2, 1, Cell::Alive);
    u.set(2, 2, Cell::Alive);
    u.set(2, 3, Cell::Alive);
    add(&mut u, "alive", "dead", "x < 2 || x > 3");
    add(&mut u, "dead", "alive", "x == 3");
    u.tick();
    let mut expected = all_dead(5, 5);
    expected.set(1, 2, Cell::Alive);
    expected.set(2, 2, Cell::Alive);
    expected.set(3, 2, Cell::Alive);
    assert_eq!(u.cells(), expected.cells());
    u.tick();
    assert_eq!(u.get(2, 1), Cell::Alive);
    assert_eq!(u.get(2, 3), Cell::Alive);
    assert_eq!(u.get(1, 2), Cell::Dead);
}

#[test]
fn failing_or_non_boolean_conditions_do_not_fire() {
    let mut u = Universe::with_size(4, 4);
    let before = u.cells().clone();
    add(&mut u, "alive", "dead", "x + 1");
    add(&mut u, "dead", "alive", "y == 1");
    u.tick();
    assert_eq!(u.cells(), &before);
}

#[test]
fn render_draws_rows() {
    let u = Universe::with_size(2, 2);
    assert_eq!(u.render(), "\u{2B1B}\u{2B1C}\n\u{2B1B}\u{2B1C}\n");
    let v = Universe::with_size(3, 1);
    assert_eq!(v.render(), "\u{2B1B}\u{2B1C}\u{2B1B}\n");
}

#[test]
fn render_has_one_line_per_row() {
    let u = Universe::new();
    let text = u.render();
    assert_eq!(text.lines().count(), 32);
    assert!(text.lines().all(|l| l.chars().count() == 64));
    assert!(text.ends_with('\n'));
}

#[test]
fn evaluate_rule_reports_the_evaluator_outcome() {
    let mut u = Universe::new();
    add(&mut u, "alive", "dead", "x < 2");
    add(&mut u, "alive", "dead", "x + 1");
    add(&mut u, "dead", "alive", "(x < 2");
    add(&mut u, "dead", "alive", "x && true");
    assert_eq!(u.evaluate_rule(0, 1), Some(true));
    assert_eq!(u.evaluate_rule(0, 5), Some(false));
    assert_eq!(u.evaluate_rule(1, 3), None);
    assert_eq!(u.evaluate_rule(2, 1), None);
    assert_eq!(u.evaluate_rule(3, 1), None);
}

#[test]
fn evaluable_fragment() {
    assert!(is_evaluable("x == 3"));
    assert!(is_evaluable("x < 2 || x > 3"));
    assert!(is_evaluable("x != 3 && x >= 1"));
    assert!(is_evaluable("true"));
    assert!(is_evaluable(""));
    assert!(!is_evaluable("x % 0 == 0"));
    assert!(!is_evaluable("x + 1 > 2"));
    assert!(!is_evaluable("(x < 2)"));
    assert!(!is_evaluable("! "));
    assert!(!is_evaluable("x !< 3"));
    assert!(!is_evaluable("x < 2 \u{2264}"));
    assert!(!is_evaluable(&"x".repeat(1001)));
    assert!(is_evaluable(&"x".repeat(1000)));
}

#[test]
fn conditions_outside_the_fragment_never_fire() {
    let mut u = Universe::with_size(4, 4);
    let before = u.cells().clone();
    add(&mut u, "alive", "dead", "x % 0 == 0");
    add(&mut u, "dead", "alive", "x * 100000000000 > 0 || true");
    add(&mut u, "alive", "dead", "! ");
    u.tick();
    assert_eq!(u.cells(), &before);
    assert_eq!(u.evaluate_rule(0, 3), None);
    assert_eq!(u.evaluate_rule(1, 3), None);
    assert_eq!(u.evaluate_rule(2, 3), None);
}

#[test]
fn not_equal_condition_fires() {
    let mut u = all_dead(3, 3);
    add(&mut u, "dead", "alive", "x != 1");
    assert_eq!(u.evaluate_rule(0, 0), Some(true));
    assert_eq!(u.evaluate_rule(0, 1), Some(false));
    u.tick();
    assert!(u.cells().iter().all(|c| *c == Cell::Alive));
}
