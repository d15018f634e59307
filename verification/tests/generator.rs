use gen_examples::city::{contains_delimiter, get_cities, get_city_name, pool_contains};
use gen_examples::emit::{emit_action, EmitAction, WriteOutcome};
use gen_examples::rng::GenRng;
use gen_examples::row::{format_row, RowGen};
use gen_examples::value::format_value;
use gen_examples::GenError;

fn run_once(max_cities: u32, rows: u32, seed: u64) -> Vec<String> {
    let mut rng = GenRng::from_seed(seed);
    let cities = get_cities(max_cities, &mut rng).expect("pool must build");
    let mut gen = RowGen::new(cities, rows).expect("pool must not be empty");
    let mut out = Vec::new();
    while let Some(row) = gen.next_row(&mut rng) {
        out.push(row);
    }
    out
}

fn is_alnum(c: char) -> bool {
    c.is_ascii_alphanumeric()
}

/// `-?\d+\.\d`, checked by hand.
fn matches_value_pattern(s: &str) -> bool {
    let body = s.strip_prefix('-').unwrap_or(s);
    let chars: Vec<char> = body.chars().collect();
    chars.len() >= 3
        && chars[chars.len() - 2] == '.'
        && chars[chars.len() - 1].is_ascii_digit()
        && chars[..chars.len() - 2].iter().all(|c| c.is_ascii_digit())
}

#[test]
fn format_value_exact() {
    assert_eq!(format_value(-427), "-42.7");
    assert_eq!(format_value(0), "0.0");
    assert_eq!(format_value(999), "99.9");
    assert_eq!(format_value(-999), "-99.9");
    assert_eq!(format_value(5), "0.5");
    assert_eq!(format_value(-5), "-0.5");
    assert_eq!(format_value(10), "1.0");
    assert_eq!(format_value(-10), "-1.0");
    assert_eq!(format_value(100), "10.0");
    assert_eq!(format_value(-100), "-10.0");
    assert_eq!(format_value(990), "99.0");
}

#[test]
fn format_value_pattern_and_range() {
    let mut v: i16 = -999;
    while v <= 999 {
        let s = format_value(v);
        assert!(matches_value_pattern(&s), "bad shape: {s}");
        let parsed: f64 = s.parse().expect("must parse as a number");
        assert!((-99.9..=99.9).contains(&parsed), "out of range: {s}");
        assert_eq!((parsed * 10.0).round() as i16, v, "wrong value: {s}");
        v += 1;
    }
}

#[test]
fn format_row_exact() {
    let city = String::from("Ab3");
    assert_eq!(format_row(&city, -427), "Ab3;-42.7");
    assert_eq!(format_row(&city, 30), "Ab3;3.0");
}

#[test]
fn city_name_is_well_formed() {
    let mut rng = GenRng::from_seed(7);
    for _ in 0..200 {
        let name = get_city_name(&mut rng);
        assert!(!name.is_empty() && name.len() <= 32, "bad length: {name}");
        assert!(name.chars().all(is_alnum), "bad character: {name}");
        assert!(!name.contains(';'));
    }
}

#[test]
fn pool_has_requested_size_no_duplicates_no_delimiter() {
    let mut rng = GenRng::from_seed(11);
    let pool = get_cities(50, &mut rng).expect("pool must build");
    assert_eq!(pool.len(), 50);
    for (i, name) in pool.iter().enumerate() {
        assert!(!name.contains(';'));
        assert!(!name.is_empty() && name.len() <= 32);
        assert!(name.chars().all(is_alnum));
        for other in &pool[i + 1..] {
            assert_ne!(name, other);
        }
    }
}

#[test]
fn pool_of_zero_cities_is_empty() {
    let mut rng = GenRng::from_seed(3);
    let pool = get_cities(0, &mut rng).expect("an empty pool still builds");
    assert!(pool.is_empty());
}

#[test]
fn empty_pool_is_fatal_before_any_row() {
    let mut rng = GenRng::from_seed(3);
    let pool = get_cities(0, &mut rng).expect("an empty pool still builds");
    match RowGen::new(pool, 10) {
        Err(e) => assert_eq!(e, GenError::EmptyPool),
        Ok(_) => panic!("an empty pool must be rejected"),
    }
}

#[test]
fn emitted_line_count_equals_rows() {
    for rows in [0u32, 1, 3, 100] {
        let lines = run_once(5, rows, 9);
        assert_eq!(lines.len(), rows as usize);
    }
}

#[test]
fn rows_are_city_delimiter_value() {
    let mut rng = GenRng::from_seed(21);
    let pool = get_cities(8, &mut rng).expect("pool must build");
    let mut gen = RowGen::new(pool.clone(), 200).expect("pool must not be empty");
    while let Some(row) = gen.next_row(&mut rng) {
        let delim = row.find(';').expect("row must hold the delimiter");
        let (city, rest) = row.split_at(delim);
        let value = &rest[1..];
        assert!(pool.iter().any(|c| c == city), "city not in pool: {row}");
        assert!(!value.contains(';'), "more than one delimiter: {row}");
        assert!(matches_value_pattern(value), "bad value text: {row}");
    }
}

#[test]
fn generate_rows_matches_streaming() {
    let mut rng_a = GenRng::from_seed(42);
    let pool_a = get_cities(5, &mut rng_a).expect("pool must build");
    let mut gen_a = RowGen::new(pool_a, 17).expect("pool must not be empty");
    let all = gen_a.generate_rows(&mut rng_a);
    let streamed = run_once(5, 17, 42);
    assert_eq!(all, streamed);
    assert_eq!(all.len(), 17);
}

#[test]
fn next_row_stops_at_zero() {
    let mut rng = GenRng::from_seed(5);
    let pool = get_cities(2, &mut rng).expect("pool must build");
    let mut gen = RowGen::new(pool, 2).expect("pool must not be empty");
    assert!(gen.next_row(&mut rng).is_some());
    assert!(gen.next_row(&mut rng).is_some());
    assert_eq!(gen.next_row(&mut rng), None);
    assert_eq!(gen.next_row(&mut rng), None);
}

#[test]
fn same_seed_gives_identical_output() {
    let first = run_once(20, 50, 1234);
    let second = run_once(20, 50, 1234);
    assert_eq!(first, second);
}

#[test]
fn seed_scenario_five_cities_three_rows() {
    let first = run_once(5, 3, 42);
    let second = run_once(5, 3, 42);
    let third = run_once(5, 3, 42);
    assert_eq!(first.len(), 3);
    assert_eq!(first, second);
    assert_eq!(first, third);
}

#[test]
fn broken_pipe_stops_quietly() {
    assert_eq!(emit_action(WriteOutcome::Written), EmitAction::Continue);
    assert_eq!(emit_action(WriteOutcome::BrokenPipe), EmitAction::Stop);
    assert_eq!(
        emit_action(WriteOutcome::OtherFailure),
        EmitAction::StopWithDiagnostic
    );
}

#[test]
fn delimiter_detection() {
    assert!(contains_delimiter(&String::from("ab;c")));
    assert!(contains_delimiter(&String::from(";")));
    assert!(!contains_delimiter(&String::from("abc")));
    assert!(!contains_delimiter(&String::from("")));
}

#[test]
fn pool_membership() {
    let pool = vec![String::from("Aa"), String::from("Bb")];
    assert!(pool_contains(&pool, &String::from("Aa")));
    assert!(pool_contains(&pool, &String::from("Bb")));
    assert!(!pool_contains(&pool, &String::from("Cc")));
}
