use pixbox::registry::{draw, pick_transform, registry, Transform, REGISTRY_SIZE};

const NAMES: [&str; 15] = [
    "oceanic",
    "islands",
    "marine",
    "seagreen",
    "flagblue",
    "liquid",
    "diamante",
    "radio",
    "twenties",
    "rosetint",
    "mauve",
    "bluechrome",
    "vintage",
    "perfume",
    "serenity",
];

#[test]
fn registry_holds_fifteen_names_in_order() {
    let all = registry();
    assert_eq!(all.len(), REGISTRY_SIZE);
    assert_eq!(REGISTRY_SIZE, 15);
    for (i, t) in all.iter().enumerate() {
        assert_eq!(t.name(), NAMES[i]);
        assert_eq!(t.index(), i);
    }
}

#[test]
fn from_index_inverts_index() {
    for i in 0..REGISTRY_SIZE {
        let t = Transform::from_index(i).unwrap();
        assert_eq!(t.index(), i);
        assert_eq!(t, registry()[i]);
    }
    assert_eq!(Transform::from_index(0), Some(Transform::Oceanic));
    assert_eq!(Transform::from_index(14), Some(Transform::Serenity));
}

#[test]
fn from_index_rejects_positions_outside_the_registry() {
    assert_eq!(Transform::from_index(15), None);
    assert_eq!(Transform::from_index(usize::MAX), None);
}

#[test]
fn names_are_distinct_and_hold_no_hyphen() {
    let all = registry();
    for a in all.iter() {
        assert!(!a.name().is_empty());
        assert!(!a.name().contains('-'));
        for b in all.iter() {
            assert_eq!(a.name() == b.name(), a == b);
        }
    }
}

#[test]
fn draw_from_nothing_is_none() {
    assert_eq!(draw(&[]), None);
}

#[test]
fn draw_from_one_candidate_is_that_candidate() {
    for _ in 0..50 {
        assert_eq!(draw(&[Transform::Mauve]), Some(Transform::Mauve));
    }
}

#[test]
fn draw_returns_one_of_the_candidates() {
    let candidates = [Transform::Radio, Transform::Vintage, Transform::Liquid];
    let mut seen = [false; 3];
    for _ in 0..500 {
        let t = draw(&candidates).unwrap();
        let at = candidates.iter().position(|c| *c == t).unwrap();
        seen[at] = true;
    }
    assert_eq!(seen, [true, true, true]);
}

#[test]
fn pick_transform_is_uniform_over_the_registry() {
    let draws = 15_000usize;
    let mut counts = [0usize; 15];
    for _ in 0..draws {
        counts[pick_transform().index()] += 1;
    }
    let expected = draws as f64 / REGISTRY_SIZE as f64;
    let mut chi_square = 0.0f64;
    for c in counts.iter() {
        assert!(*c > 0);
        let d = *c as f64 - expected;
        chi_square += d * d / expected;
    }
    // 14 degrees of freedom: a fair draw exceeds 80 less than once in 10^10 runs.
    assert!(chi_square < 80.0, "chi-square {} over {:?}", chi_square, counts);
}
