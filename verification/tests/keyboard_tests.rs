use keyboard_layout::key::{Finger, Hand, Key, MatrixPosition, Position};
use keyboard_layout::keyboard::{
    contains_duplicates, Keyboard, KeyboardYAML, TemplateRenderError, ValidationError,
};

/// A consistent configuration with 2 rows of 2 keys each and no duplicates.
fn two_by_two() -> KeyboardYAML {
    KeyboardYAML {
        matrix_positions: vec![
            vec![MatrixPosition(0, 0), MatrixPosition(0, 1)],
            vec![MatrixPosition(1, 0), MatrixPosition(1, 1)],
        ],
        positions: vec![
            vec![Position(0, 0), Position(10, 0)],
            vec![Position(0, 10), Position(10, 10)],
        ],
        hands: vec![
            vec![Hand::Left, Hand::Right],
            vec![Hand::Left, Hand::Right],
        ],
        fingers: vec![
            vec![Finger::Index, Finger::Index],
            vec![Finger::Middle, Finger::Middle],
        ],
        key_costs: vec![vec![1, 2], vec![3, 4]],
        symmetries: vec![vec![0, 0], vec![1, 1]],
        unbalancing_positions: vec![vec![0, 5], vec![6, 0]],
        plot_template: String::from("|{{0}}{{1}}|\n|{{2}}{{3}}|\n"),
        plot_template_short: String::from("{{0}}{{1}}{{2}}{{3}}"),
    }
}

#[test]
fn two_by_two_validates_and_assembles() {
    let k = two_by_two();
    assert_eq!(k.validate(), Ok(()));
    let kb = Keyboard::from_yaml_object(k);
    assert_eq!(kb.keys.len(), 4);
    // Row-major order: top row first, leftmost element first.
    assert_eq!(
        kb.keys[0],
        Key {
            hand: Hand::Left,
            finger: Finger::Index,
            matrix_position: MatrixPosition(0, 0),
            position: Position(0, 0),
            symmetry_index: 0,
            cost: 1,
            unbalancing: 0,
        }
    );
    assert_eq!(
        kb.keys[1],
        Key {
            hand: Hand::Right,
            finger: Finger::Index,
            matrix_position: MatrixPosition(0, 1),
            position: Position(10, 0),
            symmetry_index: 0,
            cost: 2,
            unbalancing: 5,
        }
    );
    assert_eq!(
        kb.keys[2],
        Key {
            hand: Hand::Left,
            finger: Finger::Middle,
            matrix_position: MatrixPosition(1, 0),
            position: Position(0, 10),
            symmetry_index: 1,
            cost: 3,
            unbalancing: 6,
        }
    );
    assert_eq!(
        kb.keys[3],
        Key {
            hand: Hand::Right,
            finger: Finger::Middle,
            matrix_position: MatrixPosition(1, 1),
            position: Position(10, 10),
            symmetry_index: 1,
            cost: 4,
            unbalancing: 0,
        }
    );
}

#[test]
fn mismatched_key_costs_fail_validation() {
    let mut k = two_by_two();
    // Only 3 cost entries in total, against 4 keys everywhere else.
    k.key_costs = vec![vec![1, 2], vec![3]];
    assert_eq!(k.validate(), Err(ValidationError::MismatchedFieldCount));
}

#[test]
fn duplicate_matrix_position_fails_validation() {
    let mut k = two_by_two();
    // Two keys share the matrix position (0, 0) while all lengths match.
    k.matrix_positions = vec![
        vec![MatrixPosition(0, 0), MatrixPosition(0, 1)],
        vec![MatrixPosition(0, 0), MatrixPosition(1, 1)],
    ];
    assert_eq!(k.validate(), Err(ValidationError::DuplicateMatrixPosition));
}

#[test]
fn duplicate_position_fails_validation() {
    let mut k = two_by_two();
    // Two keys share the spatial position (10, 10) while all lengths match
    // and the matrix positions stay distinct.
    k.positions = vec![
        vec![Position(0, 0), Position(10, 10)],
        vec![Position(0, 10), Position(10, 10)],
    ];
    assert_eq!(k.validate(), Err(ValidationError::DuplicatePosition));
}

#[test]
fn all_empty_configuration_is_valid() {
    let k = KeyboardYAML {
        matrix_positions: vec![],
        positions: vec![],
        hands: vec![],
        fingers: vec![],
        key_costs: vec![],
        symmetries: vec![],
        unbalancing_positions: vec![],
        plot_template: String::new(),
        plot_template_short: String::new(),
    };
    assert_eq!(k.validate(), Ok(()));
    let kb = Keyboard::from_yaml_object(k);
    assert_eq!(kb.keys.len(), 0);
}

#[test]
fn assembly_is_reproducible() {
    let k = two_by_two();
    let kb1 = Keyboard::from_yaml_object(k.clone());
    let kb2 = Keyboard::from_yaml_object(k);
    assert_eq!(kb1.keys, kb2.keys);
}

#[test]
fn duplicate_survives_row_permutation() {
    let mut k = two_by_two();
    k.matrix_positions = vec![
        vec![MatrixPosition(0, 0), MatrixPosition(0, 1)],
        vec![MatrixPosition(1, 0), MatrixPosition(0, 0)],
    ];
    assert_eq!(k.validate(), Err(ValidationError::DuplicateMatrixPosition));

    // Swap the two rows of every attribute array: the duplicated pair now
    // sits elsewhere in the flattened order, but is still found.
    let mut p = two_by_two();
    p.matrix_positions = vec![
        vec![MatrixPosition(1, 0), MatrixPosition(0, 0)],
        vec![MatrixPosition(0, 0), MatrixPosition(0, 1)],
    ];
    p.positions = vec![
        vec![Position(0, 10), Position(10, 10)],
        vec![Position(0, 0), Position(10, 0)],
    ];
    p.hands.swap(0, 1);
    p.fingers.swap(0, 1);
    p.key_costs.swap(0, 1);
    p.symmetries.swap(0, 1);
    p.unbalancing_positions.swap(0, 1);
    assert_eq!(p.validate(), Err(ValidationError::DuplicateMatrixPosition));
}

#[test]
fn contains_duplicates_finds_a_duplicated_pair() {
    let no_dup = vec![MatrixPosition(0, 0), MatrixPosition(0, 1), MatrixPosition(1, 0)];
    assert!(!contains_duplicates(&no_dup));
    let dup = vec![MatrixPosition(0, 0), MatrixPosition(0, 1), MatrixPosition(0, 0)];
    assert!(contains_duplicates(&dup));
    let empty: Vec<Position> = vec![];
    assert!(!contains_duplicates(&empty));
}

#[test]
fn plot_substitutes_labels_into_the_template() {
    let kb = Keyboard::from_yaml_object(two_by_two());
    let labels = ['a', 'b', 'c', 'd'];
    assert_eq!(kb.plot(&labels).unwrap(), "|ab|\n|cd|\n");
    assert_eq!(kb.plot_compact(&labels).unwrap(), "abcd");
}

#[test]
fn plot_does_not_escape_special_characters() {
    let kb = Keyboard::from_yaml_object(two_by_two());
    let labels = ['<', '&', '"', '>'];
    assert_eq!(kb.plot_compact(&labels).unwrap(), "<&\">");
}

#[test]
fn malformed_template_fails_to_render() {
    let kb = Keyboard {
        keys: vec![],
        plot_template: String::from("{{#if}}"),
        plot_template_short: String::new(),
    };
    assert_eq!(kb.plot(&['a', 'b', 'c', 'd']), Err(TemplateRenderError));
}

#[test]
fn plot_leaves_missing_labels_to_the_engine() {
    // A label sequence shorter than the key count: the engine's own default
    // renders the unresolved placeholders as empty text.
    let kb = Keyboard::from_yaml_object(two_by_two());
    let labels = ['a', 'b'];
    assert_eq!(kb.plot_compact(&labels).unwrap(), "ab");
}
