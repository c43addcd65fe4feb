//! Validation and assembly of a keyboard from its raw configuration.

use crate::key::{Finger, Hand, Key, MatrixPosition, Position};
use vstd::prelude::*;
use vstd::seq_lib::lemma_flatten_concat;
use vstd::std_specs::cmp::PartialEqSpec;

verus! {

/// The mathematical contents of a row-structured array: each row as the
/// sequence of its elements.
pub open spec fn rows_view<T>(rows: Seq<Vec<T>>) -> Seq<Seq<T>> {
    rows.map_values(|row: Vec<T>| row@)
}

/// Flattening one more row appends that row's elements.
proof fn lemma_flatten_take_one_more<T>(s: Seq<Seq<T>>, i: int)
    requires
        0 <= i < s.len(),
    ensures
        s.subrange(0, i + 1).flatten() == s.subrange(0, i).flatten() + s[i],
{
    let a = s.subrange(0, i);
    let b = seq![s[i]];
    assert(s.subrange(0, i + 1) =~= a + b);
    lemma_flatten_concat(a, b);
    b.lemma_flatten_one_element();
    assert(b.first() == s[i]);
}

/// Concatenates the rows of a row-structured array into one flat vector,
/// preserving row-major order: row order first, within-row order second.
fn concat_rows<T: Copy>(rows: &Vec<Vec<T>>) -> (r: Vec<T>)
    ensures
        r@ == rows_view(rows@).flatten(),
{
    let ghost rv = rows_view(rows@);
    let mut r: Vec<T> = Vec::new();
    let mut i: usize = 0;
    while i < rows.len()
        invariant
            i <= rows.len(),
            rv == rows_view(rows@),
            rv.len() == rows@.len(),
            r@ == rv.subrange(0, i as int).flatten(),
        decreases rows.len() - i,
    {
        let row = &rows[i];
        let mut j: usize = 0;
        while j < row.len()
            invariant
                j <= row.len(),
                i < rows.len(),
                rv == rows_view(rows@),
                rv.len() == rows@.len(),
                row@ == rv[i as int],
                r@ == rv.subrange(0, i as int).flatten() + row@.subrange(0, j as int),
            decreases row.len() - j,
        {
            r.push(row[j]);
            assert(row@.subrange(0, j + 1) =~= row@.subrange(0, j as int).push(row@[j as int]));
            j += 1;
        }
        proof {
            assert(row@.subrange(0, row@.len() as int) =~= row@);
            lemma_flatten_take_one_more(rv, i as int);
        }
        i += 1;
    }
    proof {
        assert(rv.subrange(0, rows@.len() as int) =~= rv);
    }
    r
}

/// Checks whether a vector contains duplicates of any of its elements.
///
/// The preconditions say that the type's `==` agrees with structural
/// equality, so that the result can be stated over the mathematical
/// sequence of elements.
pub fn contains_duplicates<T: Copy + PartialEq>(v: &Vec<T>) -> (r: bool)
    requires
        T::obeys_eq_spec(),
        forall|a: T, b: T| #[trigger] a.eq_spec(&b) == (a == b),
    ensures
        r == !v@.no_duplicates(),
{
    let n = v.len();
    let mut i: usize = 0;
    while i < n
        invariant
            i <= n,
            n == v@.len(),
            T::obeys_eq_spec(),
            forall|a: T, b: T| #[trigger] a.eq_spec(&b) == (a == b),
            forall|p: int, q: int| 0 <= p < i && p < q < n ==> v@[p] != v@[q],
        decreases n - i,
    {
        let mut j: usize = i + 1;
        while j < n
            invariant
                i < n,
                i < j,
                j <= n,
                n == v@.len(),
                T::obeys_eq_spec(),
                forall|a: T, b: T| #[trigger] a.eq_spec(&b) == (a == b),
                forall|q: int| i < q < j ==> v@[i as int] != v@[q],
            decreases n - j,
        {
            if v[i] == v[j] {
                return true;
            }
            j += 1;
        }
        i += 1;
    }
    assert(v@.no_duplicates()) by {
        assert forall|p: int, q: int|
            0 <= p < v@.len() && 0 <= q < v@.len() && p != q implies v@[p] != v@[q] by {
            if p < q {
            } else {
            }
        }
    }
    false
}

/// The ways a raw configuration can fail validation.
#[derive(Clone, Copy, Debug, PartialEq, Eq)]
pub enum ValidationError {
    /// The seven attribute arrays do not describe the same number of keys.
    MismatchedFieldCount,
    /// Two keys share the same matrix position.
    DuplicateMatrixPosition,
    /// Two keys share the same spatial position.
    DuplicatePosition,
}

/// A raw keyboard configuration: one row-structured array per key attribute,
/// plus the two rendering templates.
///
/// Rows across the seven arrays are meant to align one-to-one in row count
/// and per-row element count; [`KeyboardYAML::validate`] decides whether they
/// do, and [`Keyboard::from_yaml_object`] flattens them into one ordered key
/// list.
#[derive(Clone, Debug)]
pub struct KeyboardYAML {
    /// Matrix positions of the keys, row by row
    pub matrix_positions: Vec<Vec<MatrixPosition>>,
    /// Spatial positions of the keys, row by row
    pub positions: Vec<Vec<Position>>,
    /// Hand of each key, row by row
    pub hands: Vec<Vec<Hand>>,
    /// Finger of each key, row by row
    pub fingers: Vec<Vec<Finger>>,
    /// Ergonomic cost of each key, row by row
    pub key_costs: Vec<Vec<u64>>,
    /// Symmetry index of each key, row by row
    pub symmetries: Vec<Vec<u8>>,
    /// Unbalancing weight of each key, row by row
    pub unbalancing_positions: Vec<Vec<u64>>,
    /// Template for a full graphical representation of the keyboard
    pub plot_template: String,
    /// Template for a compact graphical representation of the keyboard
    pub plot_template_short: String,
}

/// The mathematical contents of a [`KeyboardYAML`].
pub struct KeyboardYamlView {
    pub matrix_positions: Seq<Seq<MatrixPosition>>,
    pub positions: Seq<Seq<Position>>,
    pub hands: Seq<Seq<Hand>>,
    pub fingers: Seq<Seq<Finger>>,
    pub key_costs: Seq<Seq<u64>>,
    pub symmetries: Seq<Seq<u8>>,
    pub unbalancing_positions: Seq<Seq<u64>>,
    pub plot_template: Seq<char>,
    pub plot_template_short: Seq<char>,
}

impl View for KeyboardYAML {
    type V = KeyboardYamlView;

    open spec fn view(&self) -> KeyboardYamlView {
        KeyboardYamlView {
            matrix_positions: rows_view(self.matrix_positions@),
            positions: rows_view(self.positions@),
            hands: rows_view(self.hands@),
            fingers: rows_view(self.fingers@),
            key_costs: rows_view(self.key_costs@),
            symmetries: rows_view(self.symmetries@),
            unbalancing_positions: rows_view(self.unbalancing_positions@),
            plot_template: self.plot_template@,
            plot_template_short: self.plot_template_short@,
        }
    }
}

impl KeyboardYamlView {
    /// The flattened matrix-position sequence, in row-major order.
    pub open spec fn flat_matrix_positions(self) -> Seq<MatrixPosition> {
        self.matrix_positions.flatten()
    }

    /// The flattened spatial-position sequence, in row-major order.
    pub open spec fn flat_positions(self) -> Seq<Position> {
        self.positions.flatten()
    }

    /// The flattened hand sequence, in row-major order.
    pub open spec fn flat_hands(self) -> Seq<Hand> {
        self.hands.flatten()
    }

    /// The flattened finger sequence, in row-major order.
    pub open spec fn flat_fingers(self) -> Seq<Finger> {
        self.fingers.flatten()
    }

    /// The flattened cost sequence, in row-major order.
    pub open spec fn flat_key_costs(self) -> Seq<u64> {
        self.key_costs.flatten()
    }

    /// The flattened symmetry-index sequence, in row-major order.
    pub open spec fn flat_symmetries(self) -> Seq<u8> {
        self.symmetries.flatten()
    }

    /// The flattened unbalancing-weight sequence, in row-major order.
    pub open spec fn flat_unbalancing_positions(self) -> Seq<u64> {
        self.unbalancing_positions.flatten()
    }

    /// The number of keys this configuration describes, read off the
    /// matrix-position array.
    pub open spec fn key_count(self) -> nat {
        self.flat_matrix_positions().len()
    }

    /// All seven flattened attribute sequences describe the same number of
    /// keys.
    pub open spec fn counts_match(self) -> bool {
        &&& self.flat_positions().len() == self.key_count()
        &&& self.flat_hands().len() == self.key_count()
        &&& self.flat_fingers().len() == self.key_count()
        &&& self.flat_key_costs().len() == self.key_count()
        &&& self.flat_symmetries().len() == self.key_count()
        &&& self.flat_unbalancing_positions().len() == self.key_count()
    }

    /// What validation decides: matching counts, no duplicate matrix
    /// position, no duplicate spatial position.
    pub open spec fn valid(self) -> bool {
        &&& self.counts_match()
        &&& self.flat_matrix_positions().no_duplicates()
        &&& self.flat_positions().no_duplicates()
    }
}

impl KeyboardYAML {
    /// Checks the [`KeyboardYAML`] for common errors: the seven attribute
    /// arrays must describe the same number of keys, and neither the matrix
    /// positions nor the spatial positions may contain a duplicate.
    ///
    /// Succeeds exactly on valid configurations, and names the first failed
    /// check otherwise (counts first, then matrix positions, then spatial
    /// positions).  An all-empty configuration is valid.
    pub fn validate(&self) -> (r: Result<(), ValidationError>)
        ensures
            (r matches Ok(_)) == self@.valid(),
            r matches Err(e) ==> (e == ValidationError::MismatchedFieldCount <==> !self@.counts_match()),
            r matches Err(e) ==> (e == ValidationError::DuplicateMatrixPosition <==> self@.counts_match()
                && !self@.flat_matrix_positions().no_duplicates()),
            r matches Err(e) ==> (e == ValidationError::DuplicatePosition <==> self@.counts_match()
                && self@.flat_matrix_positions().no_duplicates()
                && !self@.flat_positions().no_duplicates()),
    {
        let flat_matrix_positions = concat_rows(&self.matrix_positions);
        let flat_positions = concat_rows(&self.positions);

        // All seven flattened arrays must have one common length.
        let n = flat_matrix_positions.len();
        let mismatched = flat_positions.len() != n || concat_rows(&self.hands).len() != n
            || concat_rows(&self.fingers).len() != n || concat_rows(&self.key_costs).len() != n
            || concat_rows(&self.symmetries).len() != n
            || concat_rows(&self.unbalancing_positions).len() != n;
        if mismatched {
            return Err(ValidationError::MismatchedFieldCount);
        }

        if contains_duplicates(&flat_matrix_positions) {
            return Err(ValidationError::DuplicateMatrixPosition);
        }

        if contains_duplicates(&flat_positions) {
            return Err(ValidationError::DuplicatePosition);
        }

        Ok(())
    }
}

impl KeyboardYamlView {
    /// The key record that position `i` of the flattened configuration
    /// describes: the `i`-th element of each of the seven flattened
    /// attribute sequences, joined into one record.
    pub open spec fn key_at(self, i: int) -> Key {
        Key {
            hand: self.flat_hands()[i],
            finger: self.flat_fingers()[i],
            matrix_position: self.flat_matrix_positions()[i],
            position: self.flat_positions()[i],
            symmetry_index: self.flat_symmetries()[i],
            cost: self.flat_key_costs()[i],
            unbalancing: self.flat_unbalancing_positions()[i],
        }
    }

    /// The ordered key sequence that assembly produces: one record per key,
    /// in row-major order.
    pub open spec fn assembled_keys(self) -> Seq<Key> {
        Seq::new(self.key_count(), |i: int| self.key_at(i))
    }
}

/// The index of a [`Key`] in the `keys` vec of a [`Keyboard`]
pub type KeyIndex = u8;

/// A keyboard: its ordered list of keys, and the two rendering templates.
///
/// The position of a key in `keys` is its stable identity; a keyboard is
/// never changed after assembly.
#[derive(Clone, Debug)]
pub struct Keyboard {
    /// The keys of the keyboard, in row-major order of the configuration
    /// they were assembled from
    pub keys: Vec<Key>,
    /// Template for a full graphical representation of the keyboard
    pub plot_template: String,
    /// Template for a compact graphical representation of the keyboard
    pub plot_template_short: String,
}

impl Keyboard {
    /// Generate a [`Keyboard`] from a [`KeyboardYAML`] object.
    ///
    /// The caller is expected to have validated the configuration first;
    /// matching field counts are all that assembly itself needs.  The `i`-th
    /// key of the result joins the `i`-th elements of the seven flattened
    /// attribute sequences, so key order is exactly the row-major traversal
    /// order of the configuration.
    pub fn from_yaml_object(k: KeyboardYAML) -> (kb: Keyboard)
        requires
            k@.counts_match(),
        ensures
            kb.keys@ == k@.assembled_keys(),
            kb.plot_template@ == k@.plot_template,
            kb.plot_template_short@ == k@.plot_template_short,
    {
        let ghost kv = k@;
        let KeyboardYAML {
            matrix_positions,
            positions,
            hands,
            fingers,
            key_costs,
            symmetries,
            unbalancing_positions,
            plot_template,
            plot_template_short,
        } = k;
        let flat_matrix_positions = concat_rows(&matrix_positions);
        let flat_positions = concat_rows(&positions);
        let flat_hands = concat_rows(&hands);
        let flat_fingers = concat_rows(&fingers);
        let flat_key_costs = concat_rows(&key_costs);
        let flat_symmetries = concat_rows(&symmetries);
        let flat_unbalancing_positions = concat_rows(&unbalancing_positions);

        let n = flat_matrix_positions.len();
        let mut keys: Vec<Key> = Vec::new();
        let mut i: usize = 0;
        while i < n
            invariant
                i <= n,
                n == kv.key_count(),
                kv.counts_match(),
                flat_matrix_positions@ == kv.flat_matrix_positions(),
                flat_positions@ == kv.flat_positions(),
                flat_hands@ == kv.flat_hands(),
                flat_fingers@ == kv.flat_fingers(),
                flat_key_costs@ == kv.flat_key_costs(),
                flat_symmetries@ == kv.flat_symmetries(),
                flat_unbalancing_positions@ == kv.flat_unbalancing_positions(),
                keys@ == kv.assembled_keys().subrange(0, i as int),
            decreases n - i,
        {
            keys.push(
                Key {
                    hand: flat_hands[i],
                    finger: flat_fingers[i],
                    matrix_position: flat_matrix_positions[i],
                    position: flat_positions[i],
                    symmetry_index: flat_symmetries[i],
                    cost: flat_key_costs[i],
                    unbalancing: flat_unbalancing_positions[i],
                },
            );
            assert(kv.assembled_keys().subrange(0, i + 1) =~= kv.assembled_keys().subrange(
                0,
                i as int,
            ).push(kv.key_at(i as int)));
            i += 1;
        }
        assert(kv.assembled_keys().subrange(0, n as int) =~= kv.assembled_keys());

        Keyboard { keys, plot_template, plot_template_short }
    }
}

/// Assembly is a pure function of the raw configuration: two configurations
/// holding the same data assemble to the same key sequence, so repeating the
/// assembly of one configuration yields keyboards with identical keys.
pub proof fn lemma_assembly_deterministic(k1: KeyboardYAML, k2: KeyboardYAML)
    requires
        k1@ == k2@,
    ensures
        k1@.assembled_keys() == k2@.assembled_keys(),
{
}

/// The duplicate check is order-independent: a sequence and any permutation
/// of it (any reordering with the same element multiset) either both contain
/// a duplicate or neither does.
pub proof fn lemma_duplicate_check_permutation_invariant<T>(s1: Seq<T>, s2: Seq<T>)
    requires
        s1.to_multiset() == s2.to_multiset(),
    ensures
        s1.no_duplicates() <==> s2.no_duplicates(),
{
    if s1.no_duplicates() {
        s1.lemma_multiset_has_no_duplicates();
        s2.lemma_multiset_has_no_duplicates_conv();
    }
    if s2.no_duplicates() {
        s2.lemma_multiset_has_no_duplicates();
        s1.lemma_multiset_has_no_duplicates_conv();
    }
}

/// Swapping two blocks of rows of a row-structured array does not change
/// whether the flattened sequence contains a duplicate; in particular, the
/// duplicate check does not depend on where in the row order a duplicated
/// pair sits.
pub proof fn lemma_duplicate_check_row_swap_invariant<T>(x: Seq<Seq<T>>, y: Seq<Seq<T>>)
    ensures
        (x + y).flatten().no_duplicates() <==> (y + x).flatten().no_duplicates(),
{
    lemma_flatten_concat(x, y);
    lemma_flatten_concat(y, x);
    vstd::seq_lib::lemma_seq_union_to_multiset_commutative(x.flatten(), y.flatten());
    lemma_duplicate_check_permutation_invariant((x + y).flatten(), (y + x).flatten());
}

/// The template engine failed to render, e.g. on a malformed template.
#[derive(Clone, Copy, Debug, PartialEq, Eq)]
pub struct TemplateRenderError;

/// The text that the placeholder-substitution engine produces for a template
/// and an ordered sequence of key labels: placeholder `i` stands for the
/// `i`-th label.  The result is a function of the template and the labels
/// alone.
pub uninterp spec fn rendered(template: Seq<char>, key_labels: Seq<char>) -> Seq<char>;

/// Whether the placeholder-substitution engine succeeds on a template and an
/// ordered sequence of key labels.  Like [`rendered`], this is a function of
/// the template and the labels alone.
pub uninterp spec fn renders_ok(template: Seq<char>, key_labels: Seq<char>) -> bool;

/// Relies on `handlebars::Handlebars::render_template`, with the escape
/// function set to `handlebars::no_escape`: rendering is deterministic in
/// the template and the data, so whether the engine succeeds, and the text
/// it produces when it does, are functions of the template and the labels
/// alone.
#[verifier::external_body]
fn render_template(template: &str, key_labels: &[char]) -> (r: Option<String>)
    ensures
        (r matches Some(_)) == renders_ok(template@, key_labels@),
        r matches Some(s) ==> s@ == rendered(template@, key_labels@),
{
    let mut reg = handlebars::Handlebars::new();
    reg.register_escape_fn(handlebars::no_escape);
    let labels: ahash::AHashMap<usize, char> = key_labels.iter().cloned().enumerate().collect();
    reg.render_template(template, &labels).ok()
}

impl Keyboard {
    /// Plot a graphical representation of the keyboard with given key labels.
    ///
    /// The `i`-th label fills the placeholder of the `i`-th key in the full
    /// template; the text is returned verbatim, with no escaping.  Fails
    /// exactly when the template engine fails.
    pub fn plot(&self, key_labels: &[char]) -> (r: Result<String, TemplateRenderError>)
        ensures
            (r matches Ok(_)) == renders_ok(self.plot_template@, key_labels@),
            r matches Ok(s) ==> s@ == rendered(self.plot_template@, key_labels@),
    {
        match render_template(self.plot_template.as_str(), key_labels) {
            Some(s) => Ok(s),
            None => Err(TemplateRenderError),
        }
    }

    /// Plot a compact graphical representation of the keyboard with given
    /// key labels, using the compact template.
    pub fn plot_compact(&self, key_labels: &[char]) -> (r: Result<String, TemplateRenderError>)
        ensures
            (r matches Ok(_)) == renders_ok(self.plot_template_short@, key_labels@),
            r matches Ok(s) ==> s@ == rendered(self.plot_template_short@, key_labels@),
    {
        match render_template(self.plot_template_short.as_str(), key_labels) {
            Some(s) => Ok(s),
            None => Err(TemplateRenderError),
        }
    }
}

} // verus!
