//! User-facing metadata of managed resources: name, description and labels.
use vstd::prelude::*;

use crate::errors::ConfigValidationError;
use crate::text::{byte_len, decimal, str_eq, usize_text};
use vstd::utf8::is_ascii_chars;

verus! {

/// Maximum number of labels allowed on a resource's metadata.
const MAX_LABELS: usize = 16;

/// A label as a pair of texts.
pub open spec fn pair_view(p: (String, String)) -> (Seq<char>, Seq<char>) {
    (p.0@, p.1@)
}

/// A sequence of labels as pairs of texts.
pub open spec fn pair_views(s: Seq<(String, String)>) -> Seq<(Seq<char>, Seq<char>)> {
    s.map_values(|p: (String, String)| pair_view(p))
}

/// The map that a sequence of key/value pairs builds when each pair is
/// inserted in turn: a later pair replaces an earlier one with the same key.
pub open spec fn pairs_map(s: Seq<(Seq<char>, Seq<char>)>) -> Map<Seq<char>, Seq<char>>
    decreases s.len(),
{
    if s.len() == 0 {
        Map::empty()
    } else {
        pairs_map(s.drop_last()).insert(s.last().0, s.last().1)
    }
}

/// No key occurs twice in `s`.
pub open spec fn keys_distinct(s: Seq<(Seq<char>, Seq<char>)>) -> bool {
    forall|i: int, j: int| 0 <= i < j < s.len() ==> #[trigger] s[i].0 != #[trigger] s[j].0
}

/// With distinct keys, the map holds exactly the pairs of the sequence.
proof fn lemma_pairs_map_holds_the_pairs(s: Seq<(Seq<char>, Seq<char>)>)
    requires
        keys_distinct(s),
    ensures
        pairs_map(s).dom().finite(),
        pairs_map(s).len() == s.len(),
        forall|i: int|
            0 <= i < s.len() ==> #[trigger] pairs_map(s).contains_key(s[i].0) && pairs_map(s)[s[i].0]
                == s[i].1,
        forall|k: Seq<char>| #[trigger]
            pairs_map(s).contains_key(k) ==> exists|i: int| 0 <= i < s.len() && s[i].0 == k,
    decreases s.len(),
{
    if s.len() > 0 {
        let t = s.drop_last();
        let p = s.last();
        assert(keys_distinct(t)) by {
            assert forall|i: int, j: int| 0 <= i < j < t.len() implies #[trigger] t[i].0 != #[trigger] t[j].0 by {
                assert(t[i] == s[i] && t[j] == s[j]);
            }
        }
        lemma_pairs_map_holds_the_pairs(t);
        assert(!pairs_map(t).contains_key(p.0)) by {
            if pairs_map(t).contains_key(p.0) {
                let i = choose|i: int| 0 <= i < t.len() && t[i].0 == p.0;
                assert(s[i].0 == s[s.len() - 1].0);
            }
        }
        assert forall|i: int| 0 <= i < s.len() implies #[trigger] pairs_map(s).contains_key(s[i].0)
            && pairs_map(s)[s[i].0] == s[i].1 by {
            if i < s.len() - 1 {
                assert(s[i] == t[i]);
                assert(s[i].0 != p.0);
            }
        }
        assert forall|k: Seq<char>| #[trigger]
            pairs_map(s).contains_key(k) implies exists|i: int| 0 <= i < s.len() && s[i].0 == k by {
            if k == p.0 {
                assert(s[s.len() - 1].0 == k);
            } else {
                let i = choose|i: int| 0 <= i < t.len() && t[i].0 == k;
                assert(s[i] == t[i]);
            }
        }
    }
}

/// Labels of a resource: key/value texts, no key twice. Keys are kept in
/// the order in which they were first inserted.
#[derive(Debug)]
pub struct Labels {
    entries: Vec<(String, String)>,
}

impl View for Labels {
    type V = Map<Seq<char>, Seq<char>>;

    /// Each key mapped to its value.
    closed spec fn view(&self) -> Map<Seq<char>, Seq<char>> {
        pairs_map(pair_views(self.entries@))
    }
}

impl Labels {
    #[verifier::type_invariant]
    spec fn keys_are_distinct(self) -> bool {
        keys_distinct(pair_views(self.entries@))
    }

    /// Labels with no entry.
    pub fn new() -> (r: Labels)
        ensures
            r@ == Map::<Seq<char>, Seq<char>>::empty(),
    {
        let r = Labels { entries: Vec::new() };
        assert(pair_views(r.entries@) =~= Seq::<(Seq<char>, Seq<char>)>::empty());
        r
    }

    /// Number of labels.
    pub fn len(&self) -> (r: usize)
        ensures
            r == self@.len(),
            self@.dom().finite(),
    {
        proof {
            use_type_invariant(self);
            lemma_pairs_map_holds_the_pairs(pair_views(self.entries@));
        }
        self.entries.len()
    }

    /// The value of `key`, if it has one.
    pub fn get(&self, key: &str) -> (r: Option<&String>)
        ensures
            self@.contains_key(key@) ==> (r matches Some(v) && v@ == self@[key@]),
            !self@.contains_key(key@) ==> r is None,
    {
        proof {
            use_type_invariant(self);
            lemma_pairs_map_holds_the_pairs(pair_views(self.entries@));
        }
        let ghost s = pair_views(self.entries@);
        let n = self.entries.len();
        let mut i: usize = 0;
        while i < n
            invariant
                n == self.entries@.len(),
                s == pair_views(self.entries@),
                i <= n,
                forall|j: int| 0 <= j < i ==> #[trigger] s[j].0 != key@,
            decreases n - i,
        {
            if str_eq(self.entries[i].0.as_str(), key) {
                proof {
                    use_type_invariant(self);
                    lemma_pairs_map_holds_the_pairs(s);
                    assert(s[i as int] == pair_view(self.entries@[i as int]));
                    assert(pairs_map(s).contains_key(s[i as int].0));
                    assert(self@ == pairs_map(s));
                }
                return Some(&self.entries[i].1);
            }
            i += 1;
        }
        proof {
            if self@.contains_key(key@) {
                let j = choose|j: int| 0 <= j < s.len() && s[j].0 == key@;
                assert(s[j].0 != key@);
            }
        }
        None
    }

    /// Sets `key` to `value`; returns the value `key` had before, if any.
    pub fn insert(&mut self, key: String, value: String) -> (r: Option<String>)
        ensures
            final(self)@ == old(self)@.insert(key@, value@),
            old(self)@.contains_key(key@) ==> (r matches Some(v) && v@ == old(self)@[key@]),
            !old(self)@.contains_key(key@) ==> r is None,
    {
        proof {
            use_type_invariant(&*self);
        }
        let mut entries: Vec<(String, String)> = Vec::new();
        proof {
            assert(pair_views(entries@) =~= Seq::<(Seq<char>, Seq<char>)>::empty());
        }
        core::mem::swap(&mut entries, &mut self.entries);
        let ghost s = pair_views(entries@);
        let ghost k = key@;
        let ghost v = value@;
        proof {
            lemma_pairs_map_holds_the_pairs(s);
        }
        let n = entries.len();
        let mut i: usize = 0;
        while i < n
            invariant
                n == entries@.len(),
                s == pair_views(entries@),
                s == pair_views(old(self).entries@),
                keys_distinct(s),
                k == key@,
                v == value@,
                i <= n,
                forall|j: int| 0 <= j < i ==> #[trigger] s[j].0 != k,
            decreases n - i,
        {
            if entries[i].0 == key {
                let ghost t = s.update(i as int, (k, v));
                let mut pair = (key, value);
                proof {
                    lemma_pairs_map_holds_the_pairs(s);
                    assert(s[i as int] == pair_view(entries@[i as int]));
                    assert(s[i as int].0 == k);
                    assert(keys_distinct(t)) by {
                        assert forall|a: int, b: int| 0 <= a < b < t.len() implies #[trigger] t[a].0
                            != #[trigger] t[b].0 by {
                            assert(t[a].0 == s[a].0 && t[b].0 == s[b].0);
                        }
                    }
                    lemma_pairs_map_holds_the_pairs(t);
                    assert(pairs_map(t) =~= pairs_map(s).insert(k, v)) by {
                        assert forall|x: Seq<char>| #[trigger] pairs_map(t).contains_key(x) implies pairs_map(s).insert(k, v).contains_key(x) by {
                            let a = choose|a: int| 0 <= a < t.len() && t[a].0 == x;
                            assert(t[a].0 == s[a].0);
                            assert(pairs_map(s).contains_key(s[a].0));
                        }
                        assert forall|x: Seq<char>| #[trigger] pairs_map(s).insert(k, v).contains_key(x) implies pairs_map(t).contains_key(x) by {
                            if x != k {
                                let a = choose|a: int| 0 <= a < s.len() && s[a].0 == x;
                                assert(t[a].0 == s[a].0);
                            } else {
                                assert(t[i as int].0 == k);
                            }
                        }
                        assert forall|x: Seq<char>| #[trigger] pairs_map(t).contains_key(x) implies pairs_map(t)[x] == pairs_map(s).insert(k, v)[x] by {
                            let a = choose|a: int| 0 <= a < t.len() && t[a].0 == x;
                            if a != i {
                                assert(t[a] == s[a]);
                            }
                        }
                    }
                }
                let ghost before = entries@;
                entries.set_and_swap(i, &mut pair);
                assert(pair_views(entries@) =~= t);
                assert(pair == before[i as int]);
                assert(pairs_map(s).contains_key(s[i as int].0));
                self.entries = entries;
                return Some(pair.1);
            }
            i += 1;
        }
        proof {
            if pairs_map(s).contains_key(k) {
                let j = choose|j: int| 0 <= j < s.len() && s[j].0 == k;
                assert(s[j].0 != k);
            }
        }
        entries.push((key, value));
        proof {
            let t = pair_views(entries@);
            assert(t =~= s.push((k, v)));
            assert(t.drop_last() =~= s);
            assert(keys_distinct(t)) by {
                assert forall|a: int, b: int| 0 <= a < b < t.len() implies #[trigger] t[a].0
                    != #[trigger] t[b].0 by {
                    if b == t.len() - 1 {
                        assert(t[a] == s[a]);
                    } else {
                        assert(t[a] == s[a] && t[b] == s[b]);
                    }
                }
            }
        }
        self.entries = entries;
        None
    }

    /// Labels built by inserting the pairs in turn; where a key occurs more
    /// than once, its last value stays.
    pub fn from_pairs(pairs: Vec<(String, String)>) -> (r: Labels)
        ensures
            r@ == pairs_map(pair_views(pairs@)),
    {
        let mut r = Labels::new();
        let ghost all = pair_views(pairs@);
        let n = pairs.len();
        let mut j: usize = 0;
        while j < n
            invariant
                n == pairs@.len(),
                all == pair_views(pairs@),
                j <= n,
                r@ == pairs_map(all.take(j as int)),
            decreases n - j,
        {
            let key = pairs[j].0.clone();
            let value = pairs[j].1.clone();
            proof {
                assert(all[j as int] == pair_view(pairs@[j as int]));
                assert(all.take(j + 1).drop_last() =~= all.take(j as int));
                assert(all.take(j + 1).last() == all[j as int]);
            }
            r.insert(key, value);
            j += 1;
        }
        assert(all.take(n as int) =~= all);
        r
    }
}

impl Labels {
    /// The labels as key/value pairs, in insertion order; no key occurs
    /// twice, and inserting the pairs in turn gives back these labels.
    pub fn to_pairs(&self) -> (r: Vec<(String, String)>)
        ensures
            keys_distinct(pair_views(r@)),
            pairs_map(pair_views(r@)) == self@,
    {
        proof {
            use_type_invariant(self);
        }
        let n = self.entries.len();
        let mut pairs: Vec<(String, String)> = Vec::new();
        let mut i: usize = 0;
        while i < n
            invariant
                n == self.entries@.len(),
                i <= n,
                pair_views(pairs@) =~= pair_views(self.entries@).take(i as int),
            decreases n - i,
        {
            let key = self.entries[i].0.clone();
            let value = self.entries[i].1.clone();
            let ghost before = pairs@;
            pairs.push((key, value));
            proof {
                assert(pairs@ =~= before.push((key, value)));
                assert(pair_view((key, value)) == pair_view(self.entries@[i as int]));
                assert(pair_views(self.entries@).take(i + 1) =~= pair_views(self.entries@).take(i as int).push(pair_view(self.entries@[i as int])));
                assert(pair_views(pairs@) =~= pair_views(before).push(pair_view((key, value))));
            }
            i += 1;
        }
        assert(pair_views(self.entries@).take(n as int) =~= pair_views(self.entries@));
        pairs
    }
}

impl Clone for Labels {
    /// A copy holding the same labels.
    fn clone(&self) -> (r: Labels)
        ensures
            r@ == self@,
    {
        proof {
            use_type_invariant(self);
        }
        let n = self.entries.len();
        let mut entries: Vec<(String, String)> = Vec::new();
        let mut i: usize = 0;
        while i < n
            invariant
                n == self.entries@.len(),
                i <= n,
                pair_views(entries@) =~= pair_views(self.entries@).take(i as int),
            decreases n - i,
        {
            let key = self.entries[i].0.clone();
            let value = self.entries[i].1.clone();
            let ghost before = entries@;
            entries.push((key, value));
            proof {
                assert(entries@ =~= before.push((key, value)));
                assert(pair_view((key, value)) == pair_view(self.entries@[i as int]));
                assert(pair_views(self.entries@).take(i + 1) =~= pair_views(self.entries@).take(i as int).push(pair_view(self.entries@[i as int])));
                assert(pair_views(entries@) =~= pair_views(before).push(pair_view((key, value))));
            }
            i += 1;
        }
        assert(pair_views(self.entries@).take(n as int) =~= pair_views(self.entries@));
        Labels { entries }
    }
}

impl Default for Labels {
    /// Labels with no entry.
    fn default() -> (r: Labels)
        ensures
            r@ == Map::<Seq<char>, Seq<char>>::empty(),
    {
        Labels::new()
    }
}

impl PartialEq for Labels {
    /// Two sets of labels are equal when they map the same keys to the same values.
    fn eq(&self, other: &Labels) -> (r: bool) {
        proof {
            use_type_invariant(self);
            use_type_invariant(other);
            lemma_pairs_map_holds_the_pairs(pair_views(self.entries@));
            lemma_pairs_map_holds_the_pairs(pair_views(other.entries@));
        }
        if self.len() != other.len() {
            return false;
        }
        let ghost s = pair_views(self.entries@);
        let n = self.entries.len();
        let mut i: usize = 0;
        while i < n
            invariant
                n == self.entries@.len(),
                s == pair_views(self.entries@),
                keys_distinct(s),
                i <= n,
                forall|j: int|
                    0 <= j < i ==> #[trigger] other@.contains_key(s[j].0) && other@[s[j].0] == s[j].1,
            decreases n - i,
        {
            match other.get(self.entries[i].0.as_str()) {
                Some(v) => {
                    if !(*v == self.entries[i].1) {
                        proof {
                            lemma_pairs_map_holds_the_pairs(s);
                            assert(s[i as int] == pair_view(self.entries@[i as int]));
                            assert(pairs_map(s).contains_key(s[i as int].0));
                        }
                        return false;
                    }
                },
                None => {
                    proof {
                        lemma_pairs_map_holds_the_pairs(s);
                        assert(s[i as int] == pair_view(self.entries@[i as int]));
                        assert(pairs_map(s).contains_key(s[i as int].0));
                    }
                    return false;
                },
            }
            proof {
                assert(s[i as int] == pair_view(self.entries@[i as int]));
            }
            i += 1;
        }
        proof {
            let a = self@;
            let b = other@;
            assert(a.dom().subset_of(b.dom())) by {
                assert forall|k: Seq<char>| #[trigger] a.dom().contains(k) implies b.dom().contains(k) by {
                    let j = choose|j: int| 0 <= j < s.len() && s[j].0 == k;
                }
            }
            vstd::set_lib::lemma_subset_equality(a.dom(), b.dom());
            assert forall|k: Seq<char>| #[trigger] a.contains_key(k) implies a[k] == b[k] by {
                let j = choose|j: int| 0 <= j < s.len() && s[j].0 == k;
            }
            assert(a =~= b);
        }
        true
    }
}

impl vstd::std_specs::cmp::PartialEqSpecImpl for Labels {
    open spec fn obeys_eq_spec() -> bool {
        true
    }

    open spec fn eq_spec(&self, other: &Labels) -> bool {
        self@ == other@
    }
}

impl Eq for Labels {
}

/// Metadata that can get associated with managed resources
#[derive(Debug, Clone, PartialEq, Eq)]
pub struct Metadata {
    /// user-defined resource name
    pub name: String,
    /// optional user-defined resource description
    pub description: String,
    /// optional user-defined key/ value pairs
    pub labels: Labels,
}

/// Metadata with an empty name, an empty description and no labels.
pub open spec fn is_empty_metadata(m: Metadata) -> bool {
    &&& m.name@ == Seq::<char>::empty()
    &&& m.description@ == Seq::<char>::empty()
    &&& m.labels@ == Map::<Seq<char>, Seq<char>>::empty()
}

impl Default for Metadata {
    /// Empty name, empty description, no labels.
    fn default() -> (r: Metadata)
        ensures
            is_empty_metadata(r),
    {
        Metadata { name: String::new(), description: String::new(), labels: Labels::new() }
    }
}

/// The name metadata gets when none is given.
pub open spec fn default_name() -> Seq<char> {
    "default_name"@
}

impl Metadata {
    /// Metadata named `default_name`, with an empty description and no labels.
    pub fn new_with_default_name() -> (r: Metadata)
        ensures
            r.name@ == default_name(),
            r.description@ == Seq::<char>::empty(),
            r.labels@ == Map::<Seq<char>, Seq<char>>::empty(),
    {
        Metadata {
            name: String::from_str("default_name"),
            description: String::new(),
            labels: Labels::new(),
        }
    }
}

/// The empty metadata used when a deserialized device model carries none.
pub fn default_metadata_for_deserializer() -> (r: Metadata)
    ensures
        is_empty_metadata(r),
{
    Metadata::default()
}

// ---------------------------------------------------------------------
// Validation
// ---------------------------------------------------------------------

/// What `str::len` returns for text `s`: its length in UTF-8 bytes.
pub open spec fn str_len(s: Seq<char>) -> usize {
    byte_len(s) as usize
}

/// What is wrong with a name, if anything: a length in bytes outside
/// `min_len..=256`, or a character outside ASCII.
pub open spec fn name_problem(name: Seq<char>, min_len: usize) -> Option<Seq<char>> {
    if str_len(name) < min_len || str_len(name) > 256 {
        Some(
            "Name must be between "@ + decimal(min_len as int) + " and 256 characters long, got "@
                + decimal(str_len(name) as int) + " characters"@,
        )
    } else if !is_ascii_chars(name) {
        Some("Name '"@ + name + "' must contain ASCII characters only"@)
    } else {
        None
    }
}

/// What is wrong with a description, if anything: more than 1024 bytes.
pub open spec fn description_problem(description: Seq<char>) -> Option<Seq<char>> {
    if str_len(description) > 1024 {
        Some(
            "Description must be between 0 and 1024 characters long, got "@ + decimal(
                str_len(description) as int,
            ) + " characters"@,
        )
    } else {
        None
    }
}

/// What is wrong with a label, if anything: a key outside ASCII, longer than
/// 255 bytes or empty, or a value longer than 255 bytes (checked in that order).
pub open spec fn label_problem(key: Seq<char>, value: Seq<char>) -> Option<Seq<char>> {
    if !is_ascii_chars(key) {
        Some("Label key '"@ + key + "' must contain ASCII characters only"@)
    } else if str_len(key) > 255 {
        Some("Label key '"@ + key + "' is too long (max 255 characters)"@)
    } else if key.len() == 0 {
        Some("Label key cannot be empty."@)
    } else if str_len(value) > 255 {
        Some("Label value '"@ + value + "' for key '"@ + key + "' is too long (max 255 characters)"@)
    } else {
        None
    }
}

/// Some label has a problem.
pub open spec fn some_label_problem(labels: Map<Seq<char>, Seq<char>>) -> bool {
    exists|k: Seq<char>| #[trigger] labels.contains_key(k) && label_problem(k, labels[k]) is Some
}

/// `text` describes the problem of one of the labels.
pub open spec fn describes_a_label_problem(labels: Map<Seq<char>, Seq<char>>, text: Seq<char>) -> bool {
    exists|k: Seq<char>| #[trigger] labels.contains_key(k) && label_problem(k, labels[k]) == Some(text)
}

/// What is wrong with the number of labels, if anything: more than 16.
pub open spec fn label_count_problem(n: nat) -> Option<Seq<char>> {
    if n > 16 {
        Some("Cannot have more than "@ + decimal(16) + " labels, got "@ + decimal(n as int))
    } else {
        None
    }
}

/// `r` is the rejection carrying `text`.
pub open spec fn rejects_with(r: Result<(), ConfigValidationError>, text: Seq<char>) -> bool {
    r matches Err(ConfigValidationError::InvalidValue(m)) && m@ == text
}

/// The smallest name length that validation demands.
pub open spec fn min_name_len(require_min_length: bool) -> usize {
    if require_min_length {
        2
    } else {
        0
    }
}

/// The metadata breaks no rule.
pub open spec fn metadata_is_valid(
    name: Seq<char>,
    description: Seq<char>,
    labels: Map<Seq<char>, Seq<char>>,
    require_min_length: bool,
) -> bool {
    &&& name_problem(name, min_name_len(require_min_length)) is None
    &&& description_problem(description) is None
    &&& !some_label_problem(labels)
    &&& label_count_problem(labels.len()) is None
}

/// The outcome of validation: the name is checked first, then the
/// description, then each label, then the number of labels; the first rule
/// broken decides the error. Which of several faulty labels is reported is
/// not fixed, since labels have no order.
pub open spec fn validation_outcome(
    name: Seq<char>,
    description: Seq<char>,
    labels: Map<Seq<char>, Seq<char>>,
    require_min_length: bool,
    r: Result<(), ConfigValidationError>,
) -> bool {
    match name_problem(name, min_name_len(require_min_length)) {
        Some(text) => rejects_with(r, text),
        None => match description_problem(description) {
            Some(text) => rejects_with(r, text),
            None => if some_label_problem(labels) {
                r matches Err(ConfigValidationError::InvalidValue(m)) && describes_a_label_problem(
                    labels,
                    m@,
                )
            } else {
                match label_count_problem(labels.len()) {
                    Some(text) => rejects_with(r, text),
                    None => r is Ok,
                }
            },
        },
    }
}

impl Metadata {
    /// Checks the metadata against the rules on names, descriptions and
    /// labels; `require_min_length` demands a name of at least 2 bytes.
    pub fn validate(&self, require_min_length: bool) -> (r: Result<(), ConfigValidationError>)
        ensures
            validation_outcome(
                self.name@,
                self.description@,
                self.labels@,
                require_min_length,
                r,
            ),
            r is Ok <==> metadata_is_valid(
                self.name@,
                self.description@,
                self.labels@,
                require_min_length,
            ),
    {
        let min_len: usize = if require_min_length {
            2
        } else {
            0
        };
        let name_len = self.name.as_str().len();
        if name_len < min_len || name_len > 256 {
            let mut m = String::from_str("Name must be between ");
            m.append(usize_text(min_len).as_str());
            m.append(" and 256 characters long, got ");
            m.append(usize_text(name_len).as_str());
            m.append(" characters");
            return Err(ConfigValidationError::InvalidValue(m));
        }
        if !self.name.as_str().is_ascii() {
            let mut m = String::from_str("Name '");
            m.append(self.name.as_str());
            m.append("' must contain ASCII characters only");
            return Err(ConfigValidationError::InvalidValue(m));
        }
        let description_len = self.description.as_str().len();
        if description_len > 1024 {
            let mut m = String::from_str("Description must be between 0 and 1024 characters long, got ");
            m.append(usize_text(description_len).as_str());
            m.append(" characters");
            return Err(ConfigValidationError::InvalidValue(m));
        }
        proof {
            use_type_invariant(&self.labels);
            lemma_pairs_map_holds_the_pairs(pair_views(self.labels.entries@));
        }
        let ghost s = pair_views(self.labels.entries@);
        let n = self.labels.entries.len();
        let mut i: usize = 0;
        while i < n
            invariant
                n == self.labels.entries@.len(),
                s == pair_views(self.labels.entries@),
                i <= n,
                name_problem(self.name@, min_name_len(require_min_length)) is None,
                description_problem(self.description@) is None,
                forall|j: int| 0 <= j < i ==> #[trigger] label_problem(s[j].0, s[j].1) is None,
            decreases n - i,
        {
            let key = self.labels.entries[i].0.as_str();
            let value = self.labels.entries[i].1.as_str();
            let ghost kv = s[i as int];
            proof {
                assert(kv == pair_view(self.labels.entries@[i as int]));
            }
            let problem: Option<String> = if !key.is_ascii() {
                let mut m = String::from_str("Label key '");
                m.append(key);
                m.append("' must contain ASCII characters only");
                Some(m)
            } else if key.len() > 255 {
                let mut m = String::from_str("Label key '");
                m.append(key);
                m.append("' is too long (max 255 characters)");
                Some(m)
            } else if key.is_empty() {
                Some(String::from_str("Label key cannot be empty."))
            } else if value.len() > 255 {
                let mut m = String::from_str("Label value '");
                m.append(value);
                m.append("' for key '");
                m.append(key);
                m.append("' is too long (max 255 characters)");
                Some(m)
            } else {
                None
            };
            match problem {
                Some(m) => {
                    proof {
                        use_type_invariant(&self.labels);
                        lemma_pairs_map_holds_the_pairs(s);
                        assert(self.labels@.contains_key(kv.0));
                        assert(label_problem(kv.0, self.labels@[kv.0]) == Some(m@));
                    }
                    return Err(ConfigValidationError::InvalidValue(m));
                },
                None => {},
            }
            i += 1;
        }
        proof {
            use_type_invariant(&self.labels);
            lemma_pairs_map_holds_the_pairs(s);
            assert forall|k: Seq<char>| #[trigger] self.labels@.contains_key(k) implies label_problem(
                k,
                self.labels@[k],
            ) is None by {
                let j = choose|j: int| 0 <= j < s.len() && s[j].0 == k;
                assert(label_problem(s[j].0, s[j].1) is None);
            }
        }
        let count = self.labels.len();
        if count > MAX_LABELS {
            let mut m = String::from_str("Cannot have more than ");
            m.append(usize_text(MAX_LABELS).as_str());
            m.append(" labels, got ");
            m.append(usize_text(count).as_str());
            return Err(ConfigValidationError::InvalidValue(m));
        }
        Ok(())
    }
}

/// Requiring the minimum name length only narrows what is valid: metadata
/// that passes validation with the requirement also passes without it.
pub proof fn lemma_min_length_only_narrows(
    name: Seq<char>,
    description: Seq<char>,
    labels: Map<Seq<char>, Seq<char>>,
)
    ensures
        metadata_is_valid(name, description, labels, true) ==> metadata_is_valid(
            name,
            description,
            labels,
            false,
        ),
{
}

/// Metadata carrying only the default name passes validation, with or
/// without the minimum name length.
pub proof fn lemma_default_name_is_valid(require_min_length: bool)
    ensures
        metadata_is_valid(
            default_name(),
            Seq::<char>::empty(),
            Map::<Seq<char>, Seq<char>>::empty(),
            require_min_length,
        ),
{
    reveal_strlit("default_name");
    let n = default_name();
    assert(is_ascii_chars(n));
    vstd::utf8::is_ascii_chars_encode_utf8(n);
    vstd::utf8::is_ascii_chars_encode_utf8(Seq::<char>::empty());
    assert(Map::<Seq<char>, Seq<char>>::empty().len() == 0);
}

/// Every text of the metadata is at most `usize::MAX` bytes long, as every
/// text a machine holds is.
pub open spec fn byte_lengths_fit(
    name: Seq<char>,
    description: Seq<char>,
    labels: Map<Seq<char>, Seq<char>>,
) -> bool {
    &&& byte_len(name) <= usize::MAX
    &&& byte_len(description) <= usize::MAX
    &&& forall|k: Seq<char>| #[trigger]
        labels.contains_key(k) ==> byte_len(k) <= usize::MAX && byte_len(labels[k]) <= usize::MAX
}

/// Validation accepts exactly the metadata whose name is ASCII, at most 256
/// bytes and, when required, at least 2; whose description is at most 1024
/// bytes; which has at most 16 labels; and each of whose labels has an
/// ASCII key of 1 to 255 bytes and a value of at most 255 bytes.
pub proof fn lemma_validation_accepts_exactly(
    name: Seq<char>,
    description: Seq<char>,
    labels: Map<Seq<char>, Seq<char>>,
    require_min_length: bool,
)
    requires
        byte_lengths_fit(name, description, labels),
    ensures
        metadata_is_valid(name, description, labels, require_min_length) <==> {
            &&& require_min_length ==> byte_len(name) >= 2
            &&& byte_len(name) <= 256
            &&& is_ascii_chars(name)
            &&& byte_len(description) <= 1024
            &&& labels.len() <= 16
            &&& forall|k: Seq<char>| #[trigger]
                labels.contains_key(k) ==> is_ascii_chars(k) && 1 <= byte_len(k) <= 255
                    && byte_len(labels[k]) <= 255
        },
{
    assert forall|k: Seq<char>| #[trigger] labels.contains_key(k) implies (label_problem(k, labels[k]) is None
        <==> (is_ascii_chars(k) && 1 <= byte_len(k) <= 255 && byte_len(labels[k]) <= 255)) by {
        if is_ascii_chars(k) {
            vstd::utf8::is_ascii_chars_encode_utf8(k);
        }
    }
    if !some_label_problem(labels) {
        assert forall|k: Seq<char>| #[trigger]
            labels.contains_key(k) implies is_ascii_chars(k) && 1 <= byte_len(k) <= 255
                && byte_len(labels[k]) <= 255 by {
            assert(!(labels.contains_key(k) && label_problem(k, labels[k]) is Some));
        }
    }
}

/// A single label filter used for searching resources by label key and/or value
#[derive(Debug, Clone, PartialEq, Eq)]
pub struct LabelFilter {
    pub key: String,
    pub value: Option<String>,
}

} // verus!
