use vstd::prelude::*;

use core::hash::{Hash, Hasher};
use std::collections::BTreeMap;

use crate::data_types::DataTypes;

verus! {

/// The shape of a value: its variant, and for an array the kind of its
/// first element.
#[derive(Debug, Eq)]
pub enum DataKind {
    Bool,
    Number,
    Str,
    Array(Box<DataKind>),
    Container,
    Null,
}

/// Whether two kinds are the same, looking through nested arrays.
fn kinds_equal(a: &DataKind, b: &DataKind) -> (same: bool)
    ensures
        same == (*a == *b),
    decreases a,
{
    match (a, b) {
        (DataKind::Bool, DataKind::Bool) => true,
        (DataKind::Number, DataKind::Number) => true,
        (DataKind::Str, DataKind::Str) => true,
        (DataKind::Array(x), DataKind::Array(y)) => kinds_equal(x, y),
        (DataKind::Container, DataKind::Container) => true,
        (DataKind::Null, DataKind::Null) => true,
        _ => false,
    }
}

/// A copy of a kind.
fn copy_kind(k: &DataKind) -> (c: DataKind)
    ensures
        c == *k,
    decreases k,
{
    match k {
        DataKind::Bool => DataKind::Bool,
        DataKind::Number => DataKind::Number,
        DataKind::Str => DataKind::Str,
        DataKind::Array(inner) => DataKind::Array(Box::new(copy_kind(inner))),
        DataKind::Container => DataKind::Container,
        DataKind::Null => DataKind::Null,
    }
}

impl Clone for DataKind {
    fn clone(&self) -> (c: Self)
        ensures
            c == *self,
    {
        copy_kind(self)
    }
}

impl PartialEq for DataKind {
    fn eq(&self, other: &Self) -> (same: bool) {
        kinds_equal(self, other)
    }
}

impl vstd::std_specs::cmp::PartialEqSpecImpl for DataKind {
    open spec fn obeys_eq_spec() -> bool {
        true
    }

    open spec fn eq_spec(&self, other: &DataKind) -> bool {
        *self == *other
    }
}

/// A field value.
///
/// `BoolTrue`, `BoolFalse` and `Bool(b)` are three spellings of a boolean:
/// equality treats `BoolTrue` and `Bool(true)` alike, and `BoolFalse` and
/// `Bool(false)` alike. A container holds (identifier, value) pairs in order.
#[derive(Debug, Eq)]
pub enum DataValue {
    BoolTrue,
    BoolFalse,
    Bool(bool),
    Number(i64),
    Str(String),
    Array(Vec<DataValue>),
    Container(Vec<(DataTypes, DataValue)>),
    Null,
}

/// The mathematical form of a [`DataValue`]: strings as character
/// sequences and vectors as sequences, variant for variant.
pub enum ValueModel {
    BoolTrue,
    BoolFalse,
    Bool(bool),
    Number(i64),
    Str(Seq<char>),
    Array(Seq<ValueModel>),
    Container(Seq<(DataTypes, ValueModel)>),
    Null,
}

/// The model of a value.
pub open spec fn value_model(v: DataValue) -> ValueModel
    decreases v,
{
    match v {
        DataValue::BoolTrue => ValueModel::BoolTrue,
        DataValue::BoolFalse => ValueModel::BoolFalse,
        DataValue::Bool(b) => ValueModel::Bool(b),
        DataValue::Number(n) => ValueModel::Number(n),
        DataValue::Str(s) => ValueModel::Str(s@),
        DataValue::Array(a) => ValueModel::Array(
            Seq::new(
                a@.len(),
                |i: int|
                    if 0 <= i < a@.len() {
                        value_model(a@[i])
                    } else {
                        ValueModel::Null
                    },
            ),
        ),
        DataValue::Container(c) => ValueModel::Container(
            Seq::new(
                c@.len(),
                |i: int|
                    if 0 <= i < c@.len() {
                        (c@[i].0, value_model(c@[i].1))
                    } else {
                        (DataTypes::error_type, ValueModel::Null)
                    },
            ),
        ),
        DataValue::Null => ValueModel::Null,
    }
}

impl View for DataValue {
    type V = ValueModel;

    open spec fn view(&self) -> ValueModel {
        value_model(*self)
    }
}

/// The models of a sequence of values, element by element.
pub open spec fn models(s: Seq<DataValue>) -> Seq<ValueModel> {
    Seq::new(s.len(), |i: int| s[i]@)
}

/// The models of a sequence of (identifier, value) pairs, pair by pair.
pub open spec fn entry_models(s: Seq<(DataTypes, DataValue)>) -> Seq<(DataTypes, ValueModel)> {
    Seq::new(s.len(), |i: int| (s[i].0, s[i].1@))
}

/// The equality of values: variant by variant, with the three spellings of
/// a boolean compared by their truth value, and arrays and containers
/// compared element by element.
pub open spec fn same_value(a: ValueModel, b: ValueModel) -> bool
    decreases a,
{
    match (a, b) {
        (ValueModel::BoolTrue, ValueModel::BoolTrue) => true,
        (ValueModel::BoolFalse, ValueModel::BoolFalse) => true,
        (ValueModel::BoolTrue, ValueModel::Bool(y)) => y,
        (ValueModel::Bool(x), ValueModel::BoolTrue) => x,
        (ValueModel::BoolFalse, ValueModel::Bool(y)) => !y,
        (ValueModel::Bool(x), ValueModel::BoolFalse) => !x,
        (ValueModel::Bool(x), ValueModel::Bool(y)) => x == y,
        (ValueModel::Number(x), ValueModel::Number(y)) => x == y,
        (ValueModel::Str(x), ValueModel::Str(y)) => x == y,
        (ValueModel::Array(x), ValueModel::Array(y)) => x.len() == y.len() && forall|i: int|
            0 <= i < x.len() ==> same_value(x[i], y[i]),
        (ValueModel::Container(x), ValueModel::Container(y)) => x.len() == y.len() && forall|i: int|
            0 <= i < x.len() ==> x[i].0 == y[i].0 && same_value(x[i].1, y[i].1),
        (ValueModel::Null, ValueModel::Null) => true,
        _ => false,
    }
}

/// The model of an array is the sequence of its elements' models.
pub proof fn lemma_array_model(a: Vec<DataValue>)
    ensures
        DataValue::Array(a)@ == ValueModel::Array(models(a@)),
{
    let v = DataValue::Array(a);
    assert(v@->Array_0 =~= models(a@));
}

pub proof fn lemma_container_model(a: Vec<(DataTypes, DataValue)>)
    ensures
        DataValue::Container(a)@ == ValueModel::Container(entry_models(a@)),
{
    let v = DataValue::Container(a);
    assert(v@->Container_0 =~= entry_models(a@));
}

/// A copy of a value, with the same model.
#[verifier::loop_isolation(false)]
fn copy_value(v: &DataValue) -> (c: DataValue)
    ensures
        c@ == v@,
    decreases v,
{
    match v {
        DataValue::BoolTrue => DataValue::BoolTrue,
        DataValue::BoolFalse => DataValue::BoolFalse,
        DataValue::Bool(b) => DataValue::Bool(*b),
        DataValue::Number(n) => DataValue::Number(*n),
        DataValue::Str(s) => DataValue::Str(s.clone()),
        DataValue::Array(a) => {
            let mut out: Vec<DataValue> = Vec::new();
            for i in 0..a.len()
                invariant
                    out@.len() == i,
                    forall|j: int| 0 <= j < i ==> out@[j]@ == a@[j]@,
            {
                out.push(copy_value(&a[i]));
            }
            let c = DataValue::Array(out);
            assert(c@ == v@) by {
                assert(c@->Array_0 =~= v@->Array_0);
            }
            c
        },
        DataValue::Container(e) => {
            let mut out: Vec<(DataTypes, DataValue)> = Vec::new();
            for i in 0..e.len()
                invariant
                    out@.len() == i,
                    forall|j: int| 0 <= j < i ==> out@[j].0 == e@[j].0 && out@[j].1@ == e@[j].1@,
            {
                out.push((e[i].0, copy_value(&e[i].1)));
            }
            let c = DataValue::Container(out);
            assert(c@ == v@) by {
                assert(c@->Container_0 =~= v@->Container_0);
            }
            c
        },
        DataValue::Null => DataValue::Null,
    }
}

/// Whether two values are equal in the sense of [`same_value`].
#[verifier::loop_isolation(false)]
fn values_equal(a: &DataValue, b: &DataValue) -> (same: bool)
    ensures
        same == same_value(a@, b@),
    decreases a,
{
    match (a, b) {
        (DataValue::BoolTrue, DataValue::BoolTrue) => true,
        (DataValue::BoolFalse, DataValue::BoolFalse) => true,
        (DataValue::BoolTrue, DataValue::Bool(y)) => *y,
        (DataValue::Bool(x), DataValue::BoolTrue) => *x,
        (DataValue::BoolFalse, DataValue::Bool(y)) => !*y,
        (DataValue::Bool(x), DataValue::BoolFalse) => !*x,
        (DataValue::Bool(x), DataValue::Bool(y)) => *x == *y,
        (DataValue::Number(x), DataValue::Number(y)) => *x == *y,
        (DataValue::Str(x), DataValue::Str(y)) => *x == *y,
        (DataValue::Array(x), DataValue::Array(y)) => {
            assert(a@ == ValueModel::Array(models(x@))) by {
                assert(*a == DataValue::Array(*x));
                assert(a@->Array_0 =~= models(x@));
            }
            assert(b@ == ValueModel::Array(models(y@))) by {
                assert(*b == DataValue::Array(*y));
                assert(b@->Array_0 =~= models(y@));
            }
            if x.len() != y.len() {
                return false;
            }
            for i in 0..x.len()
                invariant
                    x@.len() == y@.len(),
                    forall|j: int| 0 <= j < i ==> same_value(#[trigger] x@[j]@, y@[j]@),
            {
                if !values_equal(&x[i], &y[i]) {
                    assert(!same_value(a@->Array_0[i as int], b@->Array_0[i as int]));
                    return false;
                }
            }
            assert forall|j: int| 0 <= j < x@.len() implies same_value(
                a@->Array_0[j],
                b@->Array_0[j],
            ) by {
                assert(same_value(x@[j]@, y@[j]@));
            }
            true
        },
        (DataValue::Container(x), DataValue::Container(y)) => {
            assert(a@ == ValueModel::Container(entry_models(x@)) && b@ == ValueModel::Container(
                entry_models(y@),
            )) by {
                assert(a@->Container_0 =~= entry_models(x@));
                assert(b@->Container_0 =~= entry_models(y@));
            }
            if x.len() != y.len() {
                return false;
            }
            for i in 0..x.len()
                invariant
                    x@.len() == y@.len(),
                    forall|j: int|
                        #![trigger x@[j]]
                        0 <= j < i ==> x@[j].0 == y@[j].0 && same_value(x@[j].1@, y@[j].1@),
            {
                let same_key = x[i].0 == y[i].0;
                if !same_key || !values_equal(&x[i].1, &y[i].1) {
                    assert(!(a@->Container_0[i as int].0 == b@->Container_0[i as int].0
                        && same_value(a@->Container_0[i as int].1, b@->Container_0[i as int].1)));
                    return false;
                }
                assert(x@[i as int].0 == y@[i as int].0);
            }
            assert forall|j: int| 0 <= j < x@.len() implies a@->Container_0[j].0
                == b@->Container_0[j].0 && same_value(
                a@->Container_0[j].1,
                b@->Container_0[j].1,
            ) by {
                assert(same_value(x@[j].1@, y@[j].1@));
            }
            true
        },
        (DataValue::Null, DataValue::Null) => true,
        _ => false,
    }
}

impl PartialEq for DataValue {
    fn eq(&self, other: &Self) -> (same: bool) {
        values_equal(self, other)
    }
}

impl vstd::std_specs::cmp::PartialEqSpecImpl for DataValue {
    open spec fn obeys_eq_spec() -> bool {
        true
    }

    open spec fn eq_spec(&self, other: &DataValue) -> bool {
        same_value(self@, other@)
    }
}

impl Clone for DataValue {
    fn clone(&self) -> (c: Self)
        ensures
            c@ == self@,
    {
        copy_value(self)
    }
}

/// Whether a value has a kind: an array has one when it is not empty and
/// its first element has one.
pub open spec fn has_kind(v: ValueModel) -> bool
    decreases v,
{
    match v {
        ValueModel::Array(a) => a.len() > 0 && has_kind(a[0]),
        _ => true,
    }
}

/// The kind of a value: its variant, and for an array the kind of its
/// first element.
pub open spec fn kind_of_value(v: ValueModel) -> DataKind
    decreases v,
{
    match v {
        ValueModel::BoolTrue => DataKind::Bool,
        ValueModel::BoolFalse => DataKind::Bool,
        ValueModel::Bool(_) => DataKind::Bool,
        ValueModel::Number(_) => DataKind::Number,
        ValueModel::Str(_) => DataKind::Str,
        ValueModel::Array(a) => if a.len() > 0 {
            DataKind::Array(Box::new(kind_of_value(a[0])))
        } else {
            arbitrary()
        },
        ValueModel::Container(_) => DataKind::Container,
        ValueModel::Null => DataKind::Null,
    }
}

impl DataValue {
    /// The kind of this value. An array's kind is taken from its first
    /// element, so an empty array (at any depth of first elements) has none.
    pub fn kind(&self) -> (k: DataKind)
        requires
            has_kind(self@),
        ensures
            k == kind_of_value(self@),
        decreases self,
    {
        match self {
            DataValue::Bool(_) => DataKind::Bool,
            DataValue::BoolTrue => DataKind::Bool,
            DataValue::BoolFalse => DataKind::Bool,
            DataValue::Number(_) => DataKind::Number,
            DataValue::Str(_) => DataKind::Str,
            DataValue::Array(a) => {
                proof {
                    lemma_array_model(*a);
                }
                DataKind::Array(Box::new(a[0].kind()))
            },
            DataValue::Container(_) => DataKind::Container,
            DataValue::Null => DataKind::Null,
        }
    }

    /// The truth value of a boolean, in any of its three spellings.
    pub fn as_bool(&self) -> (b: Option<bool>)
        ensures
            b == match self@ {
                ValueModel::BoolTrue => Some(true),
                ValueModel::BoolFalse => Some(false),
                ValueModel::Bool(x) => Some(x),
                _ => None,
            },
    {
        match self {
            DataValue::BoolTrue => Some(true),
            DataValue::BoolFalse => Some(false),
            DataValue::Bool(b) => Some(*b),
            _ => None,
        }
    }

    /// The text of a string value, borrowed.
    pub fn as_str(&self) -> (s: Option<&str>)
        ensures
            match self@ {
                ValueModel::Str(t) => s matches Some(x) && x@ == t,
                _ => s is None,
            },
    {
        match self {
            DataValue::Str(s) => Some(s.as_str()),
            _ => None,
        }
    }

    /// The text of a string value, copied.
    pub fn as_string(&self) -> (s: Option<String>)
        ensures
            match self@ {
                ValueModel::Str(t) => s matches Some(x) && x@ == t,
                _ => s is None,
            },
    {
        match self {
            DataValue::Str(s) => Some(s.clone()),
            _ => None,
        }
    }

    /// The integer of a number value.
    pub fn as_number(&self) -> (n: Option<i64>)
        ensures
            n == match self@ {
                ValueModel::Number(x) => Some(x),
                _ => None,
            },
    {
        match self {
            DataValue::Number(n) => Some(*n),
            _ => None,
        }
    }

    /// A copy of the elements of an array value.
    pub fn as_array(&self) -> (items: Option<Vec<DataValue>>)
        ensures
            match self@ {
                ValueModel::Array(a) => items matches Some(v) && models(v@) == a,
                _ => items is None,
            },
    {
        match self {
            DataValue::Array(a) => {
                let copy = a.clone();
                proof {
                    lemma_array_model(*a);
                    assert(models(copy@) =~= models(a@));
                }
                Some(copy)
            },
            _ => None,
        }
    }

    /// A copy of the (identifier, value) pairs of a container value.
    pub fn as_container(&self) -> (entries: Option<Vec<(DataTypes, DataValue)>>)
        ensures
            match self@ {
                ValueModel::Container(c) => entries matches Some(v) && entry_models(v@) == c,
                _ => entries is None,
            },
    {
        match self {
            DataValue::Container(c) => {
                let copy = copy_entries(c);
                proof {
                    lemma_container_model(*c);
                }
                Some(copy)
            },
            _ => None,
        }
    }
}

/// A copy of a sequence of (identifier, value) pairs, pair by pair.
fn copy_entries(c: &Vec<(DataTypes, DataValue)>) -> (copy: Vec<(DataTypes, DataValue)>)
    ensures
        entry_models(copy@) == entry_models(c@),
{
    let mut out: Vec<(DataTypes, DataValue)> = Vec::new();
    for i in 0..c.len()
        invariant
            out@.len() == i,
            forall|j: int| 0 <= j < i ==> out@[j].0 == c@[j].0 && out@[j].1@ == c@[j].1@,
    {
        out.push((c[i].0, c[i].1.clone()));
    }
    assert(entry_models(out@) =~= entry_models(c@));
    out
}

/// The models of a map's values, key by key.
pub open spec fn map_models(m: Map<DataTypes, DataValue>) -> Map<DataTypes, ValueModel> {
    Map::new(|k: DataTypes| m.contains_key(k), |k: DataTypes| m[k]@)
}

/// Whether `e` lists the entries of `m`, each key once, in the declaration
/// order of the identifiers.
pub open spec fn lists_in_key_order(e: Seq<(DataTypes, ValueModel)>, m: Map<DataTypes, DataValue>) -> bool {
    &&& forall|i: int, j: int| 0 <= i < j < e.len() ==> e[i].0.position() < e[j].0.position()
    &&& forall|i: int| 0 <= i < e.len() ==> m.contains_key(#[trigger] e[i].0) && e[i].1 == m[e[i].0]@
    &&& forall|k: DataTypes| m.contains_key(k) ==> exists|i: int| 0 <= i < e.len() && #[trigger] e[i].0 == k
}

/// The map that inserting the pairs of `e` one after another, into an
/// empty map, builds: a key that occurs more than once keeps its last value.
pub open spec fn map_of_entries(e: Seq<(DataTypes, ValueModel)>) -> Map<DataTypes, ValueModel>
    decreases e.len(),
{
    if e.len() == 0 {
        Map::empty()
    } else {
        map_of_entries(e.drop_last()).insert(e.last().0, e.last().1)
    }
}

/// The entries of a map, in key order, borrowed.
///
/// Trusted: `BTreeMap::iter` yields each entry of the map once, in
/// ascending order of the keys; the derived order of `DataTypes` is the
/// declaration order, which `position` numbers.
#[verifier::external_body]
fn map_entries<'a>(map: &'a BTreeMap<DataTypes, DataValue>) -> (entries: Vec<(DataTypes, &'a DataValue)>)
    ensures
        forall|i: int, j: int|
            0 <= i < j < entries@.len() ==> entries@[i].0.position() < entries@[j].0.position(),
        forall|i: int|
            0 <= i < entries@.len() ==> map@.contains_key(#[trigger] entries@[i].0) && *entries@[i].1
                == map@[entries@[i].0],
        forall|k: DataTypes|
            map@.contains_key(k) ==> exists|i: int| 0 <= i < entries@.len() && #[trigger] entries@[i].0 == k,
{
    map.iter().map(|(k, v)| (*k, v)).collect()
}

/// Inserts `value` under `key`, and gives back the value it replaced.
///
/// Trusted: `BTreeMap::insert` maps the key to the new value, keeps every
/// other entry, and returns the previous value of the key if it had one.
#[verifier::external_body]
fn map_insert(map: &mut BTreeMap<DataTypes, DataValue>, key: DataTypes, value: DataValue) -> (previous: Option<DataValue>)
    ensures
        final(map)@ == old(map)@.insert(key, value),
        previous matches Some(p) ==> old(map)@.contains_key(key) && p == old(map)@[key],
        previous is None ==> !old(map)@.contains_key(key),
{
    map.insert(key, value)
}

impl DataValue {
    /// A container holding copies of the map's entries, in key order.
    pub fn container_from_map(map: &BTreeMap<DataTypes, DataValue>) -> (c: DataValue)
        ensures
            c@ is Container,
            lists_in_key_order(c@->Container_0, map@),
    {
        let entries = map_entries(map);
        let mut container: Vec<(DataTypes, DataValue)> = Vec::new();
        for i in 0..entries.len()
            invariant
                container@.len() == i,
                forall|j: int|
                    0 <= j < i ==> container@[j].0 == entries@[j].0 && container@[j].1@ == (*entries@[j].1)@,
        {
            let (key, value) = entries[i];
            container.push((key, value.clone()));
        }
        proof {
            lemma_container_model(container);
            let e = entry_models(container@);
            assert forall|k: DataTypes| map@.contains_key(k) implies exists|i: int|
                0 <= i < e.len() && #[trigger] e[i].0 == k by {
                let i = choose|i: int| 0 <= i < entries@.len() && #[trigger] entries@[i].0 == k;
                assert(e[i].0 == k);
            }
        }
        DataValue::Container(container)
    }

    /// The container's pairs as a map, inserted in order, so that a key
    /// that occurs more than once keeps its last value.
    pub fn as_map(&self) -> (m: Option<BTreeMap<DataTypes, DataValue>>)
        ensures
            match self@ {
                ValueModel::Container(c) => m matches Some(map) && map_models(map@) == map_of_entries(c),
                _ => m is None,
            },
    {
        match self {
            DataValue::Container(c) => {
                let mut map: BTreeMap<DataTypes, DataValue> = BTreeMap::new();
                for i in 0..c.len()
                    invariant
                        map_models(map@) == map_of_entries(entry_models(c@).take(i as int)),
                {
                    let ghost before = map@;
                    map_insert(&mut map, c[i].0, c[i].1.clone());
                    proof {
                        let e = entry_models(c@);
                        assert(e.take(i + 1).drop_last() =~= e.take(i as int));
                        assert(map_models(map@) =~= map_models(before).insert(e[i as int].0, e[i as int].1));
                    }
                }
                proof {
                    lemma_container_model(*c);
                    assert(entry_models(c@).take(c@.len() as int) =~= entry_models(c@));
                }
                Some(map)
            },
            _ => None,
        }
    }
}

/// Inserting pairs whose keys rise strictly in position builds the map
/// that has exactly those keys, each with its value.
proof fn lemma_map_of_rising_entries(e: Seq<(DataTypes, ValueModel)>)
    requires
        forall|i: int, j: int| 0 <= i < j < e.len() ==> e[i].0.position() < e[j].0.position(),
    ensures
        forall|k: DataTypes|
            map_of_entries(e).contains_key(k) <==> exists|i: int| 0 <= i < e.len() && #[trigger] e[i].0 == k,
        forall|i: int| 0 <= i < e.len() ==> map_of_entries(e)[#[trigger] e[i].0] == e[i].1,
    decreases e.len(),
{
    if e.len() > 0 {
        let front = e.drop_last();
        lemma_map_of_rising_entries(front);
        assert forall|k: DataTypes|
            map_of_entries(e).contains_key(k) <==> exists|i: int| 0 <= i < e.len() && #[trigger] e[i].0 == k by {
            if map_of_entries(e).contains_key(k) {
                if k == e.last().0 {
                    assert(e[e.len() - 1].0 == k);
                } else {
                    assert(map_of_entries(front).contains_key(k));
                    let i = choose|i: int| 0 <= i < front.len() && #[trigger] front[i].0 == k;
                    assert(front[i] == e[i]);
                    assert(e[i].0 == k);
                }
            }
            if exists|i: int| 0 <= i < e.len() && #[trigger] e[i].0 == k {
                let i = choose|i: int| 0 <= i < e.len() && #[trigger] e[i].0 == k;
                if i < e.len() - 1 {
                    assert(front[i] == e[i]);
                    assert(front[i].0 == k);
                    assert(map_of_entries(front).contains_key(k));
                }
            }
        }
        assert forall|i: int| 0 <= i < e.len() implies map_of_entries(e)[#[trigger] e[i].0] == e[i].1 by {
            if i < e.len() - 1 {
                assert(front[i] == e[i]);
            }
        }
    }
}

/// Turning a map into a container and back gives the same map: the
/// container's pairs, inserted in order, rebuild the map's entries.
pub proof fn lemma_map_roundtrip(e: Seq<(DataTypes, ValueModel)>, m: Map<DataTypes, DataValue>)
    requires
        lists_in_key_order(e, m),
    ensures
        map_of_entries(e) == map_models(m),
{
    lemma_map_of_rising_entries(e);
    assert forall|k: DataTypes| #[trigger] map_of_entries(e).contains_key(k) implies map_of_entries(e)[k]
        == map_models(m)[k] by {
        let i = choose|i: int| 0 <= i < e.len() && #[trigger] e[i].0 == k;
    }
    assert(map_of_entries(e) =~= map_models(m));
}

/// A value's kind tells which accessor gives it back: `as_bool` for the
/// boolean kind, `as_number`, `as_str` and `as_string`, `as_array`, and
/// `as_container` and `as_map` for theirs; the null kind has none.
pub proof fn lemma_kind_matches_accessors(v: ValueModel)
    requires
        has_kind(v),
    ensures
        (kind_of_value(v) == DataKind::Bool) == (v is BoolTrue || v is BoolFalse || v is Bool),
        (kind_of_value(v) == DataKind::Number) == (v is Number),
        (kind_of_value(v) == DataKind::Str) == (v is Str),
        (kind_of_value(v) is Array) == (v is Array),
        (kind_of_value(v) == DataKind::Container) == (v is Container),
        (kind_of_value(v) == DataKind::Null) == (v is Null),
{
}

/// The kind of a non-empty array is the array kind of whatever its first
/// element's kind is, whatever the other elements are.
pub proof fn lemma_array_kind_from_first(first: ValueModel, rest: Seq<ValueModel>)
    requires
        has_kind(first),
    ensures
        has_kind(ValueModel::Array(seq![first] + rest)),
        kind_of_value(ValueModel::Array(seq![first] + rest)) == DataKind::Array(
            Box::new(kind_of_value(first)),
        ),
{
    assert((seq![first] + rest)[0] == first);
}

/// Strings, numbers and null are equal exactly when they are identical: two
/// strings when their texts are the same character sequence, two numbers
/// when they are the same integer.
pub proof fn lemma_scalar_equality(a: ValueModel, b: ValueModel)
    requires
        a is Str || a is Number || a is Null,
    ensures
        same_value(a, b) == (a == b),
{
}

/// A boolean equals another boolean, in whichever spelling, exactly when
/// `as_bool` gives the same truth value for both.
pub proof fn lemma_boolean_equality(a: ValueModel, b: ValueModel, x: bool, y: bool)
    requires
        a == ValueModel::BoolTrue || a == ValueModel::BoolFalse || a == ValueModel::Bool(x),
        b == ValueModel::BoolTrue || b == ValueModel::BoolFalse || b == ValueModel::Bool(y),
    ensures
        same_value(a, b) == (truth_value(a) == truth_value(b)),
{
}

/// The truth value of a boolean in any spelling, as `as_bool` gives it.
pub open spec fn truth_value(v: ValueModel) -> Option<bool> {
    match v {
        ValueModel::BoolTrue => Some(true),
        ValueModel::BoolFalse => Some(false),
        ValueModel::Bool(x) => Some(x),
        _ => None,
    }
}

/// Building a map from pairs keeps every key of the pairs and no other, and
/// each key maps to the value of its last pair.
pub proof fn lemma_map_of_entries_contents(e: Seq<(DataTypes, ValueModel)>)
    ensures
        forall|k: DataTypes|
            map_of_entries(e).contains_key(k) <==> exists|i: int| 0 <= i < e.len() && #[trigger] e[i].0 == k,
        forall|i: int|
            0 <= i < e.len() && (forall|j: int| i < j < e.len() ==> e[j].0 != e[i].0) ==> map_of_entries(
                e,
            )[#[trigger] e[i].0] == e[i].1,
    decreases e.len(),
{
    if e.len() > 0 {
        let front = e.drop_last();
        lemma_map_of_entries_contents(front);
        assert forall|k: DataTypes|
            map_of_entries(e).contains_key(k) <==> exists|i: int| 0 <= i < e.len() && #[trigger] e[i].0 == k by {
            if map_of_entries(e).contains_key(k) {
                if k == e.last().0 {
                    assert(e[e.len() - 1].0 == k);
                } else {
                    assert(map_of_entries(front).contains_key(k));
                    let i = choose|i: int| 0 <= i < front.len() && #[trigger] front[i].0 == k;
                    assert(front[i] == e[i]);
                    assert(e[i].0 == k);
                }
            }
            if exists|i: int| 0 <= i < e.len() && #[trigger] e[i].0 == k {
                let i = choose|i: int| 0 <= i < e.len() && #[trigger] e[i].0 == k;
                if i < e.len() - 1 {
                    assert(front[i] == e[i]);
                    assert(front[i].0 == k);
                    assert(map_of_entries(front).contains_key(k));
                }
            }
        }
        assert forall|i: int|
            0 <= i < e.len() && (forall|j: int| i < j < e.len() ==> e[j].0 != e[i].0) implies map_of_entries(
            e,
        )[#[trigger] e[i].0] == e[i].1 by {
            if i < e.len() - 1 {
                assert(front[i] == e[i]);
                assert(e[e.len() - 1].0 != e[i].0);
                assert forall|j: int| i < j < front.len() implies front[j].0 != front[i].0 by {
                    assert(front[j] == e[j]);
                }
            }
        }
    }
}

/// Different strings hand the hasher different inputs, so hashing looks at
/// a string's text.
pub proof fn lemma_string_hash_reads_text(x: Seq<char>, y: Seq<char>)
    requires
        hash_inputs(ValueModel::Str(x)) == hash_inputs(ValueModel::Str(y)),
    ensures
        x == y,
{
    assert(hash_inputs(ValueModel::Str(x))[1] == HashInputModel::Text(x));
    assert(hash_inputs(ValueModel::Str(y))[1] == HashInputModel::Text(y));
}

/// Equal values have the same kind, and equal arrays and containers have
/// the same length.
pub proof fn lemma_equal_values_same_kind(a: ValueModel, b: ValueModel)
    requires
        same_value(a, b),
        has_kind(a),
    ensures
        has_kind(b),
        kind_of_value(a) == kind_of_value(b),
        a is Array ==> b is Array && a->Array_0.len() == b->Array_0.len(),
        a is Container ==> b is Container && a->Container_0.len() == b->Container_0.len(),
    decreases a,
{
    match (a, b) {
        (ValueModel::Array(x), ValueModel::Array(y)) => {
            lemma_equal_values_same_kind(x[0], y[0]);
        },
        _ => {},
    }
}

/// Equality of values is reflexive: every value equals itself.
pub proof fn lemma_same_value_reflexive(a: ValueModel)
    ensures
        same_value(a, a),
    decreases a,
{
    match a {
        ValueModel::Array(x) => {
            assert forall|i: int| 0 <= i < x.len() implies same_value(x[i], x[i]) by {
                lemma_same_value_reflexive(x[i]);
            }
        },
        ValueModel::Container(x) => {
            assert forall|i: int| 0 <= i < x.len() implies x[i].0 == x[i].0 && same_value(
                x[i].1,
                x[i].1,
            ) by {
                lemma_same_value_reflexive(x[i].1);
            }
        },
        _ => {},
    }
}

/// Equality of values is symmetric.
pub proof fn lemma_same_value_symmetric(a: ValueModel, b: ValueModel)
    requires
        same_value(a, b),
    ensures
        same_value(b, a),
    decreases a,
{
    match (a, b) {
        (ValueModel::Array(x), ValueModel::Array(y)) => {
            assert forall|i: int| 0 <= i < y.len() implies same_value(y[i], x[i]) by {
                lemma_same_value_symmetric(x[i], y[i]);
            }
        },
        (ValueModel::Container(x), ValueModel::Container(y)) => {
            assert forall|i: int| 0 <= i < y.len() implies y[i].0 == x[i].0 && same_value(
                y[i].1,
                x[i].1,
            ) by {
                lemma_same_value_symmetric(x[i].1, y[i].1);
            }
        },
        _ => {},
    }
}

/// Equality of values is transitive.
pub proof fn lemma_same_value_transitive(a: ValueModel, b: ValueModel, c: ValueModel)
    requires
        same_value(a, b),
        same_value(b, c),
    ensures
        same_value(a, c),
    decreases a,
{
    match (a, b, c) {
        (ValueModel::Array(x), ValueModel::Array(y), ValueModel::Array(z)) => {
            assert forall|i: int| 0 <= i < x.len() implies same_value(x[i], z[i]) by {
                lemma_same_value_transitive(x[i], y[i], z[i]);
            }
        },
        (ValueModel::Container(x), ValueModel::Container(y), ValueModel::Container(z)) => {
            assert forall|i: int| 0 <= i < x.len() implies x[i].0 == z[i].0 && same_value(
                x[i].1,
                z[i].1,
            ) by {
                lemma_same_value_transitive(x[i].1, y[i].1, z[i].1);
            }
        },
        _ => {},
    }
}

/// One primitive value that hashing a [`DataValue`] hands to the hasher.
pub enum HashInput {
    /// The variant's tag.
    Tag(u8),
    /// A truth value.
    Flag(bool),
    /// A number.
    Int(i64),
    /// A string.
    Text(String),
    /// The length of an array or container.
    Length(usize),
    /// A field identifier, as its number.
    Field(isize),
}

/// The mathematical form of a [`HashInput`].
pub enum HashInputModel {
    Tag(u8),
    Flag(bool),
    Int(i64),
    Text(Seq<char>),
    Length(usize),
    Field(isize),
}

impl View for HashInput {
    type V = HashInputModel;

    open spec fn view(&self) -> HashInputModel {
        match self {
            HashInput::Tag(t) => HashInputModel::Tag(*t),
            HashInput::Flag(b) => HashInputModel::Flag(*b),
            HashInput::Int(n) => HashInputModel::Int(*n),
            HashInput::Text(s) => HashInputModel::Text(s@),
            HashInput::Length(n) => HashInputModel::Length(*n),
            HashInput::Field(f) => HashInputModel::Field(*f),
        }
    }
}

/// The models of a sequence of hash inputs.
pub open spec fn input_models(s: Seq<HashInput>) -> Seq<HashInputModel> {
    Seq::new(s.len(), |i: int| s[i]@)
}

/// What hashing a value hands to the hasher: a tag for the variant (the
/// three spellings of a boolean share one, followed by the truth value),
/// then the content; an array or container gives its length and then each
/// element (a container's pair as the identifier's number, then the value).
pub open spec fn hash_inputs(v: ValueModel) -> Seq<HashInputModel>
    decreases v,
{
    match v {
        ValueModel::BoolTrue => seq![HashInputModel::Tag(0), HashInputModel::Flag(true)],
        ValueModel::BoolFalse => seq![HashInputModel::Tag(0), HashInputModel::Flag(false)],
        ValueModel::Bool(b) => seq![HashInputModel::Tag(0), HashInputModel::Flag(b)],
        ValueModel::Number(n) => seq![HashInputModel::Tag(1), HashInputModel::Int(n)],
        ValueModel::Str(s) => seq![HashInputModel::Tag(2), HashInputModel::Text(s)],
        ValueModel::Array(a) => seq![HashInputModel::Tag(3), HashInputModel::Length(a.len() as usize)]
            + items_hash_inputs(a),
        ValueModel::Container(c) => seq![
            HashInputModel::Tag(4),
            HashInputModel::Length(c.len() as usize),
        ] + entries_hash_inputs(c),
        ValueModel::Null => seq![HashInputModel::Tag(5)],
    }
}

/// The hash inputs of the elements of an array, one after another.
pub open spec fn items_hash_inputs(a: Seq<ValueModel>) -> Seq<HashInputModel>
    decreases a,
{
    if a.len() == 0 {
        Seq::empty()
    } else {
        items_hash_inputs(a.subrange(0, a.len() - 1)) + hash_inputs(a[a.len() - 1])
    }
}

/// The hash inputs of the pairs of a container, one after another.
pub open spec fn entries_hash_inputs(c: Seq<(DataTypes, ValueModel)>) -> Seq<HashInputModel>
    decreases c,
{
    if c.len() == 0 {
        Seq::empty()
    } else {
        entries_hash_inputs(c.subrange(0, c.len() - 1)) + seq![
            HashInputModel::Field(c[c.len() - 1].0.position() as isize),
        ] + hash_inputs(c[c.len() - 1].1)
    }
}

/// The primitive values that hashing `v` hands to the hasher, in order.
#[verifier::loop_isolation(false)]
#[verifier::spinoff_prover]
#[verifier::rlimit(40)]
fn collect_hash_inputs(v: &DataValue) -> (inputs: Vec<HashInput>)
    ensures
        input_models(inputs@) == hash_inputs(v@),
    decreases v,
{
    match v {
        DataValue::BoolTrue | DataValue::Bool(true) => {
            let out = vec![HashInput::Tag(0), HashInput::Flag(true)];
            assert(input_models(out@) =~= hash_inputs(v@));
            out
        },
        DataValue::BoolFalse | DataValue::Bool(false) => {
            let out = vec![HashInput::Tag(0), HashInput::Flag(false)];
            assert(input_models(out@) =~= hash_inputs(v@));
            out
        },
        DataValue::Number(n) => {
            let out = vec![HashInput::Tag(1), HashInput::Int(*n)];
            assert(input_models(out@) =~= hash_inputs(v@));
            out
        },
        DataValue::Str(s) => {
            let out = vec![HashInput::Tag(2), HashInput::Text(s.clone())];
            assert(input_models(out@) =~= hash_inputs(v@));
            out
        },
        DataValue::Array(a) => {
            proof {
                lemma_array_model(*a);
            }
            let ghost items = models(a@);
            let ghost head = seq![HashInputModel::Tag(3), HashInputModel::Length(a.len())];
            let mut out = vec![HashInput::Tag(3), HashInput::Length(a.len())];
            assert(items.take(0) =~= Seq::<ValueModel>::empty());
            assert(input_models(out@) =~= head + items_hash_inputs(items.take(0)));
            for i in 0..a.len()
                invariant
                    input_models(out@) == head + items_hash_inputs(items.take(i as int)),
            {
                let mut more = collect_hash_inputs(&a[i]);
                let ghost before = out@;
                out.append(&mut more);
                proof {
                    assert(items.take(i + 1).subrange(0, i as int) =~= items.take(i as int));
                    assert(items.take(i + 1)[i as int] == a@[i as int]@);
                    assert(input_models(out@) =~= input_models(before) + hash_inputs(a@[i as int]@));
                }
            }
            assert(items.take(a.len() as int) =~= items);
            out
        },
        DataValue::Container(c) => {
            proof {
                lemma_container_model(*c);
            }
            let ghost entries = entry_models(c@);
            let ghost head = seq![HashInputModel::Tag(4), HashInputModel::Length(c.len())];
            let mut out = vec![HashInput::Tag(4), HashInput::Length(c.len())];
            assert(entries.take(0) =~= Seq::<(DataTypes, ValueModel)>::empty());
            assert(input_models(out@) =~= head + entries_hash_inputs(entries.take(0)));
            for i in 0..c.len()
                invariant
                    input_models(out@) == head + entries_hash_inputs(entries.take(i as int)),
            {
                let field = c[i].0.as_number();
                let mut more = collect_hash_inputs(&c[i].1);
                let ghost before = out@;
                out.push(HashInput::Field(field as isize));
                out.append(&mut more);
                proof {
                    assert(entries.take(i + 1).subrange(0, i as int) =~= entries.take(i as int));
                    assert(entries.take(i + 1)[i as int] == (c@[i as int].0, c@[i as int].1@));
                    assert(input_models(out@) =~= input_models(before) + seq![
                        HashInputModel::Field(c@[i as int].0.position() as isize),
                    ] + hash_inputs(c@[i as int].1@));
                }
            }
            assert(entries.take(c.len() as int) =~= entries);
            out
        },
        DataValue::Null => {
            let out = vec![HashInput::Tag(5)];
            assert(input_models(out@) =~= hash_inputs(v@));
            out
        },
    }
}

/// Hands a `u8` to the hasher.
///
/// Trusted: calls `<u8 as Hash>::hash`; nothing is said of the hasher's
/// state, which is opaque.
#[verifier::external_body]
fn feed_u8<H: Hasher>(v: u8, state: &mut H) {
    v.hash(state)
}

/// Hands a `bool` to the hasher.
///
/// Trusted: calls `<bool as Hash>::hash`; nothing is said of the hasher's
/// state.
#[verifier::external_body]
fn feed_bool<H: Hasher>(v: bool, state: &mut H) {
    v.hash(state)
}

/// Hands an `i64` to the hasher.
///
/// Trusted: calls `<i64 as Hash>::hash`; nothing is said of the hasher's
/// state.
#[verifier::external_body]
fn feed_i64<H: Hasher>(v: i64, state: &mut H) {
    v.hash(state)
}

/// Hands a string to the hasher.
///
/// Trusted: calls `<str as Hash>::hash`, which `String`'s hash also calls;
/// nothing is said of the hasher's state.
#[verifier::external_body]
fn feed_str<H: Hasher>(v: &str, state: &mut H) {
    v.hash(state)
}

/// Hands a length to the hasher, as the length prefix of a slice is.
///
/// Trusted: calls `<usize as Hash>::hash`, which writes the `usize` as the
/// slice hash writes its length; nothing is said of the hasher's state.
#[verifier::external_body]
fn feed_usize<H: Hasher>(v: usize, state: &mut H) {
    v.hash(state)
}

/// Hands a field identifier's number to the hasher, as the derived hash of
/// a fieldless enum hands its discriminant.
///
/// Trusted: calls `<isize as Hash>::hash`; nothing is said of the hasher's
/// state.
#[verifier::external_body]
fn feed_isize<H: Hasher>(v: isize, state: &mut H) {
    v.hash(state)
}

impl Hash for DataValue {
    /// Hands the primitive values of [`hash_inputs`] to the hasher, in
    /// order, so that equal values are hashed alike.
    fn hash<H: Hasher>(&self, state: &mut H) {
        let inputs = collect_hash_inputs(self);
        for i in 0..inputs.len() {
            match &inputs[i] {
                HashInput::Tag(t) => feed_u8(*t, state),
                HashInput::Flag(b) => feed_bool(*b, state),
                HashInput::Int(n) => feed_i64(*n, state),
                HashInput::Text(s) => feed_str(s.as_str(), state),
                HashInput::Length(n) => feed_usize(*n, state),
                HashInput::Field(f) => feed_isize(*f, state),
            }
        }
    }
}

/// Equal values are hashed alike: they hand the hasher the same inputs.
pub proof fn lemma_equal_values_hash_alike(a: ValueModel, b: ValueModel)
    requires
        same_value(a, b),
    ensures
        hash_inputs(a) == hash_inputs(b),
    decreases a,
{
    match (a, b) {
        (ValueModel::Array(x), ValueModel::Array(y)) => {
            lemma_equal_items_hash_alike(x, y);
        },
        (ValueModel::Container(x), ValueModel::Container(y)) => {
            lemma_equal_entries_hash_alike(x, y);
        },
        _ => {},
    }
}

/// Arrays of pairwise equal elements are hashed alike.
proof fn lemma_equal_items_hash_alike(x: Seq<ValueModel>, y: Seq<ValueModel>)
    requires
        x.len() == y.len(),
        forall|i: int| 0 <= i < x.len() ==> same_value(x[i], y[i]),
    ensures
        items_hash_inputs(x) == items_hash_inputs(y),
    decreases x,
{
    if x.len() > 0 {
        let n = x.len() - 1;
        lemma_equal_items_hash_alike(x.subrange(0, n), y.subrange(0, n));
        lemma_equal_values_hash_alike(x[n], y[n]);
    }
}

/// Containers of pairwise equal pairs are hashed alike.
proof fn lemma_equal_entries_hash_alike(x: Seq<(DataTypes, ValueModel)>, y: Seq<(DataTypes, ValueModel)>)
    requires
        x.len() == y.len(),
        forall|i: int| 0 <= i < x.len() ==> x[i].0 == y[i].0 && same_value(x[i].1, y[i].1),
    ensures
        entries_hash_inputs(x) == entries_hash_inputs(y),
    decreases x,
{
    if x.len() > 0 {
        let n = x.len() - 1;
        lemma_equal_entries_hash_alike(x.subrange(0, n), y.subrange(0, n));
        lemma_equal_values_hash_alike(x[n].1, y[n].1);
    }
}

} // verus!
