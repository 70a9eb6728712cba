//! The registry of a UIS program: its components and properties, each kept
//! in insertion order and found by key or by position.

use vstd::prelude::*;
use vstd::hash_map::StringHashMap;
use indexmap::IndexMap;
use std::collections::HashMap;
use crate::address::{Origin, Hiccup, HiccupView};
use crate::token::{Token, TokenView, view_seq};

verus! {

#[verifier::external_type_specification]
#[verifier::external_body]
#[verifier::reject_recursive_types(K)]
#[verifier::reject_recursive_types(V)]
#[verifier::reject_recursive_types(S)]
pub struct ExIndexMap<K, V, S>(IndexMap<K, V, S>);

/// A component: a node of the interface.
#[derive(Debug)]
pub struct Component {
    pub(crate) id: usize,
    pub(crate) origin: Origin,
    pub ancestor: Option<usize>,
    pub descendants: Vec<usize>,
    pub components: Vec<usize>,
    pub properties: Vec<usize>,
}

pub struct ComponentView {
    pub id: int,
    pub origin: Origin,
    pub ancestor: Option<usize>,
    pub descendants: Seq<usize>,
    pub components: Seq<usize>,
    pub properties: Seq<usize>,
}

impl Component {
    pub open(crate) spec fn view(&self) -> ComponentView {
        ComponentView {
            id: self.id as int,
            origin: self.origin,
            ancestor: self.ancestor,
            descendants: self.descendants@,
            components: self.components@,
            properties: self.properties@,
        }
    }
}

/// The stored value of a property. A 32-bit float is kept as its IEEE-754 bits.
#[derive(Debug)]
pub enum Value {
    NumberDynamicU8(Option<Vec<u8>>),
    NumberDynamicU16(Option<Vec<u16>>),
    NumberDynamicU32(Option<Vec<u32>>),
    NumberDynamicU64(Option<Vec<u64>>),
    NumberDynamicI8(Option<Vec<i8>>),
    NumberDynamicI16(Option<Vec<i16>>),
    NumberDynamicI32(Option<Vec<i32>>),
    NumberDynamicI64(Option<Vec<i64>>),
    NumberDynamicI128(Option<Vec<i128>>),
    NumberDynamicF32(Option<Vec<u32>>),
    Text(Option<Vec<String>>),
    Option(Option<Vec<usize>>),
    Color(Option<Vec<(u8, u8, u8, u8)>>),
    ComponentReferences(Option<Vec<usize>>),
    ComponentReference(Option<usize>),
    PropertyReferences(Option<Vec<usize>>),
    PropertyReference(Option<usize>),
    Structure(Option<Vec<usize>>),
}

/// The tokens that define a property's value.
#[derive(Debug, PartialEq)]
pub struct Expression {
    pub(crate) metadata: u8,
    pub tokens: Vec<Token>,
}

pub struct ExpressionView {
    pub metadata: u8,
    pub tokens: Seq<TokenView>,
}

impl Expression {
    pub open(crate) spec fn view(&self) -> ExpressionView {
        ExpressionView { metadata: self.metadata, tokens: view_seq(self.tokens@) }
    }

    /// An empty expression.
    pub fn new() -> (r: Expression)
        ensures
            r@ == (ExpressionView { metadata: 0, tokens: Seq::empty() }),
    {
        let r = Expression { metadata: 0, tokens: Vec::new() };
        assert(view_seq(r.tokens@) =~= Seq::<TokenView>::empty());
        r
    }
}

/// A property: a value or expression attached to a component or to the root.
#[derive(Debug)]
pub struct Property {
    pub(crate) id: usize,
    pub(crate) origin: Origin,
    pub(crate) value: Value,
    pub expression: Option<Expression>,
    pub(crate) macros: Option<HashMap<String, String>>,
}

pub struct PropertyView {
    pub id: int,
    pub origin: Origin,
    pub value: Value,
    pub expression: Option<ExpressionView>,
    pub has_macros: bool,
}

impl Property {
    pub open(crate) spec fn view(&self) -> PropertyView {
        PropertyView {
            id: self.id as int,
            origin: self.origin,
            value: self.value,
            expression: match self.expression {
                Some(e) => Some(e@),
                None => None,
            },
            has_macros: self.macros is Some,
        }
    }
}

/// What the component registry holds, in order: each key with its component.
pub uninterp spec fn component_entries(m: IndexMap<String, Component>) -> Seq<(Seq<char>, Component)>;

/// What the property registry holds, in order: each key with its property.
pub uninterp spec fn property_entries(m: IndexMap<String, Property>) -> Seq<(Seq<char>, Property)>;

/// The first position whose key is `k`.
pub open spec fn position_of<V>(es: Seq<(Seq<char>, V)>, k: Seq<char>) -> Option<int>
    decreases es.len(),
{
    if es.len() == 0 {
        None
    } else if es[0].0 == k {
        Some(0)
    } else {
        match position_of(es.drop_first(), k) {
            Some(i) => Some(i + 1),
            None => None,
        }
    }
}

pub proof fn lemma_position_of<V>(es: Seq<(Seq<char>, V)>, k: Seq<char>)
    ensures
        position_of(es, k) matches Some(i) ==> 0 <= i < es.len() && es[i].0 == k
            && forall|j: int| 0 <= j < i ==> es[j].0 != k,
        position_of(es, k) is None ==> forall|j: int| 0 <= j < es.len() ==> es[j].0 != k,
    decreases es.len(),
{
    if es.len() > 0 && es[0].0 != k {
        lemma_position_of(es.drop_first(), k);
        if let Some(i) = position_of(es.drop_first(), k) {
            assert forall|j: int| 0 <= j < i + 1 implies es[j].0 != k by {
                if j > 0 {
                    assert(es[j] == es.drop_first()[j - 1]);
                }
            }
        } else {
            assert forall|j: int| 0 <= j < es.len() implies es[j].0 != k by {
                if j > 0 {
                    assert(es[j] == es.drop_first()[j - 1]);
                }
            }
        }
    }
}

/// Trusted: `IndexMap::new` gives an empty map.
#[verifier::external_body]
pub(crate) fn component_map_new() -> (m: IndexMap<String, Component>)
    ensures
        component_entries(m) == Seq::<(Seq<char>, Component)>::empty(),
{
    IndexMap::new()
}

/// Trusted: `IndexMap::len` counts the entries.
#[verifier::external_body]
pub(crate) fn component_map_len(m: &IndexMap<String, Component>) -> (r: usize)
    ensures
        r == component_entries(*m).len(),
{
    m.len()
}

/// Trusted: `IndexMap::get_index_of` gives the position of the entry whose
/// key equals `key` (keys are unique, so this is the first such position).
#[verifier::external_body]
pub(crate) fn component_map_index_of(m: &IndexMap<String, Component>, key: &str) -> (r: Option<usize>)
    ensures
        r is Some <==> position_of(component_entries(*m), key@) is Some,
        r matches Some(i) ==> i as int == position_of(component_entries(*m), key@)->0,
{
    m.get_index_of(key)
}

/// Trusted: `IndexMap::contains_key` tells whether some entry has the key.
#[verifier::external_body]
pub(crate) fn component_map_contains(m: &IndexMap<String, Component>, key: &str) -> (r: bool)
    ensures
        r == position_of(component_entries(*m), key@) is Some,
{
    m.contains_key(key)
}

/// Trusted: `IndexMap::get_index` gives the entry at a position below the
/// length. The map holds each key once, so no earlier entry has that key.
#[verifier::external_body]
pub(crate) fn component_map_get<'a>(m: &'a IndexMap<String, Component>, i: usize) -> (r: Option<(&'a String, &'a Component)>)
    ensures
        r is Some <==> i < component_entries(*m).len(),
        r matches Some(e) ==> e.0@ == component_entries(*m)[i as int].0 && *e.1 == component_entries(*m)[i as int].1,
        r matches Some(e) ==> position_of(component_entries(*m), e.0@) == Some(i as int),
{
    m.get_index(i)
}

/// Trusted: `IndexMap::get_index_mut` lends the component at a position below
/// the length; whatever is written through it replaces that entry's component.
#[verifier::external_body]
pub(crate) fn component_map_get_mut<'a>(m: &'a mut IndexMap<String, Component>, i: usize) -> (r: Option<(&'a String, &'a mut Component)>)
    ensures
        r is Some <==> i < component_entries(*old(m)).len(),
        r is None ==> component_entries(*final(m)) == component_entries(*old(m)),
        r matches Some(e) ==> e.0@ == component_entries(*old(m))[i as int].0
            && *e.1 == component_entries(*old(m))[i as int].1
            && component_entries(*final(m)) == component_entries(*old(m)).update(
                i as int, (component_entries(*old(m))[i as int].0, *final(e.1))),
{
    m.get_index_mut(i)
}

/// Trusted: `IndexMap::insert` replaces the value of an entry with an equal
/// key, keeping its place, or else appends a new entry last.
#[verifier::external_body]
pub(crate) fn component_map_insert(m: &mut IndexMap<String, Component>, key: String, value: Component)
    ensures
        component_entries(*final(m)) == match position_of(component_entries(*old(m)), key@) {
            Some(i) => component_entries(*old(m)).update(i, (component_entries(*old(m))[i].0, value)),
            None => component_entries(*old(m)).push((key@, value)),
        },
{
    m.insert(key, value);
}

/// Trusted: `IndexMap::new` gives an empty map.
#[verifier::external_body]
pub(crate) fn property_map_new() -> (m: IndexMap<String, Property>)
    ensures
        property_entries(m) == Seq::<(Seq<char>, Property)>::empty(),
{
    IndexMap::new()
}

/// Trusted: `IndexMap::len` counts the entries.
#[verifier::external_body]
pub(crate) fn property_map_len(m: &IndexMap<String, Property>) -> (r: usize)
    ensures
        r == property_entries(*m).len(),
{
    m.len()
}

/// Trusted: `IndexMap::get_index_of` gives the position of the entry whose
/// key equals `key` (keys are unique, so this is the first such position).
#[verifier::external_body]
pub(crate) fn property_map_index_of(m: &IndexMap<String, Property>, key: &str) -> (r: Option<usize>)
    ensures
        r is Some <==> position_of(property_entries(*m), key@) is Some,
        r matches Some(i) ==> i as int == position_of(property_entries(*m), key@)->0,
{
    m.get_index_of(key)
}

/// Trusted: `IndexMap::contains_key` tells whether some entry has the key.
#[verifier::external_body]
pub(crate) fn property_map_contains(m: &IndexMap<String, Property>, key: &str) -> (r: bool)
    ensures
        r == position_of(property_entries(*m), key@) is Some,
{
    m.contains_key(key)
}

/// Trusted: `IndexMap::get_index` gives the entry at a position below the
/// length. The map holds each key once, so no earlier entry has that key.
#[verifier::external_body]
pub(crate) fn property_map_get<'a>(m: &'a IndexMap<String, Property>, i: usize) -> (r: Option<(&'a String, &'a Property)>)
    ensures
        r is Some <==> i < property_entries(*m).len(),
        r matches Some(e) ==> e.0@ == property_entries(*m)[i as int].0 && *e.1 == property_entries(*m)[i as int].1,
        r matches Some(e) ==> position_of(property_entries(*m), e.0@) == Some(i as int),
{
    m.get_index(i)
}

/// Trusted: `IndexMap::insert` replaces the value of an entry with an equal
/// key, keeping its place, or else appends a new entry last.
#[verifier::external_body]
pub(crate) fn property_map_insert(m: &mut IndexMap<String, Property>, key: String, value: Property)
    ensures
        property_entries(*final(m)) == match position_of(property_entries(*old(m)), key@) {
            Some(i) => property_entries(*old(m)).update(i, (property_entries(*old(m))[i].0, value)),
            None => property_entries(*old(m)).push((key@, value)),
        },
{
    m.insert(key, value);
}

/// The registry of a UIS program.
pub struct Uis {
    pub(crate) components: IndexMap<String, Component>,
    pub(crate) instances: StringHashMap<usize>,
    pub(crate) properties: IndexMap<String, Property>,
    pub(crate) expression_order: Vec<usize>,
    pub(crate) hiccups: Vec<Hiccup>,
}

/// The mathematical value of a registry.
#[verifier::ext_equal]
pub struct UisView {
    pub components: Seq<(Seq<char>, ComponentView)>,
    pub instances: Map<Seq<char>, usize>,
    pub properties: Seq<(Seq<char>, PropertyView)>,
    pub expression_order: Seq<usize>,
    pub hiccups: Seq<HiccupView>,
}

pub open spec fn component_views(es: Seq<(Seq<char>, Component)>) -> Seq<(Seq<char>, ComponentView)> {
    es.map_values(|e: (Seq<char>, Component)| (e.0, e.1@))
}

pub open spec fn property_views(es: Seq<(Seq<char>, Property)>) -> Seq<(Seq<char>, PropertyView)> {
    es.map_values(|e: (Seq<char>, Property)| (e.0, e.1@))
}

pub open spec fn hiccup_views(hs: Seq<Hiccup>) -> Seq<HiccupView> {
    hs.map_values(|h: Hiccup| h@)
}

/// The registry with nothing in it.
pub open spec fn empty_registry() -> UisView {
    UisView {
        components: Seq::empty(),
        instances: Map::empty(),
        properties: Seq::empty(),
        expression_order: Seq::empty(),
        hiccups: Seq::empty(),
    }
}

/// The registry with one more hiccup recorded.
pub open spec fn with_hiccup(u: UisView, h: HiccupView) -> UisView {
    UisView { hiccups: u.hiccups.push(h), ..u }
}

impl Uis {
    /// Records a hiccup.
    pub(crate) fn push_hiccup(&mut self, h: Hiccup)
        ensures
            final(self)@ == with_hiccup(old(self)@, h@),
    {
        let ghost before = self.hiccups@;
        self.hiccups.push(h);
        assert(hiccup_views(self.hiccups@) =~= hiccup_views(before).push(h@));
    }

    pub open(crate) spec fn view(&self) -> UisView {
        UisView {
            components: component_views(component_entries(self.components)),
            instances: self.instances@,
            properties: property_views(property_entries(self.properties)),
            expression_order: self.expression_order@,
            hiccups: hiccup_views(self.hiccups@),
        }
    }

    /// An empty registry.
    pub fn new() -> (r: Uis)
        ensures
            r@ == empty_registry(),
    {
        let r = Uis {
            components: component_map_new(),
            instances: StringHashMap::new(),
            properties: property_map_new(),
            expression_order: Vec::new(),
            hiccups: Vec::new(),
        };
        assert(component_views(component_entries(r.components)) =~= Seq::empty());
        assert(property_views(property_entries(r.properties)) =~= Seq::empty());
        assert(hiccup_views(r.hiccups@) =~= Seq::empty());
        r
    }
}

impl Uis {
    /// The hiccups recorded so far, oldest first.
    pub fn hiccups(&self) -> (r: &Vec<Hiccup>)
        ensures
            hiccup_views(r@) == self@.hiccups,
    {
        &self.hiccups
    }

    /// The number of components.
    pub fn component_count(&self) -> (r: usize)
        ensures
            r == self@.components.len(),
    {
        component_map_len(&self.components)
    }

    /// The key and component at a position.
    pub fn component_at(&self, i: usize) -> (r: Option<(&String, &Component)>)
        ensures
            r is Some <==> i < self@.components.len(),
            r matches Some(e) ==> e.0@ == self@.components[i as int].0 && e.1@ == self@.components[i as int].1,
    {
        component_map_get(&self.components, i)
    }

    /// The number of properties.
    pub fn property_count(&self) -> (r: usize)
        ensures
            r == self@.properties.len(),
    {
        property_map_len(&self.properties)
    }

    /// The key and property at a position.
    pub fn property_at(&self, i: usize) -> (r: Option<(&String, &Property)>)
        ensures
            r is Some <==> i < self@.properties.len(),
            r matches Some(e) ==> e.0@ == self@.properties[i as int].0 && e.1@ == self@.properties[i as int].1,
    {
        property_map_get(&self.properties, i)
    }
}

impl Component {
    /// The component's position in the registry.
    pub fn id(&self) -> (r: usize)
        ensures
            r as int == self@.id,
    {
        self.id
    }

    /// Where the component is attached.
    pub fn origin(&self) -> (r: Origin)
        ensures
            r == self@.origin,
    {
        self.origin
    }
}

impl Property {
    /// The property's position in the registry.
    pub fn id(&self) -> (r: usize)
        ensures
            r as int == self@.id,
    {
        self.id
    }

    /// Where the property is attached.
    pub fn origin(&self) -> (r: Origin)
        ensures
            r == self@.origin,
    {
        self.origin
    }

    /// The property's stored value.
    pub fn value(&self) -> (r: &Value)
        ensures
            *r == self@.value,
    {
        &self.value
    }
}

} // verus!
