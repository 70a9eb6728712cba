//! Creating components and properties in the registry.

use vstd::prelude::*;
use vstd::string::*;
use crate::text::{debug_text, debug_str};
use crate::address::{AddressKey, AddressView, AddressID, Origin, Line, Hiccup, HiccupView};
use crate::registry::{lemma_position_of, Uis, UisView, Component, ComponentView, Property, PropertyView, Value, Expression, ExpressionView,
    with_hiccup, position_of, component_views, property_views, component_entries, property_entries,
    component_map_len, component_map_get_mut, component_map_contains, component_map_insert,
    property_map_len, property_map_contains, property_map_insert};
use crate::lookup::{add_view, add_overflows, origin_of, origin_view, origin_overflows, lemma_component_positions,
    lemma_property_positions};

verus! {

/// What `{:?}` writes for an address.
pub open spec fn debug_address(a: AddressView) -> Seq<char> {
    match a {
        AddressView::Component(s) => "Component("@ + debug_text(s) + ")"@,
        AddressView::Property(s) => "Property("@ + debug_text(s) + ")"@,
        AddressView::Root => "Root"@,
        AddressView::Invalid => "Invalid"@,
    }
}

/// What `{:#?}` writes for an address.
pub open spec fn pretty_address(a: AddressView) -> Seq<char> {
    match a {
        AddressView::Component(s) => "Component(\n    "@ + debug_text(s) + ",\n)"@,
        AddressView::Property(s) => "Property(\n    "@ + debug_text(s) + ",\n)"@,
        AddressView::Root => "Root"@,
        AddressView::Invalid => "Invalid"@,
    }
}

pub open spec fn omit_creation_text() -> Seq<char> {
    "Will therefore ommit the creation of this component"@
}

pub open spec fn omit_recreation_text() -> Seq<char> {
    "Will therefore ommit the recreation of this component"@
}

pub open spec fn already_exists_text(a: AddressView) -> Seq<char> {
    pretty_address(a) + " already exists"@
}

pub open spec fn lowercase_note(a: AddressView) -> Seq<char> {
    if a is Property { " due to the last segment of the address not starting in uppercase"@ } else { ""@ }
}

pub open spec fn bad_component_name_text(name: Seq<char>, a: AddressView) -> Seq<char> {
    "'"@ + name + "' is not a valid name for components, as it returns "@ + debug_address(a) + " "@ + lowercase_note(a)
}

pub open spec fn bad_property_name_text(name: Seq<char>, a: AddressView) -> Seq<char> {
    "'"@ + name + "' is not a valid name for property, as it returns "@ + debug_address(a) + " "@ + lowercase_note(a)
}

pub open spec fn missing_place_text(name: Seq<char>, place: Seq<char>) -> Seq<char> {
    "Can't Add Component '"@ + name + "' to '"@ + place + "' since set address does not exist"@
}

pub open spec fn component_in_property_text(name: Seq<char>) -> Seq<char> {
    "Can't Add Component '"@ + name + "' inside of Properties"@
}

pub open spec fn component_in_invalid_text() -> Seq<char> {
    "Can't Add Component to an invalid Address"@
}

pub open spec fn property_in_invalid_text() -> Seq<char> {
    "Can't Add Property to an invalid Address"@
}

pub open spec fn error(cause: Seq<char>, effect: Seq<char>) -> HiccupView {
    HiccupView::Error(Line::Unknown, cause, effect)
}

/// The registry with `id` recorded as a descendant of the component at `i`.
pub open spec fn with_descendant(u: UisView, i: int, id: int) -> UisView {
    UisView {
        components: u.components.update(i, (u.components[i].0,
            ComponentView { descendants: u.components[i].1.descendants.push(id as usize), ..u.components[i].1 })),
        ..u
    }
}

/// The registry with `id` recorded as a child component of the component at `i`.
pub open spec fn with_child(u: UisView, i: int, id: int) -> UisView {
    UisView {
        components: u.components.update(i, (u.components[i].0,
            ComponentView { components: u.components[i].1.components.push(id as usize), ..u.components[i].1 })),
        ..u
    }
}

/// The name of a new component: the given one, or else the key of the
/// component it derives from (which records the new component as a
/// descendant). `None` when there is neither.
pub open spec fn name_step(u: UisView, name: Option<Seq<char>>, ancestor: Option<AddressID>)
    -> Option<(UisView, Seq<char>, Option<usize>)>
{
    match name {
        Some(n) => Some((u, n, None)),
        None => match ancestor {
            Some(AddressID::Component(a)) => if a < u.components.len() {
                Some((with_descendant(u, a as int, u.components.len() as int), u.components[a as int].0, Some(a)))
            } else {
                None
            },
            _ => None,
        },
    }
}

/// The registry after a new component has its key: refused when the key is
/// not a component key or is taken, registered last otherwise.
pub open spec fn register_component(u: UisView, added: AddressView, name: Seq<char>, origin: Origin,
    ancestor: Option<usize>, id: int) -> (UisView, AddressView)
{
    match added {
        AddressView::Component(k) => if position_of(u.components, k) is Some {
            (with_hiccup(u, error(already_exists_text(added), omit_recreation_text())), AddressView::Invalid)
        } else {
            (UisView {
                components: u.components.push((k, ComponentView {
                    id,
                    origin,
                    ancestor,
                    descendants: Seq::empty(),
                    components: Seq::empty(),
                    properties: Seq::empty(),
                })),
                ..u
            }, added)
        },
        _ => (with_hiccup(u, error(bad_component_name_text(name, added), omit_creation_text())), AddressView::Invalid),
    }
}

/// Creating a component named `name` (or named after `ancestor`) under `a`.
/// A component under a component is recorded as that component's child.
pub open spec fn build_view(u: UisView, a: AddressView, name: Option<Seq<char>>, ancestor: Option<AddressID>)
    -> (UisView, AddressView)
{
    let id = u.components.len() as int;
    match name_step(u, name, ancestor) {
        None => (u, AddressView::Invalid),
        Some(step) => {
            let u1 = step.0;
            let n = step.1;
            match a {
                AddressView::Root => {
                    let added = add_view(a, n, u1);
                    register_component(added.0, added.1, n, Origin::Root, step.2, id)
                },
                AddressView::Component(place) => {
                    let o = origin_of(a, u1);
                    match o {
                        Origin::Component(oi) => {
                            let added = add_view(a, n, with_child(u1, oi as int, id));
                            register_component(added.0, added.1, n, o, step.2, id)
                        },
                        Origin::Root => {
                            let added = add_view(a, n, u1);
                            register_component(added.0, added.1, n, o, step.2, id)
                        },
                        Origin::Invalid => (with_hiccup(u1, error(missing_place_text(n, place), omit_creation_text())),
                            AddressView::Invalid),
                    }
                },
                AddressView::Property(_) => (with_hiccup(u1, error(component_in_property_text(n), omit_creation_text())),
                    AddressView::Invalid),
                AddressView::Invalid => (with_hiccup(u1, error(component_in_invalid_text(), omit_creation_text())),
                    AddressView::Invalid),
            }
        },
    }
}

/// Whether creating the component would count an instance past the largest number.
pub open spec fn build_overflows(u: UisView, a: AddressView, name: Option<Seq<char>>, ancestor: Option<AddressID>) -> bool {
    match name_step(u, name, ancestor) {
        Some(step) => add_overflows(a, step.1, u),
        None => false,
    }
}

pub open spec fn name_view(name: Option<&str>) -> Option<Seq<char>> {
    match name {
        Some(n) => Some(n@),
        None => None,
    }
}

/// The properties' registry after a new property has its key: refused when
/// the key is not a property key or is taken, registered last otherwise.
pub open spec fn register_property(u: UisView, added: AddressView, name: Seq<char>, origin: Origin,
    value: Value, expression: Option<ExpressionView>) -> (UisView, AddressView)
{
    match added {
        AddressView::Property(k) => if position_of(u.properties, k) is Some {
            (with_hiccup(u, error(already_exists_text(added), omit_recreation_text())), AddressView::Invalid)
        } else {
            (UisView {
                properties: u.properties.push((k, PropertyView {
                    id: u.properties.len() as int,
                    origin,
                    value,
                    expression,
                    has_macros: false,
                })),
                ..u
            }, added)
        },
        _ => (with_hiccup(u, error(bad_property_name_text(name, added), omit_creation_text())), AddressView::Invalid),
    }
}

/// Creating a property named `name` under `a`, with its origin found from `a`.
pub open spec fn property_view(u: UisView, a: AddressView, name: Seq<char>, value: Value,
    expression: Option<ExpressionView>) -> (UisView, AddressView)
{
    match a {
        AddressView::Invalid => (with_hiccup(u, error(property_in_invalid_text(), omit_creation_text())), AddressView::Invalid),
        AddressView::Property(_) => {
            let o = origin_view(a, u);
            let added = add_view(a, name, o.0);
            register_property(added.0, added.1, name, o.1, value, expression)
        },
        _ => {
            let added = add_view(a, name, u);
            register_property(added.0, added.1, name, origin_of(a, u), value, expression)
        },
    }
}

pub open spec fn expression_view(e: Option<Expression>) -> Option<ExpressionView> {
    match e {
        Some(x) => Some(x@),
        None => None,
    }
}

fn debug_address_exec(a: &AddressKey) -> (r: String)
    ensures
        r@ == debug_address(a@),
{
    match a {
        AddressKey::Component(s) => {
            let mut r = String::from_str("Component(");
            r.append(debug_str(s.as_str()).as_str());
            r.append(")");
            r
        },
        AddressKey::Property(s) => {
            let mut r = String::from_str("Property(");
            r.append(debug_str(s.as_str()).as_str());
            r.append(")");
            r
        },
        AddressKey::Root => String::from_str("Root"),
        AddressKey::Invalid => String::from_str("Invalid"),
    }
}

fn pretty_address_exec(a: &AddressKey) -> (r: String)
    ensures
        r@ == pretty_address(a@),
{
    match a {
        AddressKey::Component(s) => {
            let mut r = String::from_str("Component(\n    ");
            r.append(debug_str(s.as_str()).as_str());
            r.append(",\n)");
            r
        },
        AddressKey::Property(s) => {
            let mut r = String::from_str("Property(\n    ");
            r.append(debug_str(s.as_str()).as_str());
            r.append(",\n)");
            r
        },
        AddressKey::Root => String::from_str("Root"),
        AddressKey::Invalid => String::from_str("Invalid"),
    }
}

fn bad_name_text_exec(name: &str, a: &AddressKey, component: bool) -> (r: String)
    ensures
        r@ == if component { bad_component_name_text(name@, a@) } else { bad_property_name_text(name@, a@) },
{
    let mut r = String::from_str("'");
    r.append(name);
    if component {
        r.append("' is not a valid name for components, as it returns ");
    } else {
        r.append("' is not a valid name for property, as it returns ");
    }
    r.append(debug_address_exec(a).as_str());
    r.append(" ");
    if a.is_property() {
        r.append(" due to the last segment of the address not starting in uppercase");
    } else {
        r.append("");
    }
    r
}

fn error_exec(cause: String, effect: &str) -> (h: Hiccup)
    ensures
        h@ == error(cause@, effect@),
{
    Hiccup::Error(Line::Unknown, cause, String::from_str(effect))
}

fn copy_id(a: &AddressID) -> (r: AddressID)
    ensures
        r == *a,
{
    match a {
        AddressID::Component(i) => AddressID::Component(*i),
        AddressID::Property(i) => AddressID::Property(*i),
        AddressID::Root => AddressID::Root,
        AddressID::Invalid => AddressID::Invalid,
    }
}

proof fn lemma_component_views_update(es: Seq<(Seq<char>, Component)>, i: int, k: Seq<char>, c: Component)
    requires
        0 <= i < es.len(),
    ensures
        component_views(es.update(i, (k, c))) == component_views(es).update(i, (k, c@)),
{
    assert(component_views(es.update(i, (k, c))) =~= component_views(es).update(i, (k, c@)));
}

proof fn lemma_component_views_push(es: Seq<(Seq<char>, Component)>, k: Seq<char>, c: Component)
    ensures
        component_views(es.push((k, c))) == component_views(es).push((k, c@)),
{
    assert(component_views(es.push((k, c))) =~= component_views(es).push((k, c@)));
}

proof fn lemma_property_views_push(es: Seq<(Seq<char>, Property)>, k: Seq<char>, p: Property)
    ensures
        property_views(es.push((k, p))) == property_views(es).push((k, p@)),
{
    assert(property_views(es.push((k, p))) =~= property_views(es).push((k, p@)));
}

/// Changing the components' contents, not their keys, changes no lookup.
proof fn lemma_same_keys_same_overflow(u: UisView, v: UisView, a: AddressView, n: Seq<char>)
    requires
        u.components.len() == v.components.len(),
        forall|i: int| 0 <= i < u.components.len() ==> (#[trigger] u.components[i]).0 == v.components[i].0,
        u.instances == v.instances,
    ensures
        add_overflows(a, n, u) == add_overflows(a, n, v),
{
    match crate::lookup::join_view(a, n) {
        AddressView::Component(k) => {
            crate::lookup::lemma_position_of_same_keys(u.components, v.components, k);
        },
        _ => {},
    }
}

impl Component {
    /// Creates a component named `name` under `address`.
    pub fn new(uis: &mut Uis, address: &AddressKey, name: &str) -> (r: AddressKey)
        requires
            !build_overflows(old(uis)@, address@, Some(name@), None),
        ensures
            (final(uis)@, r@) == build_view(old(uis)@, address@, Some(name@), None),
    {
        Component::build(uis, address, Some(name), None)
    }

    /// Creates a component under `address` named after the component at
    /// `ancestor`, and records it as that component's descendant.
    pub fn derived(uis: &mut Uis, address: &AddressKey, ancestor: &AddressID) -> (r: AddressKey)
        requires
            !build_overflows(old(uis)@, address@, None, Some(*ancestor)),
        ensures
            (final(uis)@, r@) == build_view(old(uis)@, address@, None, Some(*ancestor)),
    {
        Component::build(uis, address, None, Some(copy_id(ancestor)))
    }

    /// Creates a component named `name` under `address`; a given name takes
    /// precedence over the ancestor.
    pub fn new_derived(uis: &mut Uis, address: &AddressKey, name: &str, ancestor: &AddressID) -> (r: AddressKey)
        requires
            !build_overflows(old(uis)@, address@, Some(name@), Some(*ancestor)),
        ensures
            (final(uis)@, r@) == build_view(old(uis)@, address@, Some(name@), Some(*ancestor)),
    {
        Component::build(uis, address, Some(name), Some(copy_id(ancestor)))
    }

    fn build(uis: &mut Uis, address: &AddressKey, name: Option<&str>, ancestor: Option<AddressID>) -> (r: AddressKey)
        requires
            !build_overflows(old(uis)@, address@, name_view(name), ancestor),
        ensures
            (final(uis)@, r@) == build_view(old(uis)@, address@, name_view(name), ancestor),
    {
        let ghost u0 = uis@;
        proof { lemma_component_positions(uis, Seq::empty()); }
        let id = component_map_len(&uis.components);
        let mut ancestor_id: Option<usize> = None;
        let component_name: String = match name {
            Some(n) => String::from_str(n),
            None => match ancestor {
                Some(a) => match a.to_component_id() {
                    Ok(a_id) => {
                        let ghost before = component_entries(uis.components);
                        match component_map_get_mut(&mut uis.components, a_id) {
                            Some((key, comp)) => {
                                let ghost c0 = *comp;
                                comp.descendants.push(id);
                                ancestor_id = Some(a_id);
                                let n = key.clone();
                                proof {
                                    lemma_component_views_update(before, a_id as int, before[a_id as int].0, *comp);
                                }
                                n
                            },
                            None => {
                                return AddressKey::Invalid;
                            },
                        }
                    },
                    Err(_) => {
                        return AddressKey::Invalid;
                    },
                },
                None => {
                    return AddressKey::Invalid;
                },
            },
        };
        assert(name_step(u0, name_view(name), ancestor) is Some);
        assert(uis@ =~= (name_step(u0, name_view(name), ancestor)->0).0);
        let ghost u1 = uis@;
        proof {
            lemma_component_positions(uis, Seq::empty());
            lemma_same_keys_same_overflow(u0, u1, address@, component_name@);
        }
        let origin: Origin;
        let new_address: AddressKey;
        match address {
            AddressKey::Root => {
                origin = Origin::Root;
                new_address = address.add(uis, component_name.as_str());
            },
            AddressKey::Component(_) => {
                let o = address.to_origin(uis);
                match o {
                    Origin::Component(oi) => {
                        proof {
                            crate::registry::lemma_position_of(u1.components, address@->Component_0);
                            lemma_component_positions(uis, Seq::empty());
                        }
                        let ghost before = component_entries(uis.components);
                        match component_map_get_mut(&mut uis.components, oi) {
                            Some((_, oc)) => {
                                oc.components.push(id);
                                proof {
                                    lemma_component_views_update(before, oi as int, before[oi as int].0, *oc);
                                }
                            },
                            None => {
                                return AddressKey::Invalid;
                            },
                        }
                        assert(uis@ =~= with_child(u1, oi as int, id as int));
                        proof {
                            lemma_component_positions(uis, Seq::empty());
                            lemma_same_keys_same_overflow(u1, uis@, address@, component_name@);
                        }
                        origin = o;
                        new_address = address.add(uis, component_name.as_str());
                    },
                    Origin::Root => {
                        origin = o;
                        new_address = address.add(uis, component_name.as_str());
                    },
                    Origin::Invalid => {
                        let mut cause = String::from_str("Can't Add Component '");
                        cause.append(component_name.as_str());
                        cause.append("' to '");
                        cause.append(address.to_string().as_str());
                        cause.append("' since set address does not exist");
                        uis.push_hiccup(error_exec(cause, "Will therefore ommit the creation of this component"));
                        return AddressKey::Invalid;
                    },
                }
            },
            AddressKey::Property(_) => {
                let mut cause = String::from_str("Can't Add Component '");
                cause.append(component_name.as_str());
                cause.append("' inside of Properties");
                uis.push_hiccup(error_exec(cause, "Will therefore ommit the creation of this component"));
                return AddressKey::Invalid;
            },
            AddressKey::Invalid => {
                uis.push_hiccup(error_exec(String::from_str("Can't Add Component to an invalid Address"),
                    "Will therefore ommit the creation of this component"));
                return AddressKey::Invalid;
            },
        }
        match &new_address {
            AddressKey::Component(k) => {
                proof { lemma_component_positions(uis, k@); }
                if component_map_contains(&uis.components, k.as_str()) {
                    let mut cause = pretty_address_exec(&new_address);
                    cause.append(" already exists");
                    uis.push_hiccup(error_exec(cause, "Will therefore ommit the recreation of this component"));
                    return AddressKey::Invalid;
                }
                let c = Component {
                    id: id,
                    origin,
                    ancestor: ancestor_id,
                    descendants: Vec::new(),
                    components: Vec::new(),
                    properties: Vec::new(),
                };
                let ghost before = component_entries(uis.components);
                component_map_insert(&mut uis.components, k.clone(), c);
                proof { lemma_component_views_push(before, k@, c); }
                assert(c@.descendants =~= Seq::<usize>::empty());
                assert(c@.components =~= Seq::<usize>::empty());
                assert(c@.properties =~= Seq::<usize>::empty());
            },
            _ => {
                let cause = bad_name_text_exec(component_name.as_str(), &new_address, true);
                uis.push_hiccup(error_exec(cause, "Will therefore ommit the creation of this component"));
                return AddressKey::Invalid;
            },
        }
        new_address
    }
}

impl Property {
    /// Creates a property named `name` under `address`, holding `value` and
    /// `expression`.
    pub fn new(uis: &mut Uis, address: &AddressKey, name: &str, value: Value, expression: Option<Expression>) -> (r: AddressKey)
        requires
            !add_overflows(address@, name@, old(uis)@),
            address@ is Property ==> !origin_overflows(address@, old(uis)@),
        ensures
            (final(uis)@, r@) == property_view(old(uis)@, address@, name@, value, expression_view(expression)),
    {
        let ghost u0 = uis@;
        let origin: Origin;
        let new_address: AddressKey;
        match address {
            AddressKey::Root => {
                origin = Origin::Root;
                new_address = address.add(uis, name);
            },
            AddressKey::Component(_) => {
                origin = address.to_origin(uis);
                new_address = address.add(uis, name);
            },
            AddressKey::Property(_) => {
                origin = address.get_origin(uis);
                assert(add_overflows(address@, name@, uis@) == add_overflows(address@, name@, u0));
                new_address = address.add(uis, name);
            },
            AddressKey::Invalid => {
                uis.push_hiccup(error_exec(String::from_str("Can't Add Property to an invalid Address"),
                    "Will therefore ommit the creation of this component"));
                return AddressKey::Invalid;
            },
        }
        match &new_address {
            AddressKey::Property(k) => {
                proof { lemma_property_positions(uis, k@); }
                if property_map_contains(&uis.properties, k.as_str()) {
                    let mut cause = pretty_address_exec(&new_address);
                    cause.append(" already exists");
                    uis.push_hiccup(error_exec(cause, "Will therefore ommit the recreation of this component"));
                    return AddressKey::Invalid;
                }
                let p = Property {
                    id: property_map_len(&uis.properties),
                    origin: origin,
                    value,
                    expression,
                    macros: None,
                };
                let ghost before = property_entries(uis.properties);
                property_map_insert(&mut uis.properties, k.clone(), p);
                proof { lemma_property_views_push(before, k@, p); }
            },
            _ => {
                let cause = bad_name_text_exec(name, &new_address, false);
                uis.push_hiccup(error_exec(cause, "Will therefore ommit the creation of this component"));
                return AddressKey::Invalid;
            },
        }
        new_address
    }

    fn set_expression(self, expression: Expression) {
        let mut property = self;
        property.expression = Some(expression);
    }

    fn set_value(value: Value) {
    }
}

} // verus!
