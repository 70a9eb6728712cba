//! Properties that hold of the library as a whole.

use vstd::prelude::*;
use crate::text::{is_upper, is_alnum};
use crate::address::{AddressView, AddressID, Origin, address_of_text, key_initial, key_text, back_scan, back_view,
    segment_start};
use crate::token::TokenView;
use crate::registry::{UisView, position_of, lemma_position_of, empty_registry, with_hiccup};
use crate::lookup::{address_id_of, address_key_of, registered_in, forward_view, join_view, add_view, origin_view,
    origin_of, origin_of_text};
use crate::creation::{build_view, build_overflows, property_view, name_step, register_component, register_property, with_descendant,
    with_child};
use crate::parser::{parse, concluded, ParseView, text_expression};
use crate::lexer::{sanitize, crlf_to_lf, cr_to_lf, lex_text, lexable};
use crate::units::Unit;

verus! {

/// No two entries share a key.
pub open spec fn keys_unique<V>(es: Seq<(Seq<char>, V)>) -> bool {
    forall|i: int, j: int| 0 <= i < j < es.len() ==> es[i].0 != es[j].0
}

/// A registry is well formed when keys are unique and every component and
/// property records its own position as its id.
pub open spec fn registry_wf(u: UisView) -> bool {
    &&& keys_unique(u.components)
    &&& keys_unique(u.properties)
    &&& forall|i: int| 0 <= i < u.components.len() ==> (#[trigger] u.components[i]).1.id == i
    &&& forall|i: int| 0 <= i < u.properties.len() ==> (#[trigger] u.properties[i]).1.id == i
}

/// The empty registry is well formed.
pub proof fn empty_registry_is_wf()
    ensures
        registry_wf(empty_registry()),
{
}

proof fn lemma_push_unique<V>(es: Seq<(Seq<char>, V)>, k: Seq<char>, v: V)
    requires
        keys_unique(es),
        position_of(es, k) is None,
    ensures
        keys_unique(es.push((k, v))),
{
    lemma_position_of(es, k);
    let e2 = es.push((k, v));
    assert forall|i: int, j: int| 0 <= i < j < e2.len() implies e2[i].0 != e2[j].0 by {
        if j == es.len() {
            assert(e2[i] == es[i]);
        } else {
            assert(e2[i] == es[i] && e2[j] == es[j]);
        }
    }
}

/// Recording a hiccup keeps a registry well formed.
pub proof fn hiccup_keeps_wf(u: UisView, h: crate::address::HiccupView)
    requires
        registry_wf(u),
    ensures
        registry_wf(with_hiccup(u, h)),
{
}

/// Placing an address (`add`) keeps a registry well formed.
pub proof fn add_keeps_wf(a: AddressView, n: Seq<char>, u: UisView)
    requires
        registry_wf(u),
    ensures
        registry_wf(add_view(a, n, u).0),
{
}

/// Finding an origin keeps a registry well formed.
pub proof fn origin_keeps_wf(a: AddressView, u: UisView)
    requires
        registry_wf(u),
    ensures
        registry_wf(origin_view(a, u).0),
{
}

proof fn lemma_update_keys(u: UisView, i: int, id: int)
    requires
        0 <= i < u.components.len(),
    ensures
        with_descendant(u, i, id).components.len() == u.components.len(),
        with_child(u, i, id).components.len() == u.components.len(),
        forall|j: int| 0 <= j < u.components.len() ==> (#[trigger] with_descendant(u, i, id).components[j]).0 == u.components[j].0,
        forall|j: int| 0 <= j < u.components.len() ==> (#[trigger] with_child(u, i, id).components[j]).0 == u.components[j].0,
        forall|k: Seq<char>| position_of(#[trigger] with_descendant(u, i, id).components, k) == position_of(u.components, k),
        forall|k: Seq<char>| position_of(#[trigger] with_child(u, i, id).components, k) == position_of(u.components, k),
{
    assert forall|k: Seq<char>| position_of(#[trigger] with_descendant(u, i, id).components, k) == position_of(u.components, k) by {
        crate::lookup::lemma_position_of_same_keys(with_descendant(u, i, id).components, u.components, k);
    }
    assert forall|k: Seq<char>| position_of(#[trigger] with_child(u, i, id).components, k) == position_of(u.components, k) by {
        crate::lookup::lemma_position_of_same_keys(with_child(u, i, id).components, u.components, k);
    }
}

proof fn lemma_update_value_wf(u: UisView, i: int, id: int)
    requires
        registry_wf(u),
        0 <= i < u.components.len(),
    ensures
        registry_wf(with_descendant(u, i, id)),
        registry_wf(with_child(u, i, id)),
        with_descendant(u, i, id).components.len() == u.components.len(),
        with_child(u, i, id).components.len() == u.components.len(),
        forall|j: int| 0 <= j < u.components.len() ==> (#[trigger] with_descendant(u, i, id).components[j]).0 == u.components[j].0,
        forall|j: int| 0 <= j < u.components.len() ==> (#[trigger] with_child(u, i, id).components[j]).0 == u.components[j].0,
{
    let d = with_descendant(u, i, id);
    let c = with_child(u, i, id);
    assert forall|a: int, b: int| 0 <= a < b < d.components.len() implies d.components[a].0 != d.components[b].0 by {
        assert(d.components[a].0 == u.components[a].0);
        assert(d.components[b].0 == u.components[b].0);
    }
    assert forall|a: int, b: int| 0 <= a < b < c.components.len() implies c.components[a].0 != c.components[b].0 by {
        assert(c.components[a].0 == u.components[a].0);
        assert(c.components[b].0 == u.components[b].0);
    }
}

proof fn lemma_register_component_wf(u: UisView, added: AddressView, name: Seq<char>, origin: Origin,
    ancestor: Option<usize>, id: int)
    requires
        registry_wf(u),
        id == u.components.len(),
    ensures
        registry_wf(register_component(u, added, name, origin, ancestor, id).0),
{
    match added {
        AddressView::Component(k) => {
            if position_of(u.components, k) is None {
                let r = register_component(u, added, name, origin, ancestor, id).0;
                lemma_push_unique(u.components, k, r.components.last().1);
            }
        },
        _ => {},
    }
}

proof fn lemma_register_property_wf(u: UisView, added: AddressView, name: Seq<char>, origin: Origin,
    value: crate::registry::Value, e: Option<crate::registry::ExpressionView>)
    requires
        registry_wf(u),
    ensures
        registry_wf(register_property(u, added, name, origin, value, e).0),
{
    match added {
        AddressView::Property(k) => {
            if position_of(u.properties, k) is None {
                let r = register_property(u, added, name, origin, value, e).0;
                lemma_push_unique(u.properties, k, r.properties.last().1);
            }
        },
        _ => {},
    }
}

/// Creating a component keeps a registry well formed.
pub proof fn build_keeps_wf(u: UisView, a: AddressView, name: Option<Seq<char>>, ancestor: Option<AddressID>)
    requires
        registry_wf(u),
    ensures
        registry_wf(build_view(u, a, name, ancestor).0),
{
    let id = u.components.len() as int;
    match name_step(u, name, ancestor) {
        None => {},
        Some(step) => {
            let u1 = step.0;
            if name is None {
                let ai = ancestor->0->Component_0 as int;
                lemma_update_value_wf(u, ai, id);
            }
            assert(registry_wf(u1) && u1.components.len() == u.components.len());
            match a {
                AddressView::Root => {
                    let added = add_view(a, step.1, u1);
                    lemma_register_component_wf(added.0, added.1, step.1, Origin::Root, step.2, id);
                },
                AddressView::Component(place) => {
                    match origin_of(a, u1) {
                        Origin::Component(oi) => {
                            lemma_position_of(u1.components, place);
                            lemma_update_value_wf(u1, oi as int, id);
                            let added = add_view(a, step.1, with_child(u1, oi as int, id));
                            lemma_register_component_wf(added.0, added.1, step.1, origin_of(a, u1), step.2, id);
                        },
                        Origin::Root => {
                            let added = add_view(a, step.1, u1);
                            lemma_register_component_wf(added.0, added.1, step.1, Origin::Root, step.2, id);
                        },
                        Origin::Invalid => {},
                    }
                },
                _ => {},
            }
        },
    }
}

/// Creating a property keeps a registry well formed.
pub proof fn property_keeps_wf(u: UisView, a: AddressView, name: Seq<char>, value: crate::registry::Value,
    e: Option<crate::registry::ExpressionView>)
    requires
        registry_wf(u),
    ensures
        registry_wf(property_view(u, a, name, value, e).0),
{
    match a {
        AddressView::Invalid => {},
        AddressView::Property(_) => {
            let o = origin_view(a, u);
            let added = add_view(a, name, o.0);
            lemma_register_property_wf(added.0, added.1, name, o.1, value, e);
        },
        _ => {
            let added = add_view(a, name, u);
            lemma_register_property_wf(added.0, added.1, name, origin_of(a, u), value, e);
        },
    }
}

/// A created component is registered last, under the returned key, with its
/// position as its id; a refused one adds no component.
pub proof fn build_registers_last(u: UisView, a: AddressView, name: Option<Seq<char>>, ancestor: Option<AddressID>)
    ensures
        ({
            let (u2, r) = build_view(u, a, name, ancestor);
            match r {
                AddressView::Component(k) => u2.components.len() == u.components.len() + 1
                    && u2.components.last().0 == k
                    && u2.components.last().1.id == u.components.len()
                    && position_of(u.components, k) is None,
                _ => u2.components.len() == u.components.len() && r is Invalid,
            }
        }),
{
    let id = u.components.len() as int;
    match name_step(u, name, ancestor) {
        None => {},
        Some(step) => {
            let u1 = step.0;
            if name is None {
                lemma_update_keys(u, ancestor->0->Component_0 as int, id);
            }
            assert(u1.components.len() == u.components.len());
            assert(forall|k: Seq<char>| position_of(u1.components, k) == position_of(u.components, k));
            match a {
                AddressView::Component(place) => {
                    match origin_of(a, u1) {
                        Origin::Component(oi) => {
                            lemma_position_of(u1.components, place);
                            lemma_update_keys(u1, oi as int, id);
                        },
                        _ => {},
                    }
                },
                _ => {},
            }
        },
    }
}

/// Parsing keeps a registry well formed.
pub proof fn parse_keeps_wf(ts: Seq<TokenView>, p: int, st: ParseView, u: UisView)
    requires
        registry_wf(u),
    ensures
        registry_wf(parse(ts, p, st, u).0),
    decreases ts.len() - p,
{
    if p < 0 || p >= ts.len() {
    } else {
        let p1 = p + 1;
        let has1 = p1 < ts.len();
        let has2 = p1 + 1 < ts.len();
        let la = crate::parser::latest(st);
        let q = if has1 { p1 + 1 } else { p1 };
        crate::parser::lemma_skip_end(ts, p1, st.indent);
        crate::parser::lemma_skip_end(ts, q, st.indent);
        match ts[p] {
            TokenView::NewLineIndent(nl, ni) => {
                if has1 && ts[p1] is NewLineIndent {
                    crate::parser::lemma_skip_end(ts, p1, ts[p1]->NewLineIndent_1);
                    parse_keeps_wf(ts, crate::parser::skip_end(ts, p1, ts[p1]->NewLineIndent_1),
                        crate::parser::noted(st, ts[p1]->NewLineIndent_0), u);
                } else if ni <= st.indent {
                    let c = concluded(u, ParseView { line: nl, indent: ni, ..st });
                    parse_keeps_wf(ts, p1, ParseView { log: crate::parser::keep_below(st.log, ni), ..c.1 }, c.0);
                } else if ni == st.indent + 1 {
                    let c = concluded(u, ParseView { line: nl, indent: ni, ..st });
                    parse_keeps_wf(ts, p1, c.1, c.0);
                } else {
                    crate::parser::lemma_skip_end(ts, p1, ni);
                    parse_keeps_wf(ts, crate::parser::skip_end(ts, p1, ni), crate::parser::noted(st, nl), u);
                }
            },
            TokenView::Add => {
                if has2 && ts[p1] is ComponentKey && ts[p1 + 1] is NewLineIndent {
                    let b = build_view(u, la.address, Some(ts[p1]->ComponentKey_0), None);
                    build_keeps_wf(u, la.address, Some(ts[p1]->ComponentKey_0), None);
                    crate::parser::lemma_skip_end(ts, p1 + 1, st.indent);
                    if b.1 is Component {
                        parse_keeps_wf(ts, p1 + 1, crate::parser::pushed(st, b.1, crate::parser::AddressState::New), b.0);
                    } else {
                        parse_keeps_wf(ts, crate::parser::skip_end(ts, p1 + 1, st.indent), crate::parser::noted(st, st.line), b.0);
                    }
                } else if has2 && ts[p1] is PropertyKey && ts[p1 + 1] is Is {
                    if !(la.address is Property && crate::lookup::origin_overflows(la.address, u)) {
                        let x = crate::parser::expr_scan(ts, p1 + 2, seq![]);
                        let b = property_view(u, la.address, ts[p1]->PropertyKey_0, crate::registry::Value::Color(None), text_expression(x.0));
                        property_keeps_wf(u, la.address, ts[p1]->PropertyKey_0, crate::registry::Value::Color(None), text_expression(x.0));
                        crate::parser::lemma_expr_scan(ts, p1 + 2, seq![]);
                        crate::parser::lemma_skip_end(ts, x.1, st.indent);
                        if b.1 is Property {
                            parse_keeps_wf(ts, x.1, crate::parser::pushed(st, b.1, crate::parser::AddressState::New), b.0);
                        } else {
                            parse_keeps_wf(ts, crate::parser::skip_end(ts, x.1, st.indent), crate::parser::noted(st, st.line), b.0);
                        }
                    }
                } else {
                    parse_keeps_wf(ts, crate::parser::skip_end(ts, q, st.indent), crate::parser::noted(st, st.line), u);
                }
            },
            TokenView::At => {
                if has2 && (ts[p1] is ComponentKey || ts[p1] is PropertyKey) && ts[p1 + 1] is NewLineIndent {
                    let key = if ts[p1] is ComponentKey { ts[p1]->ComponentKey_0 } else { ts[p1]->PropertyKey_0 };
                    crate::parser::lemma_skip_end(ts, p1 + 1, st.indent);
                    match address_of_text(key) {
                        AddressView::Component(k) => parse_keeps_wf(ts, p1 + 1,
                            crate::parser::pushed(st, AddressView::Component(k), crate::parser::AddressState::Modify), u),
                        AddressView::Property(k) => parse_keeps_wf(ts, p1 + 1,
                            crate::parser::pushed(st, AddressView::Property(k), crate::parser::AddressState::New), u),
                        _ => parse_keeps_wf(ts, crate::parser::skip_end(ts, p1 + 1, st.indent), crate::parser::noted(st, st.line), u),
                    }
                } else {
                    parse_keeps_wf(ts, crate::parser::skip_end(ts, q, st.indent), crate::parser::noted(st, st.line), u);
                }
            },
            TokenView::ComponentKey(key) => {
                if has1 && ts[p1] is NewLineIndent {
                    let anc = Some(address_id_of(address_of_text(key), u));
                    let b = build_view(u, la.address, None, anc);
                    build_keeps_wf(u, la.address, None, anc);
                    if b.1 is Component {
                        parse_keeps_wf(ts, p1 + 1, crate::parser::pushed(st, b.1, crate::parser::AddressState::New), b.0);
                    } else {
                        parse_keeps_wf(ts, crate::parser::skip_end(ts, p1 + 1, st.indent), crate::parser::noted(st, st.line), b.0);
                    }
                } else if has2 && ts[p1] is ComponentKey && (ts[p1 + 1] is NewLineIndent || ts[p1 + 1] is Parenthesees) {
                    let b = build_view(u, la.address, Some(ts[p1]->ComponentKey_0), None);
                    build_keeps_wf(u, la.address, Some(ts[p1]->ComponentKey_0), None);
                    if b.1 is Component {
                        parse_keeps_wf(ts, p1 + 1, crate::parser::pushed(st, b.1, crate::parser::AddressState::New), b.0);
                    } else {
                        parse_keeps_wf(ts, crate::parser::skip_end(ts, p1 + 1, st.indent), crate::parser::noted(st, st.line), b.0);
                    }
                } else {
                    parse_keeps_wf(ts, crate::parser::skip_end(ts, q, st.indent), crate::parser::noted(st, st.line), u);
                }
            },
            TokenView::PropertyKey(key) => {
                if has1 && ts[p1] is Is {
                    if la.state == crate::parser::AddressState::New {
                        if !(la.address is Property && crate::lookup::origin_overflows(la.address, u)) {
                            let x = crate::parser::expr_scan(ts, p1 + 1, seq![]);
                            let b = property_view(u, la.address, key, crate::registry::Value::Color(None), text_expression(x.0));
                            property_keeps_wf(u, la.address, key, crate::registry::Value::Color(None), text_expression(x.0));
                            crate::parser::lemma_expr_scan(ts, p1 + 1, seq![]);
                            crate::parser::lemma_skip_end(ts, x.1, st.indent);
                            if b.1 is Property {
                                parse_keeps_wf(ts, x.1, crate::parser::pushed(st, b.1, crate::parser::AddressState::New), b.0);
                            } else {
                                parse_keeps_wf(ts, crate::parser::skip_end(ts, x.1, st.indent), crate::parser::noted(st, st.line), b.0);
                            }
                        }
                    } else {
                        parse_keeps_wf(ts, p1 + 1, st, u);
                    }
                } else {
                    parse_keeps_wf(ts, crate::parser::skip_end(ts, p1, st.indent), crate::parser::noted(st, st.line), u);
                }
            },
            _ => {
                parse_keeps_wf(ts, crate::parser::skip_end(ts, p1, st.indent), crate::parser::noted(st, st.line), u);
            },
        }
    }
}

/// Parsing only ever appends: every component key, property key and hiccup
/// already there stays at its place.
pub proof fn parse_only_appends(ts: Seq<TokenView>, p: int, st: ParseView, u: UisView)
    ensures
        only_appends(u, parse(ts, p, st, u).0),
    decreases ts.len() - p,
{
    if p < 0 || p >= ts.len() {
    } else {
        let p1 = p + 1;
        let has1 = p1 < ts.len();
        let has2 = p1 + 1 < ts.len();
        let la = crate::parser::latest(st);
        let q = if has1 { p1 + 1 } else { p1 };
        crate::parser::lemma_skip_end(ts, p1, st.indent);
        crate::parser::lemma_skip_end(ts, q, st.indent);
        match ts[p] {
            TokenView::NewLineIndent(nl, ni) => {
                if has1 && ts[p1] is NewLineIndent {
                    crate::parser::lemma_skip_end(ts, p1, ts[p1]->NewLineIndent_1);
                    parse_only_appends(ts, crate::parser::skip_end(ts, p1, ts[p1]->NewLineIndent_1),
                        crate::parser::noted(st, ts[p1]->NewLineIndent_0), u);
                } else if ni <= st.indent {
                    let c = concluded(u, ParseView { line: nl, indent: ni, ..st });
                    parse_only_appends(ts, p1, ParseView { log: crate::parser::keep_below(st.log, ni), ..c.1 }, c.0);
                    lemma_appends_trans(u, c.0, parse(ts, p1, ParseView { log: crate::parser::keep_below(st.log, ni), ..c.1 }, c.0).0);
                } else if ni == st.indent + 1 {
                    let c = concluded(u, ParseView { line: nl, indent: ni, ..st });
                    parse_only_appends(ts, p1, c.1, c.0);
                    lemma_appends_trans(u, c.0, parse(ts, p1, c.1, c.0).0);
                } else {
                    crate::parser::lemma_skip_end(ts, p1, ni);
                    parse_only_appends(ts, crate::parser::skip_end(ts, p1, ni), crate::parser::noted(st, nl), u);
                }
            },
            TokenView::Add => {
                if has2 && ts[p1] is ComponentKey && ts[p1 + 1] is NewLineIndent {
                    let b = build_view(u, la.address, Some(ts[p1]->ComponentKey_0), None);
                    build_only_appends(u, la.address, Some(ts[p1]->ComponentKey_0), None);
                    crate::parser::lemma_skip_end(ts, p1 + 1, st.indent);
                    if b.1 is Component {
                        parse_only_appends(ts, p1 + 1, crate::parser::pushed(st, b.1, crate::parser::AddressState::New), b.0);
                        lemma_appends_trans(u, b.0, parse(ts, p1 + 1, crate::parser::pushed(st, b.1, crate::parser::AddressState::New), b.0).0);
                    } else {
                        parse_only_appends(ts, crate::parser::skip_end(ts, p1 + 1, st.indent), crate::parser::noted(st, st.line), b.0);
                        lemma_appends_trans(u, b.0, parse(ts, crate::parser::skip_end(ts, p1 + 1, st.indent), crate::parser::noted(st, st.line), b.0).0);
                    }
                } else if has2 && ts[p1] is PropertyKey && ts[p1 + 1] is Is {
                    if !(la.address is Property && crate::lookup::origin_overflows(la.address, u)) {
                        let x = crate::parser::expr_scan(ts, p1 + 2, seq![]);
                        let b = property_view(u, la.address, ts[p1]->PropertyKey_0, crate::registry::Value::Color(None), text_expression(x.0));
                        property_only_appends(u, la.address, ts[p1]->PropertyKey_0, crate::registry::Value::Color(None), text_expression(x.0));
                        crate::parser::lemma_expr_scan(ts, p1 + 2, seq![]);
                        crate::parser::lemma_skip_end(ts, x.1, st.indent);
                        if b.1 is Property {
                            parse_only_appends(ts, x.1, crate::parser::pushed(st, b.1, crate::parser::AddressState::New), b.0);
                            lemma_appends_trans(u, b.0, parse(ts, x.1, crate::parser::pushed(st, b.1, crate::parser::AddressState::New), b.0).0);
                        } else {
                            parse_only_appends(ts, crate::parser::skip_end(ts, x.1, st.indent), crate::parser::noted(st, st.line), b.0);
                            lemma_appends_trans(u, b.0, parse(ts, crate::parser::skip_end(ts, x.1, st.indent), crate::parser::noted(st, st.line), b.0).0);
                        }
                    }
                } else {
                    parse_only_appends(ts, crate::parser::skip_end(ts, q, st.indent), crate::parser::noted(st, st.line), u);
                }
            },
            TokenView::At => {
                if has2 && (ts[p1] is ComponentKey || ts[p1] is PropertyKey) && ts[p1 + 1] is NewLineIndent {
                    let key = if ts[p1] is ComponentKey { ts[p1]->ComponentKey_0 } else { ts[p1]->PropertyKey_0 };
                    crate::parser::lemma_skip_end(ts, p1 + 1, st.indent);
                    match address_of_text(key) {
                        AddressView::Component(k) => parse_only_appends(ts, p1 + 1,
                            crate::parser::pushed(st, AddressView::Component(k), crate::parser::AddressState::Modify), u),
                        AddressView::Property(k) => parse_only_appends(ts, p1 + 1,
                            crate::parser::pushed(st, AddressView::Property(k), crate::parser::AddressState::New), u),
                        _ => parse_only_appends(ts, crate::parser::skip_end(ts, p1 + 1, st.indent), crate::parser::noted(st, st.line), u),
                    }
                } else {
                    parse_only_appends(ts, crate::parser::skip_end(ts, q, st.indent), crate::parser::noted(st, st.line), u);
                }
            },
            TokenView::ComponentKey(key) => {
                if has1 && ts[p1] is NewLineIndent {
                    let anc = Some(address_id_of(address_of_text(key), u));
                    let b = build_view(u, la.address, None, anc);
                    build_only_appends(u, la.address, None, anc);
                    if b.1 is Component {
                        parse_only_appends(ts, p1 + 1, crate::parser::pushed(st, b.1, crate::parser::AddressState::New), b.0);
                        lemma_appends_trans(u, b.0, parse(ts, p1 + 1, crate::parser::pushed(st, b.1, crate::parser::AddressState::New), b.0).0);
                    } else {
                        parse_only_appends(ts, crate::parser::skip_end(ts, p1 + 1, st.indent), crate::parser::noted(st, st.line), b.0);
                        lemma_appends_trans(u, b.0, parse(ts, crate::parser::skip_end(ts, p1 + 1, st.indent), crate::parser::noted(st, st.line), b.0).0);
                    }
                } else if has2 && ts[p1] is ComponentKey && (ts[p1 + 1] is NewLineIndent || ts[p1 + 1] is Parenthesees) {
                    let b = build_view(u, la.address, Some(ts[p1]->ComponentKey_0), None);
                    build_only_appends(u, la.address, Some(ts[p1]->ComponentKey_0), None);
                    if b.1 is Component {
                        parse_only_appends(ts, p1 + 1, crate::parser::pushed(st, b.1, crate::parser::AddressState::New), b.0);
                        lemma_appends_trans(u, b.0, parse(ts, p1 + 1, crate::parser::pushed(st, b.1, crate::parser::AddressState::New), b.0).0);
                    } else {
                        parse_only_appends(ts, crate::parser::skip_end(ts, p1 + 1, st.indent), crate::parser::noted(st, st.line), b.0);
                        lemma_appends_trans(u, b.0, parse(ts, crate::parser::skip_end(ts, p1 + 1, st.indent), crate::parser::noted(st, st.line), b.0).0);
                    }
                } else {
                    parse_only_appends(ts, crate::parser::skip_end(ts, q, st.indent), crate::parser::noted(st, st.line), u);
                }
            },
            TokenView::PropertyKey(key) => {
                if has1 && ts[p1] is Is {
                    if la.state == crate::parser::AddressState::New {
                        if !(la.address is Property && crate::lookup::origin_overflows(la.address, u)) {
                            let x = crate::parser::expr_scan(ts, p1 + 1, seq![]);
                            let b = property_view(u, la.address, key, crate::registry::Value::Color(None), text_expression(x.0));
                            property_only_appends(u, la.address, key, crate::registry::Value::Color(None), text_expression(x.0));
                            crate::parser::lemma_expr_scan(ts, p1 + 1, seq![]);
                            crate::parser::lemma_skip_end(ts, x.1, st.indent);
                            if b.1 is Property {
                                parse_only_appends(ts, x.1, crate::parser::pushed(st, b.1, crate::parser::AddressState::New), b.0);
                                lemma_appends_trans(u, b.0, parse(ts, x.1, crate::parser::pushed(st, b.1, crate::parser::AddressState::New), b.0).0);
                            } else {
                                parse_only_appends(ts, crate::parser::skip_end(ts, x.1, st.indent), crate::parser::noted(st, st.line), b.0);
                                lemma_appends_trans(u, b.0, parse(ts, crate::parser::skip_end(ts, x.1, st.indent), crate::parser::noted(st, st.line), b.0).0);
                            }
                        }
                    } else {
                        parse_only_appends(ts, p1 + 1, st, u);
                    }
                } else {
                    parse_only_appends(ts, crate::parser::skip_end(ts, p1, st.indent), crate::parser::noted(st, st.line), u);
                }
            },
            _ => {
                parse_only_appends(ts, crate::parser::skip_end(ts, p1, st.indent), crate::parser::noted(st, st.line), u);
            },
        }
    }
}

/// A registry built from tokens is well formed.
pub proof fn built_registry_is_wf(ts: Seq<TokenView>)
    ensures
        registry_wf(parse(ts, 0, crate::parser::start_state(), empty_registry()).0),
{
    parse_keeps_wf(ts, 0, crate::parser::start_state(), empty_registry());
}

/// A registered key resolves to a position that resolves back to the key.
pub proof fn key_to_id_to_key(a: AddressView, u: UisView)
    requires
        registered_in(a, u),
        !(a is Root),
        u.components.len() <= usize::MAX,
        u.properties.len() <= usize::MAX,
    ensures
        address_key_of(address_id_of(a, u), u) == a,
{
    match a {
        AddressView::Component(k) => lemma_position_of(u.components, k),
        AddressView::Property(k) => lemma_position_of(u.properties, k),
        _ => {},
    }
}

/// In a well-formed registry, every position in range resolves to a key that
/// resolves back to the position.
pub proof fn id_to_key_to_id(id: AddressID, u: UisView)
    requires
        registry_wf(u),
        id matches AddressID::Component(i) ==> i < u.components.len(),
        id matches AddressID::Property(i) ==> i < u.properties.len(),
    ensures
        address_id_of(address_key_of(id, u), u) == id,
{
    match id {
        AddressID::Component(i) => {
            let k = u.components[i as int].0;
            lemma_position_of(u.components, k);
            if let Some(j) = position_of(u.components, k) {
                if j < i {
                    assert(u.components[j].0 != u.components[i as int].0);
                }
            }
        },
        AddressID::Property(i) => {
            let k = u.properties[i as int].0;
            lemma_position_of(u.properties, k);
            if let Some(j) = position_of(u.properties, k) {
                if j < i {
                    assert(u.properties[j].0 != u.properties[i as int].0);
                }
            }
        },
        _ => {},
    }
}

/// Stepping forward only ever reaches a registered address, and then the
/// address `next` placed under the start.
pub proof fn forward_reaches_registered(a: AddressView, next: Seq<char>, u: UisView)
    ensures
        forward_view(a, next, u) is Invalid || (registered_in(forward_view(a, next, u), u)
            && forward_view(a, next, u) == join_view(a, next)),
{
}

/// A key with a non-empty segment is kept as written, and its kind is decided
/// by the initial of its last non-empty segment.
pub proof fn key_kind_by_last_initial(s: Seq<char>)
    ensures
        key_initial(s) is Some <==> key_text(address_of_text(s)) == Some(s),
        address_of_text(s) is Component <==> (key_initial(s) is Some && is_upper(key_initial(s)->0)),
        address_of_text(s) is Property <==> (key_initial(s) is Some && !is_upper(key_initial(s)->0)),
{
}

/// A property created under a registered component belongs to that component.
pub proof fn property_belongs_to_component(u: UisView, k: Seq<char>, name: Seq<char>,
    value: crate::registry::Value, e: Option<crate::registry::ExpressionView>)
    requires
        position_of(u.components, k) is Some,
    ensures
        ({
            let (u2, r) = property_view(u, AddressView::Component(k), name, value, e);
            r is Property ==> u2.properties.last().1.origin == Origin::Component(position_of(u.components, k)->0 as usize)
        }),
{
}

/// The text the lexer reads holds no carriage return.
pub proof fn sanitized_has_no_cr(s: Seq<char>)
    ensures
        forall|i: int| 0 <= i < sanitize(s).len() ==> sanitize(s)[i] != '\r',
{
}

proof fn lemma_no_cr_fixed(t: Seq<char>)
    requires
        forall|i: int| 0 <= i < t.len() ==> t[i] != '\r',
    ensures
        crlf_to_lf(t) == t,
        cr_to_lf(t) == t,
    decreases t.len(),
{
    if t.len() > 0 {
        lemma_no_cr_fixed(t.skip(1));
        assert(seq![t[0]] + t.skip(1) =~= t);
    }
    assert(cr_to_lf(t) =~= t);
}

/// Normalising line endings before lexing changes nothing: the lexer reads
/// the same text, so it gives the same tokens and accepts the same inputs.
pub proof fn sanitize_is_idempotent(s: Seq<char>)
    ensures
        sanitize(sanitize(s)) == sanitize(s),
        lex_text(sanitize(s)) == lex_text(s),
        lexable(s) ==> lexable(sanitize(s)),
{
    sanitized_has_no_cr(s);
    lemma_no_cr_fixed(sanitize(s));
    crate::lexer::lemma_crlf_len(s);
}

/// A component created with a name ignores the component it was asked to
/// derive from: `new_derived` does what `new` does.
pub proof fn named_build_ignores_ancestor(u: UisView, a: AddressView, n: Seq<char>, ancestor: Option<AddressID>)
    ensures
        build_view(u, a, Some(n), ancestor) == build_view(u, a, Some(n), None),
        build_overflows(u, a, Some(n), ancestor) == build_overflows(u, a, Some(n), None),
{
}

proof fn lemma_back_rest(s: Seq<char>, i: int, end: int, upper: bool)
    requires
        0 <= i <= s.len(),
        forall|j: int| 0 <= j < i ==> s[j] != '(' && s[j] != ')',
    ensures
        back_scan(s, i, 0, 0, end, upper) == Some((end, upper)),
    decreases i,
{
    if i > 0 {
        lemma_back_rest(s, i - 1, end, upper);
    }
}

proof fn lemma_back_last_segment(s: Seq<char>, m: int, i: int)
    requires
        0 <= m,
        m + 2 <= i <= s.len(),
        forall|j: int| m + 1 <= j < s.len() ==> s[j] != '.' && s[j] != '(' && s[j] != ')',
    ensures
        back_scan(s, i, 0, 1, 0, false) == back_scan(s, m + 2, 0, 1, 0, false),
    decreases i,
{
    if i > m + 2 {
        lemma_back_last_segment(s, m, i - 1);
    }
}

proof fn lemma_segment_start(s: Seq<char>, m: int, k: int)
    requires
        0 <= m < k < s.len(),
        s[m] == '.',
        forall|j: int| m < j < s.len() ==> s[j] != '.',
    ensures
        segment_start(s, k) == m + 1,
    decreases k,
{
    if k > m + 1 {
        lemma_segment_start(s, m, k - 1);
    }
}

/// Stepping back one level from `o.n`, where `n` is a single segment, gives
/// `o` again, of the same kind as `o.n`. The premise on the initial of `n`
/// is the Unicode fact that an uppercase character is alphabetic.
pub proof fn back_one_level(o: Seq<char>, n: Seq<char>)
    requires
        o.len() > 0,
        n.len() > 0,
        forall|j: int| 0 <= j < o.len() ==> o[j] != '(' && o[j] != ')',
        forall|j: int| 0 <= j < n.len() ==> n[j] != '.' && n[j] != '(' && n[j] != ')',
        is_upper(n[0]) ==> is_alnum(n[0]),
    ensures
        ({
            let k = address_of_text(o + seq!['.'] + n);
            &&& k !is Invalid
            &&& k is Component ==> back_view(k, 1) == AddressView::Component(o)
            &&& k is Property ==> back_view(k, 1) == AddressView::Property(o)
        }),
{
    let s = o + seq!['.'] + n;
    let m = o.len() as int;
    assert(s[m] == '.');
    assert forall|j: int| m + 1 <= j < s.len() implies s[j] != '.' && s[j] != '(' && s[j] != ')' by {
        assert(s[j] == n[j - m - 1]);
    }
    assert forall|j: int| 0 <= j < m implies s[j] != '(' && s[j] != ')' by {
        assert(s[j] == o[j]);
    }
    assert(s[m + 1] == n[0]);
    assert(s[s.len() - 1] != '.');
    lemma_segment_start(s, m, s.len() - 1);
    assert(key_initial(s) == Some(n[0]));
    lemma_back_last_segment(s, m, s.len() as int);
    let up = if is_alnum(n[0]) { is_upper(n[0]) } else { false };
    assert(back_scan(s, m + 2, 0, 1, 0, false) == back_scan(s, m + 1, 0, 1, 0, up));
    assert(back_scan(s, m + 1, 0, 1, 0, up) == back_scan(s, m, 0, 0, m, up));
    lemma_back_rest(s, m, m, up);
    assert(s.take(m) =~= o);
}

/// `v` keeps every component key, property key and hiccup of `u` at its
/// place; anything more comes after them.
pub open spec fn only_appends(u: UisView, v: UisView) -> bool {
    &&& u.components.len() <= v.components.len()
    &&& forall|i: int| 0 <= i < u.components.len() ==> (#[trigger] v.components[i]).0 == u.components[i].0
    &&& u.properties.len() <= v.properties.len()
    &&& forall|i: int| 0 <= i < u.properties.len() ==> (#[trigger] v.properties[i]).0 == u.properties[i].0
    &&& u.hiccups.len() <= v.hiccups.len()
    &&& forall|i: int| 0 <= i < u.hiccups.len() ==> #[trigger] v.hiccups[i] == u.hiccups[i]
}

proof fn lemma_appends_trans(a: UisView, b: UisView, c: UisView)
    requires
        only_appends(a, b),
        only_appends(b, c),
    ensures
        only_appends(a, c),
{
    assert forall|i: int| 0 <= i < a.components.len() implies (#[trigger] c.components[i]).0 == a.components[i].0 by {
        assert(c.components[i].0 == b.components[i].0);
    }
    assert forall|i: int| 0 <= i < a.properties.len() implies (#[trigger] c.properties[i]).0 == a.properties[i].0 by {
        assert(c.properties[i].0 == b.properties[i].0);
    }
    assert forall|i: int| 0 <= i < a.hiccups.len() implies #[trigger] c.hiccups[i] == a.hiccups[i] by {
        assert(c.hiccups[i] == b.hiccups[i]);
    }
}

proof fn lemma_hiccup_appends(u: UisView, h: crate::address::HiccupView)
    ensures
        only_appends(u, with_hiccup(u, h)),
{
}

proof fn lemma_add_appends(a: AddressView, n: Seq<char>, u: UisView)
    ensures
        only_appends(u, add_view(a, n, u).0),
{
}

proof fn lemma_register_component_appends(u: UisView, added: AddressView, name: Seq<char>, origin: Origin,
    ancestor: Option<usize>, id: int)
    ensures
        only_appends(u, register_component(u, added, name, origin, ancestor, id).0),
{
}

proof fn lemma_register_property_appends(u: UisView, added: AddressView, name: Seq<char>, origin: Origin,
    value: crate::registry::Value, e: Option<crate::registry::ExpressionView>)
    ensures
        only_appends(u, register_property(u, added, name, origin, value, e).0),
{
}

proof fn lemma_update_appends(u: UisView, i: int, id: int)
    requires
        0 <= i < u.components.len(),
    ensures
        only_appends(u, with_descendant(u, i, id)),
        only_appends(u, with_child(u, i, id)),
{
    lemma_update_keys(u, i, id);
}

/// Creating a component only ever appends to the registry.
pub proof fn build_only_appends(u: UisView, a: AddressView, name: Option<Seq<char>>, ancestor: Option<AddressID>)
    ensures
        only_appends(u, build_view(u, a, name, ancestor).0),
{
    let id = u.components.len() as int;
    match name_step(u, name, ancestor) {
        None => {},
        Some(step) => {
            let u1 = step.0;
            if name is None {
                lemma_update_appends(u, ancestor->0->Component_0 as int, id);
            }
            assert(only_appends(u, u1));
            let r = build_view(u, a, name, ancestor).0;
            match a {
                AddressView::Root => {
                    let added = add_view(a, step.1, u1);
                    lemma_add_appends(a, step.1, u1);
                    lemma_register_component_appends(added.0, added.1, step.1, Origin::Root, step.2, id);
                    lemma_appends_trans(u1, added.0, r);
                },
                AddressView::Component(place) => {
                    match origin_of(a, u1) {
                        Origin::Component(oi) => {
                            lemma_position_of(u1.components, place);
                            lemma_update_appends(u1, oi as int, id);
                            let w = with_child(u1, oi as int, id);
                            let added = add_view(a, step.1, w);
                            lemma_add_appends(a, step.1, w);
                            lemma_register_component_appends(added.0, added.1, step.1, origin_of(a, u1), step.2, id);
                            lemma_appends_trans(w, added.0, r);
                            lemma_appends_trans(u1, w, r);
                        },
                        Origin::Root => {
                            let added = add_view(a, step.1, u1);
                            lemma_add_appends(a, step.1, u1);
                            lemma_register_component_appends(added.0, added.1, step.1, Origin::Root, step.2, id);
                            lemma_appends_trans(u1, added.0, r);
                        },
                        Origin::Invalid => {},
                    }
                },
                _ => {},
            }
            lemma_appends_trans(u, u1, r);
        },
    }
}

/// Creating a property only ever appends to the registry.
pub proof fn property_only_appends(u: UisView, a: AddressView, name: Seq<char>, value: crate::registry::Value,
    e: Option<crate::registry::ExpressionView>)
    ensures
        only_appends(u, property_view(u, a, name, value, e).0),
{
    let r = property_view(u, a, name, value, e).0;
    match a {
        AddressView::Invalid => {},
        AddressView::Property(_) => {
            let o = origin_view(a, u);
            let added = add_view(a, name, o.0);
            lemma_add_appends(a, name, o.0);
            lemma_register_property_appends(added.0, added.1, name, o.1, value, e);
            lemma_appends_trans(o.0, added.0, r);
            lemma_appends_trans(u, o.0, r);
        },
        _ => {
            let added = add_view(a, name, u);
            lemma_add_appends(a, name, u);
            lemma_register_property_appends(added.0, added.1, name, origin_of(a, u), value, e);
            lemma_appends_trans(u, added.0, r);
        },
    }
}

/// A line of two component keys `A B` creates a component named by the
/// second key, `B`, under the latest open address; the first key is not used.
pub proof fn two_keys_line_creates_the_second(ts: Seq<TokenView>, p: int, st: ParseView, u: UisView)
    requires
        0 <= p,
        p + 2 < ts.len(),
        ts[p] is ComponentKey,
        ts[p + 1] is ComponentKey,
        ts[p + 2] is NewLineIndent,
    ensures
        ({
            let b = build_view(u, crate::parser::latest(st).address, Some(ts[p + 1]->ComponentKey_0), None);
            b.1 is Component ==> parse(ts, p, st, u) == parse(ts, p + 2,
                crate::parser::pushed(st, b.1, crate::parser::AddressState::New), b.0)
        }),
{
}

/// From an empty registry, the line `A B` registers exactly one component,
/// whose key is `B`.
pub proof fn two_keys_line_registers_the_second(a: Seq<char>, b: Seq<char>, l: int, i: int)
    requires
        address_of_text(b) is Component,
    ensures
        ({
            let r = parse(seq![TokenView::ComponentKey(a), TokenView::ComponentKey(b), TokenView::NewLineIndent(l, i)],
                0, crate::parser::start_state(), empty_registry());
            &&& r.1
            &&& r.0.components.len() == 1
            &&& r.0.components[0].0 == b
        }),
{
    let ts = seq![TokenView::ComponentKey(a), TokenView::ComponentKey(b), TokenView::NewLineIndent(l, i)];
    let st = crate::parser::start_state();
    let u = empty_registry();
    two_keys_line_creates_the_second(ts, 0, st, u);
    let bv = build_view(u, AddressView::Root, Some(b), None);
    assert(bv.1 == AddressView::Component(b));
    assert(bv.0.components.len() == 1 && bv.0.components[0].0 == b);
    let st2 = crate::parser::pushed(st, bv.1, crate::parser::AddressState::New);
    assert(parse(ts, 0, st, u) == parse(ts, 2, st2, bv.0));
    if i <= 0 {
        let c = concluded(bv.0, ParseView { line: l, indent: i, ..st2 });
        assert(c.0 == bv.0);
        assert(parse(ts, 2, st2, bv.0) == parse(ts, 3,
            ParseView { log: crate::parser::keep_below(st2.log, i), ..c.1 }, c.0));
    } else if i == 1 {
        let c = concluded(bv.0, ParseView { line: l, indent: i, ..st2 });
        assert(c.0 == bv.0);
        assert(parse(ts, 2, st2, bv.0) == parse(ts, 3, c.1, c.0));
    } else {
        assert(crate::parser::skip_end(ts, 3, i) == 3);
        assert(parse(ts, 2, st2, bv.0) == parse(ts, 3, crate::parser::noted(st2, l), bv.0));
    }
}

/// A `>` that is not followed by `=` gives a `GreaterThan` token, whatever
/// follows it; followed by `=` the two give `GreaterThanOrEqual`.
pub proof fn greater_than_is_a_token(s: Seq<char>, p: int, line: int, acc: Seq<TokenView>)
    requires
        0 <= p < s.len(),
        s[p] == '>',
    ensures
        p + 1 < s.len() && s[p + 1] == '=' ==> crate::lexer::lex(s, p, line, acc)
            == crate::lexer::lex(s, p + 2, line, acc.push(TokenView::GreaterThanOrEqual)),
        !(p + 1 < s.len() && s[p + 1] == '=') ==> crate::lexer::lex(s, p, line, acc)
            == crate::lexer::lex(s, p + 1, line, acc.push(TokenView::GreaterThan)),
{
}

/// The decimal notation of a number reads back as that number, most
/// significant digit first, with no leading zero.
pub proof fn decimal_reads_back(n: nat)
    ensures
        crate::lexer::digits_value(crate::text::decimal(n)) == n,
        crate::text::decimal(n).len() > 0,
        n > 0 ==> crate::text::decimal(n)[0] != '0',
        forall|i: int| 0 <= i < crate::text::decimal(n).len() ==> '0' <= #[trigger] crate::text::decimal(n)[i] <= '9',
    decreases n,
{
    let d = crate::text::decimal(n);
    let k = (n % 10) as nat;
    assert(crate::lexer::digit_value(crate::text::digit_char(k)) == k);
    if n >= 10 {
        decimal_reads_back(n / 10);
        let h = crate::text::decimal(n / 10);
        assert(d == h.push(crate::text::digit_char(n % 10)));
        assert(d.drop_last() =~= h);
        assert(d.last() == crate::text::digit_char(k));
        assert(crate::lexer::digits_value(d) == crate::lexer::digits_value(h) * 10 + k);
        assert(n == (n / 10) * 10 + k);
        assert(d[0] == h[0]);
        assert forall|i: int| 0 <= i < d.len() implies '0' <= #[trigger] d[i] <= '9' by {
            if i < h.len() {
                assert(d[i] == h[i]);
            }
        }
    } else {
        assert(k == n);
        assert(d.drop_last() =~= Seq::<char>::empty());
        assert(crate::lexer::digits_value(d) == crate::lexer::digits_value(d.drop_last()) * 10 + crate::lexer::digit_value(d.last()));
    }
}

/// A created property holds exactly what it was given: it is registered last,
/// under the returned key (the name placed under the address), with its
/// position as id, the given value and expression, and the origin found from
/// the address. Only a property key or `Invalid` is ever returned.
pub proof fn created_property_holds_its_arguments(u: UisView, a: AddressView, name: Seq<char>,
    value: crate::registry::Value, e: Option<crate::registry::ExpressionView>)
    ensures
        ({
            let (u2, r) = property_view(u, a, name, value, e);
            &&& r is Property || r is Invalid
            &&& r is Property ==> {
                &&& r == join_view(a, name)
                &&& u2.properties.len() == u.properties.len() + 1
                &&& u2.properties.last().0 == r->Property_0
                &&& u2.properties.last().1.id == u.properties.len()
                &&& u2.properties.last().1.value == value
                &&& u2.properties.last().1.expression == e
                &&& u2.properties.last().1.origin == match a {
                    AddressView::Property(_) => origin_view(a, u).1,
                    AddressView::Root => Origin::Root,
                    _ => origin_of(a, u),
                }
                &&& u2.components == u.components
            }
        }),
{
}

} // verus!
