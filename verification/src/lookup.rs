//! Address operations that read or write the registry: resolving keys and
//! positions, stepping forward into a registered address, adding a new
//! address, and finding the component an address is attached to.

use vstd::prelude::*;
use vstd::string::*;
use crate::text::{debug_text, decimal, chars_of, debug_str, push_decimal, string_of_range};
use crate::address::{AddressKey, AddressView, AddressID, Origin, Line, Hiccup, HiccupView, address_of_text, not_component_text};
use crate::registry::{Uis, UisView, with_hiccup, position_of, component_views, property_views, hiccup_views, component_entries, property_entries,
    component_map_index_of, component_map_contains, component_map_get, property_map_index_of, property_map_contains, property_map_get};

verus! {

pub proof fn lemma_position_of_same_keys<A, B>(es: Seq<(Seq<char>, A)>, ds: Seq<(Seq<char>, B)>, k: Seq<char>)
    requires
        es.len() == ds.len(),
        forall|i: int| 0 <= i < es.len() ==> (#[trigger] es[i]).0 == ds[i].0,
    ensures
        position_of(es, k) == position_of(ds, k),
    decreases es.len(),
{
    if es.len() > 0 {
        lemma_position_of_same_keys(es.drop_first(), ds.drop_first(), k);
    }
}

pub(crate) proof fn lemma_component_positions(u: &Uis, k: Seq<char>)
    ensures
        position_of(u@.components, k) == position_of(component_entries(u.components), k),
        u@.components.len() == component_entries(u.components).len(),
        forall|i: int| 0 <= i < u@.components.len() ==> (#[trigger] u@.components[i]).0 == component_entries(u.components)[i].0
            && u@.components[i].1 == component_entries(u.components)[i].1@,
{
    lemma_position_of_same_keys(u@.components, component_entries(u.components), k);
}

pub(crate) proof fn lemma_property_positions(u: &Uis, k: Seq<char>)
    ensures
        position_of(u@.properties, k) == position_of(property_entries(u.properties), k),
        u@.properties.len() == property_entries(u.properties).len(),
        forall|i: int| 0 <= i < u@.properties.len() ==> (#[trigger] u@.properties[i]).0 == property_entries(u.properties)[i].0
            && u@.properties[i].1 == property_entries(u.properties)[i].1@,
{
    lemma_position_of_same_keys(u@.properties, property_entries(u.properties), k);
}

/// The position of a registered address, or invalid.
pub open spec fn address_id_of(a: AddressView, u: UisView) -> AddressID {
    match a {
        AddressView::Component(k) => match position_of(u.components, k) {
            Some(i) => AddressID::Component(i as usize),
            None => AddressID::Invalid,
        },
        AddressView::Property(k) => match position_of(u.properties, k) {
            Some(i) => AddressID::Property(i as usize),
            None => AddressID::Invalid,
        },
        AddressView::Root => AddressID::Root,
        AddressView::Invalid => AddressID::Invalid,
    }
}

/// The key registered at a position, or invalid.
pub open spec fn address_key_of(a: AddressID, u: UisView) -> AddressView {
    match a {
        AddressID::Component(i) => if i < u.components.len() {
            AddressView::Component(u.components[i as int].0)
        } else {
            AddressView::Invalid
        },
        AddressID::Property(i) => if i < u.properties.len() {
            AddressView::Property(u.properties[i as int].0)
        } else {
            AddressView::Invalid
        },
        AddressID::Root => AddressView::Root,
        AddressID::Invalid => AddressView::Invalid,
    }
}

/// Whether an address is the root or registered.
pub open spec fn registered_in(a: AddressView, u: UisView) -> bool {
    match a {
        AddressView::Component(k) => position_of(u.components, k) is Some,
        AddressView::Property(k) => position_of(u.properties, k) is Some,
        AddressView::Root => true,
        AddressView::Invalid => false,
    }
}

/// The origin a component address stands for: the component itself.
pub open spec fn origin_of(a: AddressView, u: UisView) -> Origin {
    match a {
        AddressView::Component(k) => match position_of(u.components, k) {
            Some(i) => Origin::Component(i as usize),
            None => Origin::Invalid,
        },
        AddressView::Root => Origin::Root,
        _ => Origin::Invalid,
    }
}

pub open spec fn missing_component_text() -> Seq<char> {
    "could not find a component with a valid ID"@
}

/// A segment joined under a key: in parentheses when it holds a dot.
pub open spec fn join_text(o: Seq<char>, n: Seq<char>) -> Seq<char> {
    if n.contains('.') {
        o + ".("@ + n + ")"@
    } else {
        o + "."@ + n
    }
}

/// The address of `next` placed under `a`: a component may hold components
/// and properties, a property may hold properties, and the root holds both.
pub open spec fn join_view(a: AddressView, next: Seq<char>) -> AddressView {
    match address_of_text(next) {
        AddressView::Component(n) => match a {
            AddressView::Component(o) => AddressView::Component(join_text(o, n)),
            AddressView::Root => AddressView::Component(n),
            _ => AddressView::Invalid,
        },
        AddressView::Property(n) => match a {
            AddressView::Component(o) => AddressView::Property(join_text(o, n)),
            AddressView::Property(o) => AddressView::Property(join_text(o, n)),
            AddressView::Root => AddressView::Property(n),
            _ => AddressView::Invalid,
        },
        _ => AddressView::Invalid,
    }
}

/// The joined address, kept only when it is registered.
pub open spec fn forward_view(a: AddressView, next: Seq<char>, u: UisView) -> AddressView {
    match join_view(a, next) {
        AddressView::Component(k) => if position_of(u.components, k) is Some {
            AddressView::Component(k)
        } else {
            AddressView::Invalid
        },
        AddressView::Property(k) => if position_of(u.properties, k) is Some {
            AddressView::Property(k)
        } else {
            AddressView::Invalid
        },
        AddressView::Root => AddressView::Root,
        AddressView::Invalid => AddressView::Invalid,
    }
}

/// The position of the last `c` in `s`.
pub open spec fn last_index_of(s: Seq<char>, c: char) -> Option<int>
    decreases s.len(),
{
    if s.len() == 0 {
        None
    } else if s.last() == c {
        Some(s.len() - 1)
    } else {
        last_index_of(s.drop_last(), c)
    }
}

/// The key of the `i`-th instance of a registered component key.
pub open spec fn instance_key(k: Seq<char>, i: nat) -> Seq<char> {
    if k.len() > 0 && k.last() == ']' {
        match last_index_of(k, '[') {
            Some(e) => k + "["@ + k.take(e) + "]"@,
            None => k + "["@ + decimal(i) + "]"@,
        }
    } else {
        k + "["@ + decimal(i) + "]"@
    }
}

pub open spec fn property_exists_text(k: Seq<char>) -> Seq<char> {
    k + " already exists in this component - please remove the '+' or type, from this property"@
}

pub open spec fn values_added_text() -> Seq<char> {
    "the folowing values will be added to the existing property"@
}

/// Adding `next` under `a`: a component key that is already registered
/// becomes the key of its next instance, counted per key; a property key that
/// is already registered is kept, with a warning.
pub open spec fn add_view(a: AddressView, next: Seq<char>, u: UisView) -> (UisView, AddressView) {
    let j = join_view(a, next);
    match j {
        AddressView::Component(k) => if position_of(u.components, k) is Some {
            if u.instances.contains_key(k) {
                let i = u.instances[k] + 1;
                (UisView { instances: u.instances.insert(k, i as usize), ..u }, AddressView::Component(instance_key(k, i as nat)))
            } else {
                (UisView { instances: u.instances.insert(k, 1), ..u }, AddressView::Component(k + "[1]"@))
            }
        } else {
            (u, j)
        },
        AddressView::Property(k) => if position_of(u.properties, k) is Some {
            (with_hiccup(u, HiccupView::Warning(Line::Unknown, property_exists_text(k), values_added_text())), j)
        } else {
            (u, j)
        },
        _ => (u, j),
    }
}

/// Whether adding `next` under `a` would count past the largest instance number.
pub open spec fn add_overflows(a: AddressView, next: Seq<char>, u: UisView) -> bool {
    match join_view(a, next) {
        AddressView::Component(k) => position_of(u.components, k) is Some && u.instances.contains_key(k)
            && u.instances[k] == usize::MAX,
        _ => false,
    }
}

/// Whether a character occurs in a string.
fn has_char(s: &String, c: char) -> (r: bool)
    ensures
        r == s@.contains(c),
{
    let cs = chars_of(s.as_str());
    let mut i: usize = 0;
    while i < cs.len()
        invariant
            i <= cs@.len(),
            cs@ == s@,
            forall|j: int| 0 <= j < i ==> cs@[j] != c,
        decreases cs@.len() - i,
    {
        if cs[i] == c {
            return true;
        }
        i = i + 1;
    }
    false
}

fn join_exec(o: &String, n: &String) -> (r: String)
    ensures
        r@ == join_text(o@, n@),
{
    let mut r = o.clone();
    if has_char(n, '.') {
        r.append(".(");
        r.append(n.as_str());
        r.append(")");
    } else {
        r.append(".");
        r.append(n.as_str());
    }
    r
}

impl AddressKey {
    /// `next` placed under this address, without looking at the registry.
    fn joined(&self, next: &str) -> (r: AddressKey)
        ensures
            r@ == join_view(self@, next@),
    {
        match AddressKey::from_string(next) {
            AddressKey::Component(n) => match self {
                AddressKey::Component(o) => AddressKey::Component(join_exec(o, &n)),
                AddressKey::Root => AddressKey::Component(n),
                _ => AddressKey::Invalid,
            },
            AddressKey::Property(n) => match self {
                AddressKey::Component(o) => AddressKey::Property(join_exec(o, &n)),
                AddressKey::Property(o) => AddressKey::Property(join_exec(o, &n)),
                AddressKey::Root => AddressKey::Property(n),
                _ => AddressKey::Invalid,
            },
            _ => AddressKey::Invalid,
        }
    }

    /// The position of this address in the registry.
    pub fn to_address_id(&self, uis: &Uis) -> (r: AddressID)
        ensures
            r == address_id_of(self@, uis@),
    {
        match self {
            AddressKey::Component(key) => {
                proof { lemma_component_positions(uis, key@); }
                match component_map_index_of(&uis.components, key.as_str()) {
                    Some(index) => AddressID::Component(index),
                    None => AddressID::Invalid,
                }
            },
            AddressKey::Property(key) => {
                proof { lemma_property_positions(uis, key@); }
                match property_map_index_of(&uis.properties, key.as_str()) {
                    Some(index) => AddressID::Property(index),
                    None => AddressID::Invalid,
                }
            },
            AddressKey::Root => AddressID::Root,
            AddressKey::Invalid => AddressID::Invalid,
        }
    }

    /// Whether this address is the root or registered.
    pub fn does_exist(&self, uis: &Uis) -> (r: bool)
        ensures
            r == registered_in(self@, uis@),
    {
        match self {
            AddressKey::Component(key) => {
                proof { lemma_component_positions(uis, key@); }
                component_map_contains(&uis.components, key.as_str())
            },
            AddressKey::Property(key) => {
                proof { lemma_property_positions(uis, key@); }
                property_map_contains(&uis.properties, key.as_str())
            },
            AddressKey::Root => true,
            AddressKey::Invalid => false,
        }
    }

    /// The position of a registered component; any other address is
    /// answered with a warning.
    pub fn to_component_id(&self, uis: &Uis) -> (r: Result<usize, Hiccup>)
        ensures
            match self@ {
                AddressView::Component(k) => match position_of(uis@.components, k) {
                    Some(i) => r == Ok::<usize, Hiccup>(i as usize),
                    None => r matches Err(h) && h@ == HiccupView::Warning(Line::Unknown, missing_component_text(), Seq::empty()),
                },
                _ => r matches Err(h) && h@ == HiccupView::Warning(Line::Unknown, not_component_text(), Seq::empty()),
            },
    {
        match self {
            AddressKey::Component(c) => {
                proof { lemma_component_positions(uis, c@); }
                match component_map_index_of(&uis.components, c.as_str()) {
                    Some(id) => Ok(id),
                    None => Err(Hiccup::Warning(Line::Unknown, String::from_str("could not find a component with a valid ID"), String::new())),
                }
            },
            _ => Err(Hiccup::Warning(Line::Unknown, String::from_str("the address is not of type component"), String::new())),
        }
    }

    /// The origin this address stands for when it already is the wanted
    /// one: a registered component or the root.
    pub fn to_origin(&self, uis: &mut Uis) -> (r: Origin)
        ensures
            final(uis)@ == old(uis)@,
            r == origin_of(self@, old(uis)@),
    {
        match self {
            AddressKey::Component(c) => {
                proof { lemma_component_positions(uis, c@); }
                match component_map_index_of(&uis.components, c.as_str()) {
                    Some(id) => Origin::Component(id),
                    None => Origin::Invalid,
                }
            },
            AddressKey::Root => Origin::Root,
            _ => Origin::Invalid,
        }
    }
}

/// How the walk back over a key that looks for its origin ends.
pub enum OriginScan {
    /// A 256th unmatched `)`: the parenthesis counter is a byte.
    Overflow,
    /// An unmatched `(`.
    OpenParen,
    /// The component registered at this position is the origin.
    Found(int),
    /// No registered component encloses the key: the root is the origin.
    Root,
}

/// Walking back over the first `k` characters of a key, segment by segment:
/// at each top-level `.` the key before it is looked up among the
/// components, and the first one registered is the origin. A walk that
/// reaches the start of the key ends at the root.
pub open spec fn origin_scan(s: Seq<char>, k: int, rev: int, u: UisView) -> OriginScan
    decreases k,
{
    if k <= 0 {
        OriginScan::Root
    } else {
        let j = k - 1;
        let c = s[j];
        if c == ')' {
            if rev >= 255 { OriginScan::Overflow } else { origin_scan(s, j, rev + 1, u) }
        } else if c == '(' {
            if rev == 0 { OriginScan::OpenParen } else { origin_scan(s, j, rev - 1, u) }
        } else if c == '.' && rev == 0 {
            match position_of(u.components, s.take(j)) {
                Some(i) => OriginScan::Found(i),
                None => origin_scan(s, j, rev, u),
            }
        } else {
            origin_scan(s, j, rev, u)
        }
    }
}

pub open spec fn open_paren_text(s: Seq<char>) -> Seq<char> {
    "The address: "@ + debug_text(s) + " ends with opening parenthesees"@
}

pub open spec fn origin_invalid_text() -> Seq<char> {
    "Causing the origin to return invalid"@
}

pub open spec fn origin_of_text(s: Seq<char>, u: UisView) -> (UisView, Origin) {
    match origin_scan(s, s.len() as int, 0, u) {
        OriginScan::OpenParen => (with_hiccup(u, HiccupView::Error(Line::Unknown, open_paren_text(s), origin_invalid_text())), Origin::Invalid),
        OriginScan::Found(i) => (u, Origin::Component(i as usize)),
        OriginScan::Root => (u, Origin::Root),
        OriginScan::Overflow => (u, Origin::Invalid),
    }
}

/// The origin found by stepping back from an address, segment by segment,
/// to the nearest enclosing registered component, or to the root.
pub open spec fn origin_view(a: AddressView, u: UisView) -> (UisView, Origin) {
    match a {
        AddressView::Component(s) => origin_of_text(s, u),
        AddressView::Property(s) => origin_of_text(s, u),
        AddressView::Root => (u, Origin::Root),
        AddressView::Invalid => (u, Origin::Invalid),
    }
}

/// Whether the walk back over an address's key would count past 255 `)`
/// before it finds the origin.
pub open spec fn origin_overflows(a: AddressView, u: UisView) -> bool {
    match key_text_of(a) {
        Some(s) => origin_scan(s, s.len() as int, 0, u) is Overflow,
        None => false,
    }
}

pub open spec fn key_text_of(a: AddressView) -> Option<Seq<char>> {
    match a {
        AddressView::Component(s) => Some(s),
        AddressView::Property(s) => Some(s),
        _ => None,
    }
}

enum OriginStop {
    Overflow,
    OpenParen,
    Found(usize),
    Root,
}

impl OriginStop {
    spec fn view(&self) -> OriginScan {
        match self {
            OriginStop::Overflow => OriginScan::Overflow,
            OriginStop::OpenParen => OriginScan::OpenParen,
            OriginStop::Found(i) => OriginScan::Found(*i as int),
            OriginStop::Root => OriginScan::Root,
        }
    }
}

fn scan_origin(cs: &Vec<char>, uis: &Uis) -> (r: OriginStop)
    ensures
        r@ == origin_scan(cs@, cs@.len() as int, 0, uis@),
{
    let n = cs.len();
    let mut k: usize = n;
    let mut rev: u8 = 0;
    while k > 0
        invariant
            k <= n == cs@.len(),
            origin_scan(cs@, k as int, rev as int, uis@) == origin_scan(cs@, n as int, 0, uis@),
        decreases k,
    {
        let j = k - 1;
        let c = cs[j];
        if c == ')' {
            if rev == 255 {
                return OriginStop::Overflow;
            }
            rev = rev + 1;
        } else if c == '(' {
            if rev == 0 {
                return OriginStop::OpenParen;
            }
            rev = rev - 1;
        } else if c == '.' && rev == 0 {
            let prefix = string_of_range(cs, 0, j);
            assert(cs@.subrange(0, j as int) =~= cs@.take(j as int));
            proof { lemma_component_positions(uis, prefix@); }
            match component_map_index_of(&uis.components, prefix.as_str()) {
                Some(i) => {
                    return OriginStop::Found(i);
                },
                None => {},
            }
        }
        k = j;
    }
    OriginStop::Root
}

/// Whether `get_origin` accepts the address: the walk back over its key
/// never has more than 255 unmatched `)` before it finds the origin.
pub(crate) fn origin_fits(a: &AddressKey, uis: &Uis) -> (r: bool)
    ensures
        r == !origin_overflows(a@, uis@),
{
    match a {
        AddressKey::Component(key) | AddressKey::Property(key) => {
            let cs = chars_of(key.as_str());
            match scan_origin(&cs, uis) {
                OriginStop::Overflow => false,
                _ => true,
            }
        },
        _ => true,
    }
}

fn origin_of_key(key: &String, uis: &mut Uis) -> (r: Origin)
    requires
        origin_scan(key@, key@.len() as int, 0, old(uis)@) !is Overflow,
    ensures
        (final(uis)@, r) == origin_of_text(key@, old(uis)@),
{
    let cs = chars_of(key.as_str());
    match scan_origin(&cs, uis) {
        OriginStop::OpenParen => {
            let mut cause = String::from_str("The address: ");
            let shown = debug_str(key.as_str());
            cause.append(shown.as_str());
            cause.append(" ends with opening parenthesees");
            uis.push_hiccup(Hiccup::Error(Line::Unknown, cause, String::from_str("Causing the origin to return invalid")));
            Origin::Invalid
        },
        OriginStop::Found(i) => Origin::Component(i),
        OriginStop::Root => Origin::Root,
        OriginStop::Overflow => Origin::Invalid,
    }
}

fn last_index_exec(cs: &Vec<char>, c: char) -> (r: Option<usize>)
    ensures
        r is Some <==> last_index_of(cs@, c) is Some,
        r matches Some(i) ==> i < cs@.len() && i as int == last_index_of(cs@, c)->0,
{
    let mut k = cs.len();
    assert(cs@.take(k as int) =~= cs@);
    while k > 0
        invariant
            k <= cs@.len(),
            last_index_of(cs@.take(k as int), c) == last_index_of(cs@, c),
        decreases k,
    {
        assert(cs@.take(k as int).drop_last() =~= cs@.take(k - 1));
        if cs[k - 1] == c {
            return Some(k - 1);
        }
        k = k - 1;
    }
    None
}

/// The key of the `i`-th instance of a component key.
fn instance_key_exec(key: &String, i: usize) -> (r: String)
    ensures
        r@ == instance_key(key@, i as nat),
{
    let cs = chars_of(key.as_str());
    let mut r = key.clone();
    r.append("[");
    if cs.len() > 0 && cs[cs.len() - 1] == ']' {
        match last_index_exec(&cs, '[') {
            Some(e) => {
                let head = string_of_range(&cs, 0, e);
                assert(cs@.subrange(0, e as int) =~= key@.take(e as int));
                r.append(head.as_str());
            },
            None => {
                push_decimal(&mut r, i);
            },
        }
    } else {
        push_decimal(&mut r, i);
    }
    r.append("]");
    r
}

impl AddressKey {
    /// Steps into `next` under this address, when that address is registered.
    pub fn forward(&self, uis: &Uis, next: &str) -> (r: AddressKey)
        ensures
            r@ == forward_view(self@, next@, uis@),
    {
        match self.joined(next) {
            AddressKey::Component(key) => {
                proof { lemma_component_positions(uis, key@); }
                if component_map_contains(&uis.components, key.as_str()) {
                    AddressKey::Component(key)
                } else {
                    AddressKey::Invalid
                }
            },
            AddressKey::Property(key) => {
                proof { lemma_property_positions(uis, key@); }
                if property_map_contains(&uis.properties, key.as_str()) {
                    AddressKey::Property(key)
                } else {
                    AddressKey::Invalid
                }
            },
            AddressKey::Root => AddressKey::Root,
            AddressKey::Invalid => AddressKey::Invalid,
        }
    }

    /// Places `next` under this address for a new entry: a component that
    /// already exists becomes a new numbered instance of it, and a property
    /// that already exists is answered with a warning.
    pub fn add(&self, uis: &mut Uis, next: &str) -> (r: AddressKey)
        requires
            !add_overflows(self@, next@, old(uis)@),
        ensures
            (final(uis)@, r@) == add_view(self@, next@, old(uis)@),
    {
        let new = self.joined(next);
        match &new {
            AddressKey::Component(key) => {
                proof { lemma_component_positions(uis, key@); }
                if component_map_contains(&uis.components, key.as_str()) {
                    match uis.instances.get(key.as_str()) {
                        Some(i) => {
                            let count = *i + 1;
                            uis.instances.insert(key.clone(), count);
                            AddressKey::Component(instance_key_exec(key, count))
                        },
                        None => {
                            uis.instances.insert(key.clone(), 1);
                            let mut k = key.clone();
                            k.append("[1]");
                            AddressKey::Component(k)
                        },
                    }
                } else {
                    new
                }
            },
            AddressKey::Property(key) => {
                proof { lemma_property_positions(uis, key@); }
                if property_map_contains(&uis.properties, key.as_str()) {
                    let mut cause = key.clone();
                    cause.append(" already exists in this component - please remove the '+' or type, from this property");
                    uis.push_hiccup(Hiccup::Warning(Line::Unknown, cause,
                        String::from_str("the folowing values will be added to the existing property")));
                }
                new
            },
            _ => new,
        }
    }

    /// Steps back from this address, segment by segment, until it reaches a
    /// registered component, or else the root.
    pub fn get_origin(&self, uis: &mut Uis) -> (r: Origin)
        requires
            !origin_overflows(self@, old(uis)@),
        ensures
            (final(uis)@, r) == origin_view(self@, old(uis)@),
    {
        match self {
            AddressKey::Invalid => Origin::Invalid,
            AddressKey::Root => Origin::Root,
            AddressKey::Component(key) | AddressKey::Property(key) => origin_of_key(key, uis),
        }
    }
}

impl AddressID {
    /// The key registered at this position.
    /// A position in range gives a key that leads back to the same position.
    pub fn to_address_key(&self, uis: &Uis) -> (r: AddressKey)
        ensures
            r@ == address_key_of(*self, uis@),
            self matches AddressID::Component(i) && i < uis@.components.len() ==> address_id_of(r@, uis@) == *self,
            self matches AddressID::Property(i) && i < uis@.properties.len() ==> address_id_of(r@, uis@) == *self,
            *self is Root ==> address_id_of(r@, uis@) == *self,
    {
        proof {
            lemma_component_positions(uis, Seq::empty());
            lemma_property_positions(uis, Seq::empty());
        }
        match self {
            AddressID::Component(index) => match component_map_get(&uis.components, *index) {
                Some(entry) => {
                    proof { lemma_component_positions(uis, entry.0@); }
                    AddressKey::Component(entry.0.clone())
                },
                None => AddressKey::Invalid,
            },
            AddressID::Property(index) => match property_map_get(&uis.properties, *index) {
                Some(entry) => {
                    proof { lemma_property_positions(uis, entry.0@); }
                    AddressKey::Property(entry.0.clone())
                },
                None => AddressKey::Invalid,
            },
            AddressID::Root => AddressKey::Root,
            AddressID::Invalid => AddressKey::Invalid,
        }
    }

    /// Steps into `next` under the address at this position.
    pub fn forward(&self, uis: &Uis, next: &str) -> (r: AddressID)
        ensures
            r == address_id_of(forward_view(address_key_of(*self, uis@), next@, uis@), uis@),
    {
        self.to_address_key(uis).forward(uis, next).to_address_id(uis)
    }

    /// The position of the address `by` segments up.
    pub fn back(&self, uis: &Uis, by: u32) -> (r: AddressID)
        ensures
            r == address_id_of(crate::address::back_view(address_key_of(*self, uis@), by as int), uis@),
    {
        self.to_address_key(uis).back(by).to_address_id(uis)
    }

    /// The position of the address a key denotes.
    pub fn from_string(s: &str, uis: &Uis) -> (r: AddressID)
        ensures
            r == address_id_of(address_of_text(s@), uis@),
    {
        AddressKey::from_string(s).to_address_id(uis)
    }

    pub fn to_optional_string(&self, uis: &Uis) -> (r: Option<String>)
        ensures
            r is Some <==> key_text_of(address_key_of(*self, uis@)) is Some,
            r matches Some(t) ==> t@ == key_text_of(address_key_of(*self, uis@))->0,
    {
        self.to_address_key(uis).to_optional_string()
    }

    pub fn to_string(&self, uis: &Uis) -> (r: String)
        ensures
            r@ == match key_text_of(address_key_of(*self, uis@)) {
                Some(t) => t,
                None => Seq::<char>::empty(),
            },
    {
        self.to_address_key(uis).to_string()
    }

    /// The origin of the address at this position.
    pub fn to_origin(&mut self, uis: &mut Uis) -> (r: Origin)
        requires
            !origin_overflows(address_key_of(*old(self), old(uis)@), old(uis)@),
        ensures
            *final(self) == *old(self),
            (final(uis)@, r) == origin_view(address_key_of(*old(self), old(uis)@), old(uis)@),
    {
        self.to_address_key(uis).get_origin(uis)
    }
}

impl Origin {
    /// The key of the component at this origin.
    pub fn to_address_key(self, uis: &Uis) -> (r: AddressKey)
        requires
            self matches Origin::Component(i) ==> i < uis@.components.len(),
        ensures
            r@ == match self {
                Origin::Component(i) => AddressView::Component(uis@.components[i as int].0),
                Origin::Root => AddressView::Root,
                Origin::Invalid => AddressView::Invalid,
            },
    {
        proof { lemma_component_positions(uis, Seq::empty()); }
        match self {
            Origin::Component(index) => match component_map_get(&uis.components, index) {
                Some(c) => AddressKey::Component(c.0.clone()),
                None => AddressKey::Invalid,
            },
            Origin::Root => AddressKey::Root,
            Origin::Invalid => AddressKey::Invalid,
        }
    }
}

} // verus!
