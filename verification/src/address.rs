//! Addresses: dotted paths that name components and properties.
//!
//! An address such as `App.Header.title` is a path of segments separated by
//! `.`; a segment in parentheses may itself hold dots. The last segment decides
//! the kind: a capital initial names a component, any other initial a property.

use vstd::prelude::*;
use vstd::string::*;
use crate::text::{is_upper, is_alnum, chars_of, char_is_uppercase, char_is_alphanumeric, string_of_range};

verus! {

/// An address given by its textual key.
#[derive(Debug, Clone, PartialEq)]
pub enum AddressKey {
    Component(String),
    Property(String),
    Root,
    Invalid,
}

/// The mathematical value of an `AddressKey`.
pub enum AddressView {
    Component(Seq<char>),
    Property(Seq<char>),
    Root,
    Invalid,
}

impl AddressKey {
    pub open spec fn view(&self) -> AddressView {
        match self {
            AddressKey::Component(s) => AddressView::Component(s@),
            AddressKey::Property(s) => AddressView::Property(s@),
            AddressKey::Root => AddressView::Root,
            AddressKey::Invalid => AddressView::Invalid,
        }
    }
}

/// Index of the last character of `s[..n]` that is not a `.`, or -1.
pub open spec fn last_non_dot(s: Seq<char>, n: int) -> int
    decreases n,
{
    if n <= 0 {
        -1
    } else if s[n - 1] != '.' {
        n - 1
    } else {
        last_non_dot(s, n - 1)
    }
}

/// Start of the segment that holds index `k`: just after the nearest `.` before it.
pub open spec fn segment_start(s: Seq<char>, k: int) -> int
    decreases k,
{
    if k <= 0 {
        0
    } else if s[k - 1] == '.' {
        k
    } else {
        segment_start(s, k - 1)
    }
}

/// The first character of the last non-empty `.`-separated segment of `s`.
pub open spec fn key_initial(s: Seq<char>) -> Option<char> {
    let k = last_non_dot(s, s.len() as int);
    if k < 0 {
        None
    } else {
        Some(s[segment_start(s, k)])
    }
}

/// The address a key denotes on its own: a component when the last non-empty
/// segment starts with an uppercase letter, a property when it starts with
/// anything else, and invalid when there is no non-empty segment.
pub open spec fn address_of_text(s: Seq<char>) -> AddressView {
    match key_initial(s) {
        None => AddressView::Invalid,
        Some(c) => if is_upper(c) {
            AddressView::Component(s)
        } else {
            AddressView::Property(s)
        },
    }
}

/// The first character of the last non-empty segment of `cs`.
pub fn initial_of(cs: &Vec<char>) -> (r: Option<char>)
    ensures
        r == key_initial(cs@),
{
    let mut n = cs.len();
    while n > 0 && cs[n - 1] == '.'
        invariant
            n <= cs@.len(),
            last_non_dot(cs@, n as int) == last_non_dot(cs@, cs@.len() as int),
        decreases n,
    {
        n = n - 1;
    }
    if n == 0 {
        return None;
    }
    let k = n - 1;
    let mut j = k;
    while j > 0 && cs[j - 1] != '.'
        invariant
            j <= k < cs@.len(),
            segment_start(cs@, j as int) == segment_start(cs@, k as int),
        decreases j,
    {
        j = j - 1;
    }
    Some(cs[j])
}

impl AddressKey {
    /// Classifies a key by its last non-empty segment.
    pub fn from_string(s: &str) -> (r: AddressKey)
        ensures
            r@ == address_of_text(s@),
    {
        let cs = chars_of(s);
        match initial_of(&cs) {
            Some(c) => {
                if char_is_uppercase(c) {
                    AddressKey::Component(s.to_string())
                } else {
                    AddressKey::Property(s.to_string())
                }
            },
            None => AddressKey::Invalid,
        }
    }
}

/// Walking back over a key from its end (`i` characters still to read), the
/// place where the address `by` segments up ends, and whether the segment
/// read last before that place started with an uppercase letter. Parentheses
/// group segments; reaching an unmatched `(` makes the address invalid (`None`).
pub open spec fn back_scan(s: Seq<char>, i: int, closure: int, by: int, end: int, upper: bool) -> Option<(int, bool)>
    decreases i,
{
    if i <= 0 {
        Some((end, upper))
    } else {
        let c = s[i - 1];
        if c == '(' {
            if closure == 0 {
                None
            } else {
                back_scan(s, i - 1, closure - 1, by, end, upper)
            }
        } else if c == ')' {
            back_scan(s, i - 1, closure + 1, by, end, upper)
        } else if closure == 0 && c == '.' {
            if by == 0 {
                back_scan(s, i - 1, closure, by, end, upper)
            } else if by == 1 {
                back_scan(s, i - 1, closure, 0, if end == 0 { i - 1 } else { end }, upper)
            } else {
                back_scan(s, i - 1, closure, by - 1, end, upper)
            }
        } else if is_alnum(c) && by == 1 && i >= 2 && s[i - 2] == '.' {
            back_scan(s, i - 1, closure, by, end, is_upper(c))
        } else {
            back_scan(s, i - 1, closure, by, end, upper)
        }
    }
}

/// The address `by` segments up from a key: the key cut before the `by`-th
/// top-level `.` from its end, a component when the segment read last before
/// the cut (walking back) starts with an uppercase letter and a property
/// otherwise; the root when no cut is made.
pub open spec fn back_of_text(s: Seq<char>, by: int) -> AddressView {
    match back_scan(s, s.len() as int, 0, by, 0, false) {
        None => AddressView::Invalid,
        Some(r) => if r.0 != 0 {
            if r.1 {
                AddressView::Component(s.take(r.0))
            } else {
                AddressView::Property(s.take(r.0))
            }
        } else {
            AddressView::Root
        },
    }
}

pub open spec fn back_view(a: AddressView, by: int) -> AddressView {
    match a {
        AddressView::Component(s) => back_of_text(s, by),
        AddressView::Property(s) => back_of_text(s, by),
        AddressView::Root => AddressView::Root,
        AddressView::Invalid => AddressView::Invalid,
    }
}

/// The text of a component or property key.
pub open spec fn key_text(a: AddressView) -> Option<Seq<char>> {
    match a {
        AddressView::Component(s) => Some(s),
        AddressView::Property(s) => Some(s),
        _ => None,
    }
}

fn back_of_key(key: &String, by: u32) -> (r: AddressKey)
    ensures
        r@ == back_of_text(key@, by as int),
{
    let cs = chars_of(key.as_str());
    let n = cs.len();
    let mut i = cs.len();
    let mut closure: usize = 0;
    let mut left = by;
    let mut end: usize = 0;
    let mut upper = false;
    let ghost by0 = by as int;
    while i > 0
        invariant
            i <= cs@.len() == n,
            cs@ == key@,
            by0 == by as int,
            end <= cs@.len(),
            closure <= cs@.len() - i,
            back_scan(cs@, i as int, closure as int, left as int, end as int, upper)
                == back_scan(cs@, cs@.len() as int, 0, by0, 0, false),
        decreases i,
    {
        let c = cs[i - 1];
        if c == '(' {
            if closure == 0 {
                assert(back_scan(cs@, i as int, closure as int, left as int, end as int, upper) is None);
                return AddressKey::Invalid;
            }
            closure = closure - 1;
        } else if c == ')' {
            closure = closure + 1;
        } else if closure == 0 && c == '.' {
            if left == 1 {
                left = 0;
                if end == 0 {
                    end = i - 1;
                }
            } else if left > 1 {
                left = left - 1;
            }
        } else if char_is_alphanumeric(c) && left == 1 && i >= 2 && cs[i - 2] == '.' {
            upper = char_is_uppercase(c);
        }
        i = i - 1;
    }
    if end != 0 {
        let prefix = string_of_range(&cs, 0, end);
        assert(cs@.subrange(0, end as int) =~= key@.take(end as int));
        if upper {
            AddressKey::Component(prefix)
        } else {
            AddressKey::Property(prefix)
        }
    } else {
        AddressKey::Root
    }
}

impl AddressKey {
    /// The address `by` segments up.
    pub fn back(&self, by: u32) -> (r: AddressKey)
        ensures
            r@ == back_view(self@, by as int),
    {
        match self {
            AddressKey::Component(key) => back_of_key(key, by),
            AddressKey::Property(key) => back_of_key(key, by),
            AddressKey::Root => AddressKey::Root,
            AddressKey::Invalid => AddressKey::Invalid,
        }
    }

    /// The key text of a component or property address.
    pub fn to_optional_string(&self) -> (r: Option<String>)
        ensures
            r is Some <==> key_text(self@) is Some,
            r matches Some(t) ==> t@ == key_text(self@)->0,
    {
        match self {
            AddressKey::Component(s) => Some(s.clone()),
            AddressKey::Property(s) => Some(s.clone()),
            _ => None,
        }
    }

    /// The key text, or the empty string for the root and invalid addresses.
    pub fn to_string(&self) -> (r: String)
        ensures
            r@ == match key_text(self@) {
                Some(t) => t,
                None => Seq::<char>::empty(),
            },
    {
        match self.to_optional_string() {
            Some(s) => s,
            None => String::new(),
        }
    }

    pub fn is_component(&self) -> (r: bool)
        ensures
            r == (self@ is Component),
    {
        match self {
            AddressKey::Component(_) => true,
            _ => false,
        }
    }

    pub fn is_property(&self) -> (r: bool)
        ensures
            r == (self@ is Property),
    {
        match self {
            AddressKey::Property(_) => true,
            _ => false,
        }
    }
}

/// An address given by a position in the registry.
#[derive(Debug, Clone, PartialEq, Eq, Structural)]
pub enum AddressID {
    Component(usize),
    Property(usize),
    Root,
    Invalid,
}

/// Where a component or property is attached: a component, the root, or nowhere valid.
#[derive(Debug, Clone, Copy, PartialEq, Eq, Structural)]
pub enum Origin {
    Component(usize),
    Root,
    Invalid,
}

impl Origin {
    pub fn to_address_id(self) -> (r: AddressID)
        ensures
            r == match self {
                Origin::Component(c) => AddressID::Component(c),
                Origin::Root => AddressID::Root,
                Origin::Invalid => AddressID::Invalid,
            },
    {
        match self {
            Origin::Component(c) => AddressID::Component(c),
            Origin::Root => AddressID::Root,
            Origin::Invalid => AddressID::Invalid,
        }
    }
}

impl AddressID {
    /// The position of a component address; any other address is answered
    /// with a warning.
    pub fn to_component_id(&self) -> (r: Result<usize, Hiccup>)
        ensures
            match *self {
                AddressID::Component(id) => r == Ok::<usize, Hiccup>(id),
                _ => r matches Err(h) && h@ == HiccupView::Warning(Line::Unknown, not_component_text(), Seq::empty()),
            },
    {
        match self {
            AddressID::Component(id) => Ok(*id),
            _ => Err(Hiccup::Warning(Line::Unknown, String::from_str("the address is not of type component"), String::new())),
        }
    }
}

pub open spec fn not_component_text() -> Seq<char> {
    "the address is not of type component"@
}

/// Where in the source a hiccup arose.
#[derive(Debug)]
pub enum Line {
    At(usize),
    Between(usize, usize),
    Unknown,
}

/// A problem met while building: its place, its cause and its effect.
#[derive(Debug)]
pub enum Hiccup {
    /// A major failure, such as failing to create or find a component.
    Error(Line, String, String),
    /// A minor failure that has a fallback.
    Warning(Line, String, String),
}

pub enum HiccupView {
    Error(Line, Seq<char>, Seq<char>),
    Warning(Line, Seq<char>, Seq<char>),
}

impl Hiccup {
    pub open spec fn view(&self) -> HiccupView {
        match self {
            Hiccup::Error(l, c, e) => HiccupView::Error(*l, c@, e@),
            Hiccup::Warning(l, c, e) => HiccupView::Warning(*l, c@, e@),
        }
    }
}

} // verus!
