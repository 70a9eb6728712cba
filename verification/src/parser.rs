//! Building a registry from tokens.
//!
//! The parser reads the tokens once. It keeps the current line and
//! indentation, a log of the addresses opened by earlier lines (each with the
//! indentation it was opened at), and the first and last line of a run of
//! lines it could not use. A line at the same or a lower indentation closes
//! the addresses opened at that depth or deeper; a line indented one step
//! further continues under the latest address; anything it cannot use is
//! skipped up to the next line that is not indented deeper, and reported.

use vstd::prelude::*;
use vstd::string::*;
use crate::address::{AddressKey, AddressView, AddressID, Origin, Line, HiccupView, address_of_text};
use crate::token::{Token, TokenView, view_seq};
use crate::lexer::{lexable, lex_text};
use crate::registry::{Uis, UisView, Value, Expression, ExpressionView, with_hiccup, empty_registry, Component, Property};
use crate::lookup::{address_id_of, add_view, add_overflows, origin_overflows, origin_view, origin_of, join_view,
    origin_fits};
use crate::creation::{build_view, build_overflows, property_view, expression_view, name_step, register_component,
    register_property, with_descendant, with_child};

verus! {

/// How an address entered the log.
#[derive(Debug, PartialEq, Eq, Structural, Clone, Copy)]
pub enum AddressState {
    New,
    Derive,
    Modify,
}

/// An address opened by a line, with the indentation of that line.
pub struct LogView {
    pub address: AddressView,
    pub indent: int,
    pub state: AddressState,
}

/// The parser's state besides the registry.
#[verifier::ext_equal]
pub struct ParseView {
    pub line: int,
    pub indent: int,
    pub log: Seq<LogView>,
    pub first: Option<int>,
    pub last: Option<int>,
}

pub open spec fn start_state() -> ParseView {
    ParseView { line: 1, indent: 0, log: Seq::empty(), first: None, last: None }
}

/// The latest opened address, or the root.
pub open spec fn latest(st: ParseView) -> LogView {
    if st.log.len() > 0 {
        st.log.last()
    } else {
        LogView { address: AddressView::Root, indent: 0, state: AddressState::New }
    }
}

/// Notes a skipped line: the first of a run, then the latest.
pub open spec fn noted(st: ParseView, line: int) -> ParseView {
    match st.first {
        Some(_) => ParseView { last: Some(line), ..st },
        None => ParseView { first: Some(line), ..st },
    }
}

pub open spec fn skipped_text() -> Seq<char> {
    "()"@
}

/// Ends a run of skipped lines, reporting it as an error at its line or lines.
pub open spec fn concluded(u: UisView, st: ParseView) -> (UisView, ParseView) {
    let u2 = match st.first {
        Some(f) => match st.last {
            None => with_hiccup(u, HiccupView::Error(Line::At(f as usize), skipped_text(), skipped_text())),
            Some(l) => with_hiccup(u, HiccupView::Error(Line::Between(f as usize, l as usize), skipped_text(), skipped_text())),
        },
        None => u,
    };
    (u2, ParseView { first: None, last: None, ..st })
}

/// The entries of the log opened at an indentation below `ni`.
pub open spec fn keep_below(log: Seq<LogView>, ni: int) -> Seq<LogView>
    decreases log.len(),
{
    if log.len() == 0 {
        log
    } else if log.last().indent < ni {
        keep_below(log.drop_last(), ni).push(log.last())
    } else {
        keep_below(log.drop_last(), ni)
    }
}

pub open spec fn pushed(st: ParseView, a: AddressView, state: AddressState) -> ParseView {
    ParseView { log: st.log.push(LogView { address: a, indent: st.indent, state }), ..st }
}

/// Where skipping from `q` stops: at the next line break whose indentation
/// is at most `indent` (left unread), or at the end.
pub open spec fn skip_end(ts: Seq<TokenView>, q: int, indent: int) -> int
    decreases ts.len() - q,
{
    if q < 0 || q >= ts.len() {
        q
    } else if ts[q] is NewLineIndent && ts[q]->NewLineIndent_1 <= indent {
        q
    } else {
        skip_end(ts, q + 1, indent)
    }
}

/// The tokens of an expression: up to the next line break, which is read
/// but not kept.
pub open spec fn expr_scan(ts: Seq<TokenView>, q: int, acc: Seq<TokenView>) -> (Seq<TokenView>, int)
    decreases ts.len() - q,
{
    if q < 0 || q >= ts.len() {
        (acc, q)
    } else if ts[q] is NewLineIndent {
        (acc, q + 1)
    } else {
        expr_scan(ts, q + 1, acc.push(ts[q]))
    }
}

pub proof fn lemma_skip_end(ts: Seq<TokenView>, q: int, indent: int)
    requires
        0 <= q <= ts.len(),
    ensures
        q <= skip_end(ts, q, indent) <= ts.len(),
    decreases ts.len() - q,
{
    if q < ts.len() && !(ts[q] is NewLineIndent && ts[q]->NewLineIndent_1 <= indent) {
        lemma_skip_end(ts, q + 1, indent);
    }
}

pub proof fn lemma_expr_scan(ts: Seq<TokenView>, q: int, acc: Seq<TokenView>)
    requires
        0 <= q <= ts.len(),
    ensures
        q <= expr_scan(ts, q, acc).1 <= ts.len(),
    decreases ts.len() - q,
{
    if q < ts.len() && !(ts[q] is NewLineIndent) {
        lemma_expr_scan(ts, q + 1, acc.push(ts[q]));
    }
}

pub open spec fn text_expression(x: Seq<TokenView>) -> Option<ExpressionView> {
    Some(ExpressionView { metadata: 0, tokens: x })
}

/// What the parser makes of the tokens from position `p` on. The flag is
/// false when a property would be placed under a property address whose walk
/// back to its origin counts more than 255 unmatched `)`.
pub open spec fn parse(ts: Seq<TokenView>, p: int, st: ParseView, u: UisView) -> (UisView, bool)
    decreases ts.len() - p,
{
    if p < 0 || p >= ts.len() {
        (u, true)
    } else {
        let p1 = p + 1;
        let has1 = p1 < ts.len();
        let has2 = p1 + 1 < ts.len();
        let la = latest(st);
        let q = if has1 { p1 + 1 } else { p1 };
        proof {
            lemma_skip_end(ts, p1, st.indent);
            lemma_skip_end(ts, q, st.indent);
        }
        match ts[p] {
            TokenView::NewLineIndent(nl, ni) => {
                if has1 && ts[p1] is NewLineIndent {
                    proof { lemma_skip_end(ts, p1, ts[p1]->NewLineIndent_1); }
                    parse(ts, skip_end(ts, p1, ts[p1]->NewLineIndent_1), noted(st, ts[p1]->NewLineIndent_0), u)
                } else if ni <= st.indent {
                    let c = concluded(u, ParseView { line: nl, indent: ni, ..st });
                    parse(ts, p1, ParseView { log: keep_below(st.log, ni), ..c.1 }, c.0)
                } else if ni == st.indent + 1 {
                    let c = concluded(u, ParseView { line: nl, indent: ni, ..st });
                    parse(ts, p1, c.1, c.0)
                } else {
                    proof { lemma_skip_end(ts, p1, ni); }
                    parse(ts, skip_end(ts, p1, ni), noted(st, nl), u)
                }
            },
            TokenView::Add => {
                if has2 && ts[p1] is ComponentKey && ts[p1 + 1] is NewLineIndent {
                    let b = build_view(u, la.address, Some(ts[p1]->ComponentKey_0), None);
                    proof { lemma_skip_end(ts, p1 + 1, st.indent); }
                    if b.1 is Component {
                        parse(ts, p1 + 1, pushed(st, b.1, AddressState::New), b.0)
                    } else {
                        parse(ts, skip_end(ts, p1 + 1, st.indent), noted(st, st.line), b.0)
                    }
                } else if has2 && ts[p1] is PropertyKey && ts[p1 + 1] is Is {
                    if la.address is Property && origin_overflows(la.address, u) {
                        (u, false)
                    } else {
                        let x = expr_scan(ts, p1 + 2, seq![]);
                        let b = property_view(u, la.address, ts[p1]->PropertyKey_0, Value::Color(None), text_expression(x.0));
                        proof {
                            lemma_expr_scan(ts, p1 + 2, seq![]);
                            lemma_skip_end(ts, x.1, st.indent);
                        }
                        if b.1 is Property {
                            parse(ts, x.1, pushed(st, b.1, AddressState::New), b.0)
                        } else {
                            parse(ts, skip_end(ts, x.1, st.indent), noted(st, st.line), b.0)
                        }
                    }
                } else {
                    parse(ts, skip_end(ts, q, st.indent), noted(st, st.line), u)
                }
            },
            TokenView::At => {
                if has2 && (ts[p1] is ComponentKey || ts[p1] is PropertyKey) && ts[p1 + 1] is NewLineIndent {
                    let key = if ts[p1] is ComponentKey { ts[p1]->ComponentKey_0 } else { ts[p1]->PropertyKey_0 };
                    proof { lemma_skip_end(ts, p1 + 1, st.indent); }
                    match address_of_text(key) {
                        AddressView::Component(k) => parse(ts, p1 + 1, pushed(st, AddressView::Component(k), AddressState::Modify), u),
                        AddressView::Property(k) => parse(ts, p1 + 1, pushed(st, AddressView::Property(k), AddressState::New), u),
                        _ => parse(ts, skip_end(ts, p1 + 1, st.indent), noted(st, st.line), u),
                    }
                } else {
                    parse(ts, skip_end(ts, q, st.indent), noted(st, st.line), u)
                }
            },
            TokenView::ComponentKey(key) => {
                if has1 && ts[p1] is NewLineIndent {
                    let b = build_view(u, la.address, None, Some(address_id_of(address_of_text(key), u)));
                    if b.1 is Component {
                        parse(ts, p1 + 1, pushed(st, b.1, AddressState::New), b.0)
                    } else {
                        parse(ts, skip_end(ts, p1 + 1, st.indent), noted(st, st.line), b.0)
                    }
                } else if has2 && ts[p1] is ComponentKey && (ts[p1 + 1] is NewLineIndent || ts[p1 + 1] is Parenthesees) {
                    let b = build_view(u, la.address, Some(ts[p1]->ComponentKey_0), None);
                    if b.1 is Component {
                        parse(ts, p1 + 1, pushed(st, b.1, AddressState::New), b.0)
                    } else {
                        parse(ts, skip_end(ts, p1 + 1, st.indent), noted(st, st.line), b.0)
                    }
                } else {
                    parse(ts, skip_end(ts, q, st.indent), noted(st, st.line), u)
                }
            },
            TokenView::PropertyKey(key) => {
                if has1 && ts[p1] is Is {
                    if la.state == AddressState::New {
                        if la.address is Property && origin_overflows(la.address, u) {
                            (u, false)
                        } else {
                            let x = expr_scan(ts, p1 + 1, seq![]);
                            let b = property_view(u, la.address, key, Value::Color(None), text_expression(x.0));
                            proof {
                                lemma_expr_scan(ts, p1 + 1, seq![]);
                                lemma_skip_end(ts, x.1, st.indent);
                            }
                            if b.1 is Property {
                                parse(ts, x.1, pushed(st, b.1, AddressState::New), b.0)
                            } else {
                                parse(ts, skip_end(ts, x.1, st.indent), noted(st, st.line), b.0)
                            }
                        }
                    } else {
                        parse(ts, p1 + 1, st, u)
                    }
                } else {
                    parse(ts, skip_end(ts, p1, st.indent), noted(st, st.line), u)
                }
            },
            _ => parse(ts, skip_end(ts, p1, st.indent), noted(st, st.line), u),
        }
    }
}

/// Every instance count is at most `b`.
pub open spec fn counts_at_most(u: UisView, b: int) -> bool {
    forall|k: Seq<char>| u.instances.contains_key(k) ==> u.instances[k] <= b
}

proof fn lemma_add_counts(a: AddressView, n: Seq<char>, u: UisView, b: int)
    requires
        counts_at_most(u, b),
        0 <= b < usize::MAX,
    ensures
        counts_at_most(add_view(a, n, u).0, b + 1),
        !add_overflows(a, n, u),
{
    match join_view(a, n) {
        AddressView::Component(k) => {
            if crate::registry::position_of(u.components, k) is Some && u.instances.contains_key(k) {
                assert(u.instances[k] <= b);
                let r = u.instances.insert(k, (u.instances[k] + 1) as usize);
                assert(r[k] == u.instances[k] + 1);
                assert forall|k2: Seq<char>| r.contains_key(k2) implies r[k2] <= b + 1 by {
                    if k2 != k {
                        assert(u.instances.contains_key(k2));
                        assert(r[k2] == u.instances[k2]);
                        assert(u.instances[k2] <= b);
                    } else {
                        assert(u.instances[k] <= b);
                        assert(r[k2] == u.instances[k] + 1);
                        assert(r[k2] <= b + 1);
                    }
                }
            } else if crate::registry::position_of(u.components, k) is Some {
                let r = u.instances.insert(k, 1);
                assert forall|k2: Seq<char>| r.contains_key(k2) implies r[k2] <= b + 1 by {
                    if k2 != k {
                        assert(u.instances.contains_key(k2));
                    }
                }
            }
        },
        _ => {},
    }
}

proof fn lemma_build_counts(u: UisView, a: AddressView, name: Option<Seq<char>>, ancestor: Option<AddressID>, b: int)
    requires
        counts_at_most(u, b),
        0 <= b < usize::MAX,
    ensures
        counts_at_most(build_view(u, a, name, ancestor).0, b + 1),
        !build_overflows(u, a, name, ancestor),
{
    let id = u.components.len() as int;
    match name_step(u, name, ancestor) {
        None => {},
        Some(step) => {
            let u1 = step.0;
            assert(u1.instances == u.instances);
            lemma_add_counts(a, step.1, u, b);
            lemma_add_counts(a, step.1, u1, b);
            match a {
                AddressView::Component(_) => {
                    match origin_of(a, u1) {
                        Origin::Component(oi) => {
                            lemma_add_counts(a, step.1, with_child(u1, oi as int, id), b);
                        },
                        _ => {},
                    }
                },
                _ => {},
            }
        },
    }
}

proof fn lemma_property_counts(u: UisView, a: AddressView, name: Seq<char>, value: Value, e: Option<ExpressionView>, b: int)
    requires
        counts_at_most(u, b),
        0 <= b < usize::MAX,
    ensures
        counts_at_most(property_view(u, a, name, value, e).0, b + 1),
        !add_overflows(a, name, u),
{
    lemma_add_counts(a, name, u, b);
    match a {
        AddressView::Property(_) => {
            lemma_add_counts(a, name, origin_view(a, u).0, b);
        },
        _ => {},
    }
}

/// An address in the parser's log.
struct AddressLog {
    address: AddressKey,
    indent: u32,
    state: AddressState,
}

impl AddressLog {
    spec fn view(&self) -> LogView {
        LogView { address: self.address@, indent: self.indent as int, state: self.state }
    }
}

/// The first and last line of a run of skipped lines.
struct SkipLog {
    first_line: Option<usize>,
    last_line: Option<usize>,
}

spec fn log_views(v: Seq<AddressLog>) -> Seq<LogView> {
    Seq::new(v.len(), |i: int| v[i]@)
}

spec fn opt_int(o: Option<usize>) -> Option<int> {
    match o {
        Some(x) => Some(x as int),
        None => None,
    }
}

spec fn state_of(line: u32, indent: u32, log: Seq<AddressLog>, skip: SkipLog) -> ParseView {
    ParseView {
        line: line as int,
        indent: indent as int,
        log: log_views(log),
        first: opt_int(skip.first_line),
        last: opt_int(skip.last_line),
    }
}

impl SkipLog {
    fn set(&mut self, line: usize)
        ensures
            opt_int(final(self).first_line) == noted(state_of(0, 0, Seq::empty(), *old(self)), line as int).first,
            opt_int(final(self).last_line) == noted(state_of(0, 0, Seq::empty(), *old(self)), line as int).last,
    {
        match self.first_line {
            Some(_) => self.last_line = Some(line),
            None => self.first_line = Some(line),
        }
    }

    fn conclude(&mut self, uis: &mut Uis)
        ensures
            final(self).first_line is None,
            final(self).last_line is None,
            final(uis)@ == concluded(old(uis)@, state_of(0, 0, Seq::empty(), *old(self))).0,
    {
        match self.first_line {
            Some(f) => match self.last_line {
                None => {
                    uis.push_hiccup(crate::address::Hiccup::Error(Line::At(f), String::from_str("()"), String::from_str("()")));
                },
                Some(l) => {
                    uis.push_hiccup(crate::address::Hiccup::Error(Line::Between(f, l), String::from_str("()"), String::from_str("()")));
                },
            },
            None => {},
        }
        self.first_line = None;
        self.last_line = None;
    }
}

fn is_newline(t: &Token) -> (r: bool)
    ensures
        r == (t@ is NewLineIndent),
{
    match t {
        Token::NewLineIndent(_, _) => true,
        _ => false,
    }
}

/// Notes the current line as skipped and skips the tokens that belong to it.
fn skip(skip_log: &mut SkipLog, tokens: &Vec<Token>, q: usize, line: u32, indent: u32) -> (r: usize)
    requires
        q <= tokens@.len(),
    ensures
        r == skip_end(view_seq(tokens@), q as int, indent as int),
        q <= r <= tokens@.len(),
        opt_int(final(skip_log).first_line) == noted(state_of(0, 0, Seq::empty(), *old(skip_log)), line as int).first,
        opt_int(final(skip_log).last_line) == noted(state_of(0, 0, Seq::empty(), *old(skip_log)), line as int).last,
{
    skip_log.set(line as usize);
    let ghost ts = view_seq(tokens@);
    let mut i = q;
    while i < tokens.len() && !stops_at(&tokens[i], indent)
        invariant
            q <= i <= tokens@.len(),
            ts == view_seq(tokens@),
            skip_end(ts, i as int, indent as int) == skip_end(ts, q as int, indent as int),
        decreases tokens@.len() - i,
    {
        i = i + 1;
    }
    i
}

fn stops_at(t: &Token, indent: u32) -> (r: bool)
    ensures
        r == (t@ is NewLineIndent && t@->NewLineIndent_1 <= indent),
{
    match t {
        Token::NewLineIndent(_, ind) => *ind <= indent,
        _ => false,
    }
}

/// The tokens up to the next line break, which is consumed.
fn map_expression(tokens: &Vec<Token>, q: usize) -> (r: (Expression, usize))
    requires
        q <= tokens@.len(),
    ensures
        r.0@ == (ExpressionView { metadata: 0, tokens: expr_scan(view_seq(tokens@), q as int, seq![]).0 }),
        r.1 as int == expr_scan(view_seq(tokens@), q as int, seq![]).1,
        q <= r.1 <= tokens@.len(),
{
    let mut expression = Expression::new();
    let ghost ts = view_seq(tokens@);
    let mut i = q;
    while i < tokens.len()
        invariant
            q <= i <= tokens@.len(),
            ts == view_seq(tokens@),
            expression@.metadata == 0,
            expr_scan(ts, i as int, expression@.tokens) == expr_scan(ts, q as int, seq![]),
        decreases tokens@.len() - i,
    {
        let t = &tokens[i];
        i = i + 1;
        if is_newline(t) {
            return (expression, i);
        }
        let c = t.duplicate();
        proof { crate::token::lemma_view_seq_push(expression.tokens@, c); }
        expression.tokens.push(c);
    }
    (expression, i)
}

fn copy_key(a: &AddressKey) -> (r: AddressKey)
    ensures
        r@ == a@,
{
    match a {
        AddressKey::Component(s) => AddressKey::Component(s.clone()),
        AddressKey::Property(s) => AddressKey::Property(s.clone()),
        AddressKey::Root => AddressKey::Root,
        AddressKey::Invalid => AddressKey::Invalid,
    }
}

/// The entries of the log opened at an indentation below `ni`.
fn keep_below_exec(log: &Vec<AddressLog>, ni: u32) -> (r: Vec<AddressLog>)
    ensures
        log_views(r@) == keep_below(log_views(log@), ni as int),
{
    let mut out: Vec<AddressLog> = Vec::new();
    let ghost all = log_views(log@);
    let mut i: usize = 0;
    assert(all.take(0) =~= Seq::<LogView>::empty());
    assert(log_views(out@) =~= Seq::<LogView>::empty());
    while i < log.len()
        invariant
            i <= log@.len(),
            all == log_views(log@),
            log_views(out@) == keep_below(all.take(i as int), ni as int),
        decreases log@.len() - i,
    {
        let e = &log[i];
        let ghost prefix = all.take(i + 1);
        assert(prefix.drop_last() =~= all.take(i as int));
        assert(prefix.last() == e@);
        if e.indent < ni {
            let c = AddressLog { address: copy_key(&e.address), indent: e.indent, state: e.state };
            assert(log_views(out@.push(c)) =~= log_views(out@).push(c@));
            out.push(c);
        }
        i = i + 1;
    }
    assert(all.take(log@.len() as int) =~= all);
    out
}

proof fn lemma_counts_mono(u: UisView, b: int, c: int)
    requires
        counts_at_most(u, b),
        b <= c,
    ensures
        counts_at_most(u, c),
{
}

fn is_component_key(t: &Token) -> (r: bool)
    ensures
        r == (t@ is ComponentKey),
{
    match t {
        Token::ComponentKey(_) => true,
        _ => false,
    }
}

fn is_property_key(t: &Token) -> (r: bool)
    ensures
        r == (t@ is PropertyKey),
{
    match t {
        Token::PropertyKey(_) => true,
        _ => false,
    }
}

fn is_is(t: &Token) -> (r: bool)
    ensures
        r == (t@ is Is),
{
    match t {
        Token::Is => true,
        _ => false,
    }
}

fn is_group(t: &Token) -> (r: bool)
    ensures
        r == (t@ is Parenthesees),
{
    match t {
        Token::Parenthesees(_) => true,
        _ => false,
    }
}

/// The key text of a component or property key token.
fn key_of(t: &Token) -> (r: &String)
    requires
        t@ is ComponentKey || t@ is PropertyKey,
    ensures
        t@ is ComponentKey ==> r@ == t@->ComponentKey_0,
        t@ is PropertyKey ==> r@ == t@->PropertyKey_0,
{
    match t {
        Token::ComponentKey(k) => k,
        Token::PropertyKey(k) => k,
        _ => vstd::pervasive::unreached(),
    }
}

fn newline_fields(t: &Token) -> (r: (u32, u32))
    requires
        t@ is NewLineIndent,
    ensures
        r.0 as int == t@->NewLineIndent_0,
        r.1 as int == t@->NewLineIndent_1,
{
    match t {
        Token::NewLineIndent(l, i) => (*l, *i),
        _ => (0, 0),
    }
}

/// The parser's state besides the registry.
struct Parser {
    line: u32,
    indent: u32,
    log: Vec<AddressLog>,
    skip_log: SkipLog,
}

impl Parser {
    spec fn view(&self) -> ParseView {
        state_of(self.line, self.indent, self.log@, self.skip_log)
    }

    /// The latest opened address and how it was opened, or the root.
    fn latest(&self) -> (r: (AddressKey, AddressState))
        ensures
            r.0@ == latest(self@).address,
            r.1 == latest(self@).state,
    {
        if self.log.len() > 0 {
            let e = &self.log[self.log.len() - 1];
            (copy_key(&e.address), e.state)
        } else {
            (AddressKey::Root, AddressState::New)
        }
    }

    /// Skips from `q` for the current line.
    fn skip_here(&mut self, tokens: &Vec<Token>, q: usize) -> (r: usize)
        requires
            q <= tokens@.len(),
        ensures
            r == skip_end(view_seq(tokens@), q as int, old(self)@.indent),
            q <= r <= tokens@.len(),
            final(self)@ == noted(old(self)@, old(self)@.line),
    {
        let r = skip(&mut self.skip_log, tokens, q, self.line, self.indent);
        assert(self@ =~= noted(old(self)@, old(self)@.line));
        r
    }

    /// Opens an address at the current indentation.
    fn open(&mut self, address: AddressKey, state: AddressState)
        ensures
            final(self)@ == pushed(old(self)@, address@, state),
    {
        let e = AddressLog { address, indent: self.indent, state };
        self.log.push(e);
        assert(self@ =~= pushed(old(self)@, e.address@, state));
    }
}

pub open spec fn step_ok(ts: Seq<TokenView>, pos: int, st: ParseView, u: UisView, r: Option<usize>, st2: ParseView, u2: UisView) -> bool {
    match r {
        Some(np) => pos < np <= ts.len() && counts_at_most(u2, np as int)
            && parse(ts, np as int, st2, u2) == parse(ts, pos, st, u),
        None => !parse(ts, pos, st, u).1,
    }
}

impl Parser {
    fn step_newline(&mut self, uis: &mut Uis, tokens: &Vec<Token>, pos: usize) -> (r: Option<usize>)
        requires
            pos < tokens@.len(),
            view_seq(tokens@)[pos as int] is NewLineIndent,
            counts_at_most(old(uis)@, pos as int),
        ensures
            step_ok(view_seq(tokens@), pos as int, old(self)@, old(uis)@, r, final(self)@, final(uis)@),
    {
        let ghost ts = view_seq(tokens@);
        let ghost st = self@;
        let ghost u = uis@;
        let n = tokens.len();
        let p1 = pos + 1;
        let (nl, ni) = newline_fields(&tokens[pos]);
        proof { lemma_counts_mono(u, pos as int, pos + 1); }
        if p1 < tokens.len() && is_newline(&tokens[p1]) {
            let (l, i) = newline_fields(&tokens[p1]);
            let r = skip(&mut self.skip_log, tokens, p1, l, i);
            assert(self@ =~= noted(st, l as int));
            proof { lemma_counts_mono(u, pos + 1, r as int); }
            Some(r)
        } else if ni <= self.indent {
            self.line = nl;
            self.indent = ni;
            self.skip_log.conclude(uis);
            self.log = keep_below_exec(&self.log, ni);
            assert(self@ =~= ParseView { log: keep_below(st.log, ni as int),
                ..concluded(u, ParseView { line: nl as int, indent: ni as int, ..st }).1 });
            Some(p1)
        } else if ni == self.indent + 1 {
            self.line = nl;
            self.indent = ni;
            self.skip_log.conclude(uis);
            assert(self@ =~= concluded(u, ParseView { line: nl as int, indent: ni as int, ..st }).1);
            Some(p1)
        } else {
            let r = skip(&mut self.skip_log, tokens, p1, nl, ni);
            assert(self@ =~= noted(st, nl as int));
            proof { lemma_counts_mono(u, pos + 1, r as int); }
            Some(r)
        }
    }

    /// Registers the component that a line creates, or skips the line.
    fn after_component(&mut self, tokens: &Vec<Token>, r: AddressKey, next: usize) -> (np: usize)
        requires
            next <= tokens@.len(),
        ensures
            np as int == if r@ is Component { next as int } else { skip_end(view_seq(tokens@), next as int, old(self)@.indent) },
            next <= np <= tokens@.len(),
            final(self)@ == if r@ is Component { pushed(old(self)@, r@, AddressState::New) } else { noted(old(self)@, old(self)@.line) },
    {
        match r {
            AddressKey::Component(k) => {
                self.open(AddressKey::Component(k), AddressState::New);
                next
            },
            _ => self.skip_here(tokens, next),
        }
    }

    /// Registers the property that a line creates, or skips the line.
    fn after_property(&mut self, tokens: &Vec<Token>, r: AddressKey, next: usize) -> (np: usize)
        requires
            next <= tokens@.len(),
        ensures
            np as int == if r@ is Property { next as int } else { skip_end(view_seq(tokens@), next as int, old(self)@.indent) },
            next <= np <= tokens@.len(),
            final(self)@ == if r@ is Property { pushed(old(self)@, r@, AddressState::New) } else { noted(old(self)@, old(self)@.line) },
    {
        match r {
            AddressKey::Property(k) => {
                self.open(AddressKey::Property(k), AddressState::New);
                next
            },
            _ => self.skip_here(tokens, next),
        }
    }

    fn step_add(&mut self, uis: &mut Uis, tokens: &Vec<Token>, pos: usize) -> (r: Option<usize>)
        requires
            pos < tokens@.len(),
            view_seq(tokens@)[pos as int] is Add,
            counts_at_most(old(uis)@, pos as int),
        ensures
            step_ok(view_seq(tokens@), pos as int, old(self)@, old(uis)@, r, final(self)@, final(uis)@),
    {
        let ghost ts = view_seq(tokens@);
        let ghost st = self@;
        let ghost u = uis@;
        let n = tokens.len();
        let p1 = pos + 1;
        let has2 = p1 < n && p1 + 1 < n;
        let (la, _) = self.latest();
        proof { lemma_counts_mono(u, pos as int, pos + 1); }
        if has2 && is_component_key(&tokens[p1]) && is_newline(&tokens[p1 + 1]) {
            let key = key_of(&tokens[p1]);
            proof { lemma_build_counts(u, la@, Some(key@), None, pos as int); }
            let r = Component::new(uis, &la, key.as_str());
            let np = self.after_component(tokens, r, p1 + 1);
            proof { lemma_counts_mono(uis@, pos + 1, np as int); }
            Some(np)
        } else if has2 && is_property_key(&tokens[p1]) && is_is(&tokens[p1 + 1]) {
            if la.is_property() && !origin_fits(&la, uis) {
                return None;
            }
            let key = key_of(&tokens[p1]);
            let (expr, after) = map_expression(tokens, p1 + 2);
            proof { lemma_property_counts(u, la@, key@, Value::Color(None), expression_view(Some(expr)), pos as int); }
            let r = Property::new(uis, &la, key.as_str(), Value::Color(None), Some(expr));
            let np = self.after_property(tokens, r, after);
            proof { lemma_counts_mono(uis@, pos + 1, np as int); }
            Some(np)
        } else {
            let q = if p1 < tokens.len() { p1 + 1 } else { p1 };
            let np = self.skip_here(tokens, q);
            proof { lemma_counts_mono(u, pos + 1, np as int); }
            Some(np)
        }
    }

    fn step_at(&mut self, uis: &mut Uis, tokens: &Vec<Token>, pos: usize) -> (r: Option<usize>)
        requires
            pos < tokens@.len(),
            view_seq(tokens@)[pos as int] is At,
            counts_at_most(old(uis)@, pos as int),
        ensures
            step_ok(view_seq(tokens@), pos as int, old(self)@, old(uis)@, r, final(self)@, final(uis)@),
    {
        let ghost ts = view_seq(tokens@);
        let ghost st = self@;
        let ghost u = uis@;
        let n = tokens.len();
        let p1 = pos + 1;
        let has2 = p1 < n && p1 + 1 < n;
        proof { lemma_counts_mono(u, pos as int, pos + 1); }
        if has2 && (is_component_key(&tokens[p1]) || is_property_key(&tokens[p1])) && is_newline(&tokens[p1 + 1]) {
            let key = key_of(&tokens[p1]);
            match AddressKey::from_string(key.as_str()) {
                AddressKey::Component(k) => {
                    self.open(AddressKey::Component(k), AddressState::Modify);
                    Some(p1 + 1)
                },
                AddressKey::Property(k) => {
                    self.open(AddressKey::Property(k), AddressState::New);
                    Some(p1 + 1)
                },
                _ => {
                    let np = self.skip_here(tokens, p1 + 1);
                    proof { lemma_counts_mono(u, pos + 1, np as int); }
                    Some(np)
                },
            }
        } else {
            let q = if p1 < tokens.len() { p1 + 1 } else { p1 };
            let np = self.skip_here(tokens, q);
            proof { lemma_counts_mono(u, pos + 1, np as int); }
            Some(np)
        }
    }

    fn step_component(&mut self, uis: &mut Uis, tokens: &Vec<Token>, pos: usize) -> (r: Option<usize>)
        requires
            pos < tokens@.len(),
            view_seq(tokens@)[pos as int] is ComponentKey,
            counts_at_most(old(uis)@, pos as int),
        ensures
            step_ok(view_seq(tokens@), pos as int, old(self)@, old(uis)@, r, final(self)@, final(uis)@),
    {
        let ghost ts = view_seq(tokens@);
        let ghost st = self@;
        let ghost u = uis@;
        let n = tokens.len();
        let p1 = pos + 1;
        let has1 = p1 < n;
        let has2 = p1 < n && p1 + 1 < n;
        let (la, _) = self.latest();
        let key = key_of(&tokens[pos]);
        proof { lemma_counts_mono(u, pos as int, pos + 1); }
        if has1 && is_newline(&tokens[p1]) {
            let ancestor = AddressID::from_string(key.as_str(), uis);
            proof { lemma_build_counts(u, la@, None, Some(ancestor), pos as int); }
            let r = Component::derived(uis, &la, &ancestor);
            let np = self.after_component(tokens, r, p1 + 1);
            proof { lemma_counts_mono(uis@, pos + 1, np as int); }
            Some(np)
        } else if has2 && is_component_key(&tokens[p1]) && (is_newline(&tokens[p1 + 1]) || is_group(&tokens[p1 + 1])) {
            let name = key_of(&tokens[p1]);
            proof { lemma_build_counts(u, la@, Some(name@), None, pos as int); }
            let r = Component::new(uis, &la, name.as_str());
            let np = self.after_component(tokens, r, p1 + 1);
            proof { lemma_counts_mono(uis@, pos + 1, np as int); }
            Some(np)
        } else {
            let q = if has1 { p1 + 1 } else { p1 };
            let np = self.skip_here(tokens, q);
            proof { lemma_counts_mono(u, pos + 1, np as int); }
            Some(np)
        }
    }

    fn step_property(&mut self, uis: &mut Uis, tokens: &Vec<Token>, pos: usize) -> (r: Option<usize>)
        requires
            pos < tokens@.len(),
            view_seq(tokens@)[pos as int] is PropertyKey,
            counts_at_most(old(uis)@, pos as int),
        ensures
            step_ok(view_seq(tokens@), pos as int, old(self)@, old(uis)@, r, final(self)@, final(uis)@),
    {
        let ghost ts = view_seq(tokens@);
        let ghost st = self@;
        let ghost u = uis@;
        let n = tokens.len();
        let p1 = pos + 1;
        let (la, la_state) = self.latest();
        let key = key_of(&tokens[pos]);
        proof { lemma_counts_mono(u, pos as int, pos + 1); }
        if p1 < tokens.len() && is_is(&tokens[p1]) {
            if la_state == AddressState::New {
                if la.is_property() && !origin_fits(&la, uis) {
                    return None;
                }
                let (expr, after) = map_expression(tokens, p1 + 1);
                proof { lemma_property_counts(u, la@, key@, Value::Color(None), expression_view(Some(expr)), pos as int); }
                let r = Property::new(uis, &la, key.as_str(), Value::Color(None), Some(expr));
                let np = self.after_property(tokens, r, after);
                proof { lemma_counts_mono(uis@, pos + 1, np as int); }
                Some(np)
            } else {
                Some(p1 + 1)
            }
        } else {
            let np = self.skip_here(tokens, p1);
            proof { lemma_counts_mono(u, pos + 1, np as int); }
            Some(np)
        }
    }

    fn step_other(&mut self, tokens: &Vec<Token>, pos: usize, uis: &Uis) -> (r: Option<usize>)
        requires
            pos < tokens@.len(),
            !(view_seq(tokens@)[pos as int] is NewLineIndent || view_seq(tokens@)[pos as int] is Add
                || view_seq(tokens@)[pos as int] is At || view_seq(tokens@)[pos as int] is ComponentKey
                || view_seq(tokens@)[pos as int] is PropertyKey),
            counts_at_most(uis@, pos as int),
        ensures
            step_ok(view_seq(tokens@), pos as int, old(self)@, uis@, r, final(self)@, uis@),
    {
        let n = tokens.len();
        let np = self.skip_here(tokens, pos + 1);
        proof { lemma_counts_mono(uis@, pos as int, np as int); }
        Some(np)
    }
}

impl Uis {
    /// Runs the parser. It stops and answers false at the first step that
    /// would walk back over more than 255 unmatched `)`; otherwise it answers
    /// true and the registry is what `parse` describes.
    fn run_tokens(&mut self, tokens: &Vec<Token>) -> (ok: bool)
        requires
            counts_at_most(old(self)@, 0),
        ensures
            ok == parse(view_seq(tokens@), 0, start_state(), old(self)@).1,
            ok ==> final(self)@ == parse(view_seq(tokens@), 0, start_state(), old(self)@).0,
    {
        let ghost ts = view_seq(tokens@);
        let ghost u0 = self@;
        let mut parser = Parser { line: 1, indent: 0, log: Vec::new(), skip_log: SkipLog { first_line: None, last_line: None } };
        let mut pos: usize = 0;
        assert(parser@ =~= start_state());
        while pos < tokens.len()
            invariant
                pos <= tokens@.len(),
                ts == view_seq(tokens@),
                u0 == old(self)@,
                counts_at_most(self@, pos as int),
                parse(ts, pos as int, parser@, self@) == parse(ts, 0, start_state(), u0),
            decreases tokens@.len() - pos,
        {
            let r = match &tokens[pos] {
                Token::NewLineIndent(_, _) => parser.step_newline(self, tokens, pos),
                Token::Add => parser.step_add(self, tokens, pos),
                Token::At => parser.step_at(self, tokens, pos),
                Token::ComponentKey(_) => parser.step_component(self, tokens, pos),
                Token::PropertyKey(_) => parser.step_property(self, tokens, pos),
                _ => parser.step_other(tokens, pos, self),
            };
            match r {
                Some(np) => {
                    pos = np;
                },
                None => {
                    return false;
                },
            }
        }
        true
    }

    fn map_tokens(&mut self, tokens: Vec<Token>)
        requires
            counts_at_most(old(self)@, 0),
            parse(view_seq(tokens@), 0, start_state(), old(self)@).1,
        ensures
            final(self)@ == parse(view_seq(tokens@), 0, start_state(), old(self)@).0,
    {
        let _ = self.run_tokens(&tokens);
    }

    /// A registry built from tokens.
    pub fn new_from_tokens(tokens: Vec<Token>) -> (r: Uis)
        requires
            parse(view_seq(tokens@), 0, start_state(), empty_registry()).1,
        ensures
            r@ == parse(view_seq(tokens@), 0, start_state(), empty_registry()).0,
    {
        let mut uis = Uis::new();
        uis.map_tokens(tokens);
        uis
    }

    /// A registry built from source text.
    pub fn new_from_string(data: String) -> (r: Uis)
        requires
            lexable(data@),
            parse(lex_text(data@).tokens, 0, start_state(), empty_registry()).1,
        ensures
            r@ == parse(lex_text(data@).tokens, 0, start_state(), empty_registry()).0,
    {
        Uis::new_from_tokens(Token::from_string(data))
    }

    /// Whether `new_from_tokens` accepts the tokens.
    pub fn accepts_tokens(tokens: &Vec<Token>) -> (r: bool)
        ensures
            r == parse(view_seq(tokens@), 0, start_state(), empty_registry()).1,
    {
        let mut uis = Uis::new();
        uis.run_tokens(tokens)
    }

    /// Whether `new_from_string` accepts the text.
    pub fn accepts_string(data: &String) -> (r: bool)
        ensures
            r == (lexable(data@) && parse(lex_text(data@).tokens, 0, start_state(), empty_registry()).1),
    {
        if !Token::lexes(data) {
            return false;
        }
        let tokens = Token::from_string(data.clone());
        Uis::accepts_tokens(&tokens)
    }
}

} // verus!
