//! The lexer: from source text to tokens.
//!
//! The lexer reads the text once, left to right. Each function below names one
//! of its scans as a spec function over the characters `s`, a position `p` and
//! the current line number, and the executable scan is proved to compute it.

use vstd::prelude::*;
use crate::text::{is_alpha, is_alnum, is_ascii_hex, is_ascii_digit, is_ascii_letter,
    char_is_alphabetic, char_is_alphanumeric, push_char, string_of_range, chars_of};
use crate::units::{Unit, Type, unit_of, type_of};
use crate::token::{Token, TokenView, view_seq, lemma_view_seq_push, lemma_group_views};
use crate::address::{AddressKey, AddressView, address_of_text};

verus! {

/// The result of lexing from a position: the tokens, where reading stopped,
/// the line number reached, and whether the text was read without a fault.
pub struct Lexed {
    pub tokens: Seq<TokenView>,
    pub pos: int,
    pub line: int,
    pub ok: bool,
}

/// Text up to the closing quote `q` (which is consumed but not kept); a line
/// break inside counts as a new line.
pub open spec fn quoted(s: Seq<char>, p: int, line: int, q: char, acc: Seq<char>) -> (Seq<char>, int, int)
    decreases s.len() - p,
{
    if p < 0 || p >= s.len() {
        (acc, p, line)
    } else if s[p] == q {
        (acc, p + 1, line)
    } else {
        quoted(s, p + 1, if s[p] == '\n' { line + 1 } else { line }, q, acc.push(s[p]))
    }
}

/// Position of the line break that ends a `//` comment (or the end of text).
pub open spec fn line_end(s: Seq<char>, p: int) -> int
    decreases s.len() - p,
{
    if p < 0 || p >= s.len() || s[p] == '\n' {
        p
    } else {
        line_end(s, p + 1)
    }
}

/// Reads a `/*` comment from just after the `/`: it stops at a `*` directly
/// followed by `/`, leaving that `/` unread.
pub open spec fn block_end(s: Seq<char>, p: int, line: int) -> (int, int)
    decreases s.len() - p,
{
    if p < 0 || p >= s.len() {
        (p, line)
    } else if s[p] == '\n' {
        block_end(s, p + 1, line + 1)
    } else if s[p] == '*' && p + 1 < s.len() && s[p + 1] == '/' {
        (p + 1, line)
    } else {
        block_end(s, p + 1, line)
    }
}

/// Reads a color after `#`: each hexadecimal digit is kept twice and the
/// character after it is skipped, a line break is kept, and the first other
/// character ends the color and is dropped.
pub open spec fn color_scan(s: Seq<char>, p: int, line: int, acc: Seq<char>) -> (Seq<char>, int, int)
    decreases s.len() - p,
{
    if p < 0 || p >= s.len() {
        (acc, p, line)
    } else if s[p] == '\n' {
        color_scan(s, p + 1, line + 1, acc.push(s[p]))
    } else if is_ascii_hex(s[p]) {
        color_scan(s, if p + 1 < s.len() { p + 2 } else { p + 1 }, line, acc.push(s[p]).push(s[p]))
    } else {
        (acc, p + 1, line)
    }
}

/// Reads the digits of a number: digits are kept, the first `.` is kept and
/// makes it a float, `_` is skipped.
pub open spec fn digits_scan(s: Seq<char>, p: int, num: Seq<char>, float: bool) -> (Seq<char>, bool, int)
    decreases s.len() - p,
{
    if p < 0 || p >= s.len() {
        (num, float, p)
    } else if is_ascii_digit(s[p]) {
        digits_scan(s, p + 1, num.push(s[p]), float)
    } else if s[p] == '.' && !float {
        digits_scan(s, p + 1, num.push(s[p]), true)
    } else if s[p] == '_' {
        digits_scan(s, p + 1, num, float)
    } else {
        (num, float, p)
    }
}

/// End of a run of ASCII letters.
pub open spec fn letters_end(s: Seq<char>, p: int) -> int
    decreases s.len() - p,
{
    if p < 0 || p >= s.len() || !is_ascii_letter(s[p]) {
        p
    } else {
        letters_end(s, p + 1)
    }
}

/// End of a word: alphanumeric characters, `.`, `(` and `)`.
pub open spec fn word_end(s: Seq<char>, p: int) -> int
    decreases s.len() - p,
{
    if p < 0 || p >= s.len() || !(is_alnum(s[p]) || s[p] == '.' || s[p] == '(' || s[p] == ')') {
        p
    } else {
        word_end(s, p + 1)
    }
}

/// End of a run of tabs.
pub open spec fn tabs_end(s: Seq<char>, p: int) -> int
    decreases s.len() - p,
{
    if p < 0 || p >= s.len() || s[p] != '\t' {
        p
    } else {
        tabs_end(s, p + 1)
    }
}

/// Reads the rest of a run of dots, `n` having been counted: a `.` counts and
/// skips the next character, a line break is passed over, and any other
/// character ends the run and is dropped. The count is kept in a byte, so a
/// 256th dot is a fault (the last component of the result is false).
pub open spec fn dots_scan(s: Seq<char>, p: int, line: int, n: int) -> (int, int, int, bool)
    decreases s.len() - p,
{
    if p < 0 || p >= s.len() {
        (p, line, n, true)
    } else if s[p] == '.' {
        if n >= 255 {
            (p + 1, line, n, false)
        } else {
            dots_scan(s, if p + 1 < s.len() { p + 2 } else { p + 1 }, line, n + 1)
        }
    } else if s[p] == '\n' {
        dots_scan(s, p + 1, line + 1, n)
    } else {
        (p + 1, line, n, true)
    }
}

pub open spec fn digit_value(c: char) -> int {
    (c as int) - ('0' as int)
}

/// The value of a string of decimal digits.
pub open spec fn digits_value(ds: Seq<char>) -> int
    decreases ds.len(),
{
    if ds.len() == 0 {
        0
    } else {
        digits_value(ds.drop_last()) * 10 + digit_value(ds.last())
    }
}

/// The token of a character that stands alone.
pub open spec fn single_token(c: char) -> Option<TokenView> {
    if c == '?' { Some(TokenView::HAS) }
    else if c == ':' { Some(TokenView::Is) }
    else if c == ';' { Some(TokenView::Also) }
    else if c == ',' { Some(TokenView::Comma) }
    else if c == '⊻' { Some(TokenView::Xor) }
    else if c == '√' { Some(TokenView::SquareRoot) }
    else if c == 'π' { Some(TokenView::Unit(Unit::Pi)) }
    else if c == '*' { Some(TokenView::Multiply) }
    else if c == '+' { Some(TokenView::Add) }
    else if c == '-' { Some(TokenView::Subtract) }
    else if c == '=' { Some(TokenView::Equal) }
    else if c == '&' { Some(TokenView::And) }
    else if c == '|' { Some(TokenView::Or) }
    else if c == '@' { Some(TokenView::At) }
    else { None }
}

/// Whether every character is a capital letter, `.`, `(` or `)`.
pub open spec fn is_type_word(w: Seq<char>) -> bool {
    forall|i: int| 0 <= i < w.len() ==> ('A' <= #[trigger] w[i] <= 'Z' || w[i] == '.' || w[i] == '(' || w[i] == ')')
}

/// The tokens after a word: a type specifier when it is one, else a
/// component or property key by its last segment.
pub open spec fn word_tokens(w: Seq<char>, acc: Seq<TokenView>) -> Seq<TokenView> {
    if is_type_word(w) && type_of(w) is Some {
        acc.push(TokenView::TypeSpecifier(type_of(w)->0))
    } else {
        match address_of_text(w) {
            AddressView::Component(k) => acc.push(TokenView::ComponentKey(k)),
            AddressView::Property(k) => acc.push(TokenView::PropertyKey(k)),
            _ => acc,
        }
    }
}

/// The tokens after a number literal: a float when it holds a `.`, a negative
/// magnitude right after a `-`, else a positive number; an integer that does
/// not fit in 64 bits gives no token.
pub open spec fn number_tokens(num: Seq<char>, float: bool, acc: Seq<TokenView>) -> Seq<TokenView> {
    if float {
        acc.push(TokenView::NumberFloat(num))
    } else if digits_value(num) > u64::MAX {
        acc
    } else if acc.len() > 0 && acc.last() is Subtract {
        acc.push(TokenView::NumberNegative(digits_value(num)))
    } else {
        acc.push(TokenView::NumberPositive(digits_value(num)))
    }
}

/// The tokens after the unit letters that follow a number.
pub open spec fn unit_tokens(u: Seq<char>, acc: Seq<TokenView>) -> Seq<TokenView> {
    match unit_of(u) {
        Some(un) => acc.push(TokenView::Unit(un)),
        None => acc,
    }
}

/// What the lexer produces from position `p` on, having produced `acc`: it
/// stops at the end of the text or after an unmatched `)` or `]`.
pub open spec fn lex(s: Seq<char>, p: int, line: int, acc: Seq<TokenView>) -> Lexed
    decreases s.len() - p,
{
    if p < 0 || p >= s.len() {
        Lexed { tokens: acc, pos: p, line, ok: true }
    } else {
        let c = s[p];
        let p1 = p + 1;
        let next: Option<char> = if p1 < s.len() { Some(s[p1]) } else { None };
        if single_token(c) is Some {
            lex(s, p1, line, acc.push(single_token(c)->0))
        } else if c == '"' || c == '\'' {
            let q = quoted(s, p1, line, c, seq![]);
            let t = if c == '"' { TokenView::Text(q.0) } else { TokenView::Alias(q.0) };
            if p < q.1 <= s.len() { lex(s, q.1, q.2, acc.push(t)) } else { Lexed { tokens: acc, pos: p, line, ok: false } }
        } else if c == '(' || c == '[' {
            let inner = lex(s, p1, line, seq![]);
            let t = if c == '(' { TokenView::Parenthesees(inner.tokens) } else { TokenView::Condition(inner.tokens) };
            if !inner.ok || !(p < inner.pos <= s.len()) {
                Lexed { tokens: acc, pos: inner.pos, line: inner.line, ok: false }
            } else {
                lex(s, inner.pos, inner.line, acc.push(t))
            }
        } else if c == ')' || c == ']' {
            Lexed { tokens: acc, pos: p1, line, ok: true }
        } else if c == '.' {
            let d = dots_scan(s, p1, line, 1);
            let t = if d.2 == 1 { acc } else if d.2 == 2 { acc.push(TokenView::Range) } else { acc.push(TokenView::All) };
            if !d.3 || !(p < d.0 <= s.len()) { Lexed { tokens: acc, pos: d.0, line: d.1, ok: false } } else { lex(s, d.0, d.1, t) }
        } else if c == '!' {
            match next {
                None => lex(s, p1, line, acc.push(TokenView::Not)),
                Some(n) => if n == '&' {
                    lex(s, p1 + 1, line, acc.push(TokenView::Nand))
                } else if n == '|' {
                    lex(s, p1 + 1, line, acc.push(TokenView::Nor))
                } else if n == '!' {
                    lex(s, p1 + 1, line, acc.push(TokenView::Factorial))
                } else if n == '=' {
                    lex(s, p1 + 1, line, acc.push(TokenView::NotEqual))
                } else {
                    lex(s, p1, line, acc)
                },
            }
        } else if c == '^' {
            if next == Some('^') { lex(s, p1 + 1, line, acc.push(TokenView::Tetrate)) }
            else { lex(s, p1, line, acc.push(TokenView::Exponent)) }
        } else if c == '/' {
            if next == Some('/') {
                let e = line_end(s, p1);
                if p < e <= s.len() { lex(s, e, line, acc) } else { Lexed { tokens: acc, pos: p, line, ok: false } }
            } else if next == Some('*') {
                let b = block_end(s, p1, line);
                if p < b.0 <= s.len() { lex(s, b.0, b.1, acc) } else { Lexed { tokens: acc, pos: p, line, ok: false } }
            } else {
                lex(s, p1, line, acc.push(TokenView::Divide))
            }
        } else if c == '~' {
            if next == Some('>') { lex(s, p1 + 1, line, acc.push(TokenView::RoundUp)) }
            else { lex(s, p1, line, acc.push(TokenView::Round)) }
        } else if c == '<' {
            match next {
                None => lex(s, p1, line, acc.push(TokenView::LessThan)),
                Some(n) => if n == '~' {
                    lex(s, p1 + 1, line, acc.push(TokenView::RoundDown))
                } else if n == '=' {
                    lex(s, p1 + 1, line, acc.push(TokenView::LessThanOrEqual))
                } else {
                    lex(s, p1, line, acc)
                },
            }
        } else if c == '>' {
            if next == Some('=') { lex(s, p1 + 1, line, acc.push(TokenView::GreaterThanOrEqual)) }
            else { lex(s, p1, line, acc.push(TokenView::GreaterThan)) }
        } else if c == '%' {
            match next {
                None => lex(s, p1, line, acc.push(TokenView::Unit(Unit::Percent))),
                Some(n) => if n == '%' {
                    lex(s, p1 + 1, line, acc.push(TokenView::Modulo))
                } else if n == '|' {
                    lex(s, p1 + 1, line, acc.push(TokenView::Xor))
                } else {
                    lex(s, p1, line, acc)
                },
            }
        } else if c == '#' {
            let k = color_scan(s, p1, line, seq![]);
            if p < k.1 <= s.len() { lex(s, k.1, k.2, acc.push(TokenView::Color(k.0))) } else { Lexed { tokens: acc, pos: p, line, ok: false } }
        } else if is_ascii_digit(c) {
            let d = digits_scan(s, p, seq![], false);
            let e = letters_end(s, d.2);
            let t = unit_tokens(s.subrange(d.2, e), number_tokens(d.0, d.1, acc));
            if p < e <= s.len() { lex(s, e, line, t) } else { Lexed { tokens: acc, pos: p, line, ok: false } }
        } else if c == ' ' {
            lex(s, p1, line, acc)
        } else if c == '\n' {
            let e = tabs_end(s, p1);
            if p < e <= s.len() { lex(s, e, line + 1, acc.push(TokenView::NewLineIndent(line + 1, e - p1))) }
            else { Lexed { tokens: acc, pos: p, line, ok: false } }
        } else if is_alpha(c) {
            let e = word_end(s, p1);
            if p < e <= s.len() { lex(s, e, line, word_tokens(s.subrange(p, e), acc)) } else { Lexed { tokens: acc, pos: p, line, ok: false } }
        } else {
            lex(s, p1, line, acc)
        }
    }
}

fn scan_quoted(s: &Vec<char>, p: usize, line: u32, q: char) -> (r: (String, usize, u32))
    requires
        p <= s@.len(),
        line + (s@.len() - p) <= u32::MAX,
    ensures
        (r.0@, r.1 as int, r.2 as int) == quoted(s@, p as int, line as int, q, seq![]),
        p <= r.1 <= s@.len(),
        r.2 + (s@.len() - r.1) <= u32::MAX,
{
    let mut text = String::new();
    let mut i = p;
    let mut l = line;
    while i < s.len()
        invariant
            p <= i <= s@.len(),
            l + (s@.len() - i) <= u32::MAX,
            quoted(s@, i as int, l as int, q, text@) == quoted(s@, p as int, line as int, q, seq![]),
        decreases s@.len() - i,
    {
        let c = s[i];
        if c == q {
            return (text, i + 1, l);
        }
        if c == '\n' {
            l = l + 1;
        }
        push_char(&mut text, c);
        i = i + 1;
    }
    (text, i, l)
}

fn scan_line_end(s: &Vec<char>, p: usize) -> (e: usize)
    requires
        p <= s@.len(),
    ensures
        e == line_end(s@, p as int),
        p <= e <= s@.len(),
{
    let mut i = p;
    while i < s.len() && s[i] != '\n'
        invariant
            p <= i <= s@.len(),
            line_end(s@, i as int) == line_end(s@, p as int),
        decreases s@.len() - i,
    {
        i = i + 1;
    }
    i
}

fn scan_block_end(s: &Vec<char>, p: usize, line: u32) -> (r: (usize, u32))
    requires
        p <= s@.len(),
        line + (s@.len() - p) <= u32::MAX,
    ensures
        (r.0 as int, r.1 as int) == block_end(s@, p as int, line as int),
        p <= r.0 <= s@.len(),
        r.1 + (s@.len() - r.0) <= u32::MAX,
{
    let mut i = p;
    let mut l = line;
    while i < s.len()
        invariant
            p <= i <= s@.len(),
            l + (s@.len() - i) <= u32::MAX,
            block_end(s@, i as int, l as int) == block_end(s@, p as int, line as int),
        decreases s@.len() - i,
    {
        let c = s[i];
        if c == '\n' {
            l = l + 1;
        } else if c == '*' && i + 1 < s.len() && s[i + 1] == '/' {
            return (i + 1, l);
        }
        i = i + 1;
    }
    (i, l)
}

fn is_hex_digit(c: char) -> (r: bool)
    ensures
        r == is_ascii_hex(c),
{
    ('0' <= c && c <= '9') || ('a' <= c && c <= 'f') || ('A' <= c && c <= 'F')
}

fn scan_color(s: &Vec<char>, p: usize, line: u32) -> (r: (String, usize, u32))
    requires
        p <= s@.len(),
        line + (s@.len() - p) <= u32::MAX,
    ensures
        (r.0@, r.1 as int, r.2 as int) == color_scan(s@, p as int, line as int, seq![]),
        p <= r.1 <= s@.len(),
        r.2 + (s@.len() - r.1) <= u32::MAX,
{
    let mut color = String::new();
    let mut i = p;
    let mut l = line;
    while i < s.len()
        invariant
            p <= i <= s@.len(),
            l + (s@.len() - i) <= u32::MAX,
            color_scan(s@, i as int, l as int, color@) == color_scan(s@, p as int, line as int, seq![]),
        decreases s@.len() - i,
    {
        let c = s[i];
        if c == '\n' {
            l = l + 1;
            push_char(&mut color, c);
            i = i + 1;
        } else if is_hex_digit(c) {
            push_char(&mut color, c);
            push_char(&mut color, c);
            i = if i + 1 < s.len() { i + 2 } else { i + 1 };
        } else {
            return (color, i + 1, l);
        }
    }
    (color, i, l)
}

fn scan_digits(s: &Vec<char>, p: usize) -> (r: (Vec<char>, bool, usize))
    requires
        p <= s@.len(),
    ensures
        (r.0@, r.1, r.2 as int) == digits_scan(s@, p as int, seq![], false),
        p <= r.2 <= s@.len(),
        p < s@.len() && is_ascii_digit(s@[p as int]) ==> p < r.2,
        !r.1 ==> forall|i: int| 0 <= i < r.0@.len() ==> is_ascii_digit(#[trigger] r.0@[i]),
{
    let mut num: Vec<char> = Vec::new();
    let mut float = false;
    let mut i = p;
    while i < s.len() && (('0' <= s[i] && s[i] <= '9') || (s[i] == '.' && !float) || s[i] == '_')
        invariant
            p <= i <= s@.len(),
            digits_scan(s@, i as int, num@, float) == digits_scan(s@, p as int, seq![], false),
            i == p && p < s@.len() && is_ascii_digit(s@[p as int]) ==> !float,
            !float ==> forall|j: int| 0 <= j < num@.len() ==> is_ascii_digit(#[trigger] num@[j]),
        decreases s@.len() - i,
    {
        let c = s[i];
        if '0' <= c && c <= '9' {
            num.push(c);
        } else if c == '.' {
            float = true;
            num.push(c);
        }
        i = i + 1;
    }
    (num, float, i)
}

proof fn lemma_digits_value_push(ds: Seq<char>, c: char)
    ensures
        digits_value(ds.push(c)) == digits_value(ds) * 10 + digit_value(c),
{
    assert(ds.push(c).drop_last() =~= ds);
}

proof fn lemma_digits_value_nonneg(ds: Seq<char>)
    requires
        forall|i: int| 0 <= i < ds.len() ==> is_ascii_digit(#[trigger] ds[i]),
    ensures
        digits_value(ds) >= 0,
    decreases ds.len(),
{
    if ds.len() > 0 {
        lemma_digits_value_nonneg(ds.drop_last());
    }
}

/// The value of a string of digits, when it fits in 64 bits.
fn digits_to_u64(num: &Vec<char>) -> (r: Option<u64>)
    requires
        forall|i: int| 0 <= i < num@.len() ==> is_ascii_digit(#[trigger] num@[i]),
    ensures
        r is Some <==> digits_value(num@) <= u64::MAX,
        r matches Some(v) ==> v as int == digits_value(num@),
{
    let mut v: u64 = 0;
    let mut over = false;
    let mut i: usize = 0;
    assert(num@.take(0) =~= Seq::<char>::empty());
    while i < num.len()
        invariant
            i <= num@.len(),
            forall|j: int| 0 <= j < num@.len() ==> is_ascii_digit(#[trigger] num@[j]),
            !over ==> v as int == digits_value(num@.take(i as int)),
            over ==> digits_value(num@.take(i as int)) > u64::MAX,
        decreases num@.len() - i,
    {
        let c = num[i];
        assert(num@.take(i + 1) =~= num@.take(i as int).push(c));
        proof {
            lemma_digits_value_push(num@.take(i as int), c);
            lemma_digits_value_nonneg(num@.take(i as int));
        }
        let d = (c as u32 - '0' as u32) as u64;
        if !over {
            match v.checked_mul(10) {
                Some(t) => match t.checked_add(d) {
                    Some(u) => { v = u; },
                    None => { over = true; },
                },
                None => { over = true; },
            }
        }
        i = i + 1;
    }
    assert(num@.take(num@.len() as int) =~= num@);
    if over { None } else { Some(v) }
}

fn scan_letters_end(s: &Vec<char>, p: usize) -> (e: usize)
    requires
        p <= s@.len(),
    ensures
        e == letters_end(s@, p as int),
        p <= e <= s@.len(),
{
    let mut i = p;
    while i < s.len() && (('A' <= s[i] && s[i] <= 'Z') || ('a' <= s[i] && s[i] <= 'z'))
        invariant
            p <= i <= s@.len(),
            letters_end(s@, i as int) == letters_end(s@, p as int),
        decreases s@.len() - i,
    {
        i = i + 1;
    }
    i
}

fn is_word_char(c: char) -> (r: bool)
    ensures
        r == (is_alnum(c) || c == '.' || c == '(' || c == ')'),
{
    char_is_alphanumeric(c) || c == '.' || c == '(' || c == ')'
}

fn scan_word_end(s: &Vec<char>, p: usize) -> (e: usize)
    requires
        p <= s@.len(),
    ensures
        e == word_end(s@, p as int),
        p <= e <= s@.len(),
{
    let mut i = p;
    while i < s.len() && is_word_char(s[i])
        invariant
            p <= i <= s@.len(),
            word_end(s@, i as int) == word_end(s@, p as int),
        decreases s@.len() - i,
    {
        i = i + 1;
    }
    i
}

fn scan_tabs_end(s: &Vec<char>, p: usize) -> (e: usize)
    requires
        p <= s@.len(),
    ensures
        e == tabs_end(s@, p as int),
        p <= e <= s@.len(),
{
    let mut i = p;
    while i < s.len() && s[i] == '\t'
        invariant
            p <= i <= s@.len(),
            tabs_end(s@, i as int) == tabs_end(s@, p as int),
        decreases s@.len() - i,
    {
        i = i + 1;
    }
    i
}

fn scan_dots(s: &Vec<char>, p: usize, line: u32) -> (r: (usize, u32, u8, bool))
    requires
        p <= s@.len(),
        line + (s@.len() - p) <= u32::MAX,
    ensures
        (r.0 as int, r.1 as int, r.2 as int, r.3) == dots_scan(s@, p as int, line as int, 1),
        p <= r.0 <= s@.len(),
        r.1 + (s@.len() - r.0) <= u32::MAX,
{
    let mut i = p;
    let mut l = line;
    let mut dots: u8 = 1;
    while i < s.len()
        invariant
            p <= i <= s@.len(),
            l + (s@.len() - i) <= u32::MAX,
            dots_scan(s@, i as int, l as int, dots as int) == dots_scan(s@, p as int, line as int, 1),
        decreases s@.len() - i,
    {
        let c = s[i];
        if c == '.' {
            if dots == 255 {
                return (i + 1, l, dots, false);
            }
            dots = dots + 1;
            i = if i + 1 < s.len() { i + 2 } else { i + 1 };
        } else if c == '\n' {
            l = l + 1;
            i = i + 1;
        } else {
            return (i + 1, l, dots, true);
        }
    }
    (i, l, dots, true)
}

fn single(c: char) -> (r: Option<Token>)
    ensures
        r is Some <==> single_token(c) is Some,
        r matches Some(t) ==> t@ == single_token(c)->0,
{
    if c == '?' { Some(Token::HAS) }
    else if c == ':' { Some(Token::Is) }
    else if c == ';' { Some(Token::Also) }
    else if c == ',' { Some(Token::Comma) }
    else if c == '⊻' { Some(Token::Xor) }
    else if c == '√' { Some(Token::SquareRoot) }
    else if c == 'π' { Some(Token::Unit(Unit::Pi)) }
    else if c == '*' { Some(Token::Multiply) }
    else if c == '+' { Some(Token::Add) }
    else if c == '-' { Some(Token::Subtract) }
    else if c == '=' { Some(Token::Equal) }
    else if c == '&' { Some(Token::And) }
    else if c == '|' { Some(Token::Or) }
    else if c == '@' { Some(Token::At) }
    else { None }
}

fn is_type_chars(s: &Vec<char>, from: usize, to: usize) -> (r: bool)
    requires
        from <= to <= s@.len(),
    ensures
        r == is_type_word(s@.subrange(from as int, to as int)),
{
    let mut i = from;
    while i < to
        invariant
            from <= i <= to <= s@.len(),
            forall|j: int| from <= j < i ==> ('A' <= #[trigger] s@[j] <= 'Z' || s@[j] == '.' || s@[j] == '(' || s@[j] == ')'),
        decreases to - i,
    {
        let c = s[i];
        if !(('A' <= c && c <= 'Z') || c == '.' || c == '(' || c == ')') {
            assert(!('A' <= s@.subrange(from as int, to as int)[i - from] <= 'Z' || s@[i as int] == '.' || s@[i as int] == '(' || s@[i as int] == ')'));
            return false;
        }
        i = i + 1;
    }
    assert forall|j: int| 0 <= j < to - from implies ('A' <= #[trigger] s@.subrange(from as int, to as int)[j] <= 'Z'
        || s@.subrange(from as int, to as int)[j] == '.' || s@.subrange(from as int, to as int)[j] == '('
        || s@.subrange(from as int, to as int)[j] == ')') by {
        assert(s@.subrange(from as int, to as int)[j] == s@[from + j]);
    }
    true
}

/// Pushes the token of the word `s[from..to]`.
fn push_word(tokens: &mut Vec<Token>, s: &Vec<char>, from: usize, to: usize)
    requires
        from <= to <= s@.len(),
    ensures
        view_seq(final(tokens)@) == word_tokens(s@.subrange(from as int, to as int), view_seq(old(tokens)@)),
{
    let w = string_of_range(s, from, to);
    let ghost acc = view_seq(tokens@);
    if is_type_chars(s, from, to) {
        if let Some(t) = Type::from_string(w.as_str()) {
            proof { lemma_view_seq_push(tokens@, Token::TypeSpecifier(t)); }
            tokens.push(Token::TypeSpecifier(t));
            return;
        }
    }
    match AddressKey::from_string(w.as_str()) {
        AddressKey::Component(k) => {
            proof { lemma_view_seq_push(tokens@, Token::ComponentKey(k)); }
            tokens.push(Token::ComponentKey(k));
        },
        AddressKey::Property(k) => {
            proof { lemma_view_seq_push(tokens@, Token::PropertyKey(k)); }
            tokens.push(Token::PropertyKey(k));
        },
        _ => {},
    }
}

/// Pushes the tokens of a number literal and the unit letters after it.
fn push_number(tokens: &mut Vec<Token>, s: &Vec<char>, num: Vec<char>, float: bool, q: usize, e: usize)
    requires
        q <= e <= s@.len(),
        !float ==> forall|i: int| 0 <= i < num@.len() ==> is_ascii_digit(#[trigger] num@[i]),
    ensures
        view_seq(final(tokens)@) == unit_tokens(s@.subrange(q as int, e as int), number_tokens(num@, float, view_seq(old(tokens)@))),
{
    if float {
        let t = Token::NumberFloat(crate::text::string_of(&num));
        proof { lemma_view_seq_push(tokens@, t); }
        tokens.push(t);
    } else {
        match digits_to_u64(&num) {
            Some(v) => {
                let after_minus = tokens.len() > 0 && match &tokens[tokens.len() - 1] {
                    Token::Subtract => true,
                    _ => false,
                };
                let t = if after_minus { Token::NumberNegative(v) } else { Token::NumberPositive(v) };
                proof { lemma_view_seq_push(tokens@, t); }
                tokens.push(t);
            },
            None => {},
        }
    }
    let u = string_of_range(s, q, e);
    match Unit::parse(u.as_str()) {
        Some(un) => {
            proof { lemma_view_seq_push(tokens@, Token::Unit(un)); }
            tokens.push(Token::Unit(un));
        },
        None => {},
    }
}

/// Lexes from position `p0` until the end of the text or an unmatched `)`
/// or `]`. The flag is false exactly when the lexer faults (a run of more
/// than 255 dots); then the other parts are not meaningful.
pub fn lex_from(s: &Vec<char>, p0: usize, line0: u32) -> (r: (Vec<Token>, usize, u32, bool))
    requires
        p0 <= s@.len(),
        line0 + (s@.len() - p0) <= u32::MAX,
    ensures
        r.3 == lex(s@, p0 as int, line0 as int, seq![]).ok,
        r.3 ==> view_seq(r.0@) == lex(s@, p0 as int, line0 as int, seq![]).tokens,
        r.3 ==> r.1 as int == lex(s@, p0 as int, line0 as int, seq![]).pos,
        r.3 ==> r.2 as int == lex(s@, p0 as int, line0 as int, seq![]).line,
        r.3 ==> p0 <= r.1 <= s@.len() && r.2 + (s@.len() - r.1) <= u32::MAX,
    decreases s@.len() - p0,
{
    let mut tokens: Vec<Token> = Vec::new();
    let mut pos = p0;
    let mut line = line0;
    assert(view_seq(tokens@) =~= Seq::<TokenView>::empty());
    while pos < s.len()
        invariant
            p0 <= pos <= s@.len(),
            line + (s@.len() - pos) <= u32::MAX,
            lex(s@, pos as int, line as int, view_seq(tokens@)) == lex(s@, p0 as int, line0 as int, seq![]),
        decreases s@.len() - pos,
    {
        let c = s[pos];
        let p1 = pos + 1;
        let next: Option<char> = if p1 < s.len() { Some(s[p1]) } else { None };
        let ghost acc = view_seq(tokens@);
        if let Some(t) = single(c) {
            proof { lemma_view_seq_push(tokens@, t); }
            tokens.push(t);
            pos = p1;
        } else if c == '"' || c == '\'' {
            let (text, q, l) = scan_quoted(s, p1, line, c);
            let t = if c == '"' { Token::Text(text) } else { Token::Alias(text) };
            proof { lemma_view_seq_push(tokens@, t); }
            tokens.push(t);
            pos = q;
            line = l;
        } else if c == '(' || c == '[' {
            let (inner, ipos, iline, iok) = lex_from(s, p1, line);
            if !iok {
                return (tokens, ipos, iline, false);
            }
            proof { lemma_group_views(inner); }
            let t = if c == '(' { Token::Parenthesees(inner) } else { Token::Condition(inner) };
            proof { lemma_view_seq_push(tokens@, t); }
            tokens.push(t);
            pos = ipos;
            line = iline;
        } else if c == ')' || c == ']' {
            return (tokens, p1, line, true);
        } else if c == '.' {
            let (dp, dl, dn, dok) = scan_dots(s, p1, line);
            if !dok {
                return (tokens, dp, dl, false);
            }
            if dn == 2 {
                proof { lemma_view_seq_push(tokens@, Token::Range); }
                tokens.push(Token::Range);
            } else if dn != 1 {
                proof { lemma_view_seq_push(tokens@, Token::All); }
                tokens.push(Token::All);
            }
            pos = dp;
            line = dl;
        } else if c == '!' {
            match next {
                None => {
                    proof { lemma_view_seq_push(tokens@, Token::Not); }
                    tokens.push(Token::Not);
                    pos = p1;
                },
                Some(n) => {
                    if n == '&' {
                        proof { lemma_view_seq_push(tokens@, Token::Nand); }
                        tokens.push(Token::Nand);
                        pos = p1 + 1;
                    } else if n == '|' {
                        proof { lemma_view_seq_push(tokens@, Token::Nor); }
                        tokens.push(Token::Nor);
                        pos = p1 + 1;
                    } else if n == '!' {
                        proof { lemma_view_seq_push(tokens@, Token::Factorial); }
                        tokens.push(Token::Factorial);
                        pos = p1 + 1;
                    } else if n == '=' {
                        proof { lemma_view_seq_push(tokens@, Token::NotEqual); }
                        tokens.push(Token::NotEqual);
                        pos = p1 + 1;
                    } else {
                        pos = p1;
                    }
                },
            }
        } else if c == '^' {
            if next == Some('^') {
                proof { lemma_view_seq_push(tokens@, Token::Tetrate); }
                tokens.push(Token::Tetrate);
                pos = p1 + 1;
            } else {
                proof { lemma_view_seq_push(tokens@, Token::Exponent); }
                tokens.push(Token::Exponent);
                pos = p1;
            }
        } else if c == '/' {
            if next == Some('/') {
                pos = scan_line_end(s, p1);
            } else if next == Some('*') {
                let (b, l) = scan_block_end(s, p1, line);
                pos = b;
                line = l;
            } else {
                proof { lemma_view_seq_push(tokens@, Token::Divide); }
                tokens.push(Token::Divide);
                pos = p1;
            }
        } else if c == '~' {
            if next == Some('>') {
                proof { lemma_view_seq_push(tokens@, Token::RoundUp); }
                tokens.push(Token::RoundUp);
                pos = p1 + 1;
            } else {
                proof { lemma_view_seq_push(tokens@, Token::Round); }
                tokens.push(Token::Round);
                pos = p1;
            }
        } else if c == '<' {
            match next {
                None => {
                    proof { lemma_view_seq_push(tokens@, Token::LessThan); }
                    tokens.push(Token::LessThan);
                    pos = p1;
                },
                Some(n) => {
                    if n == '~' {
                        proof { lemma_view_seq_push(tokens@, Token::RoundDown); }
                        tokens.push(Token::RoundDown);
                        pos = p1 + 1;
                    } else if n == '=' {
                        proof { lemma_view_seq_push(tokens@, Token::LessThanOrEqual); }
                        tokens.push(Token::LessThanOrEqual);
                        pos = p1 + 1;
                    } else {
                        pos = p1;
                    }
                },
            }
        } else if c == '>' {
            if next == Some('=') {
                proof { lemma_view_seq_push(tokens@, Token::GreaterThanOrEqual); }
                tokens.push(Token::GreaterThanOrEqual);
                pos = p1 + 1;
            } else {
                proof { lemma_view_seq_push(tokens@, Token::GreaterThan); }
                tokens.push(Token::GreaterThan);
                pos = p1;
            }
        } else if c == '%' {
            match next {
                None => {
                    proof { lemma_view_seq_push(tokens@, Token::Unit(Unit::Percent)); }
                    tokens.push(Token::Unit(Unit::Percent));
                    pos = p1;
                },
                Some(n) => {
                    if n == '%' {
                        proof { lemma_view_seq_push(tokens@, Token::Modulo); }
                        tokens.push(Token::Modulo);
                        pos = p1 + 1;
                    } else if n == '|' {
                        proof { lemma_view_seq_push(tokens@, Token::Xor); }
                        tokens.push(Token::Xor);
                        pos = p1 + 1;
                    } else {
                        pos = p1;
                    }
                },
            }
        } else if c == '#' {
            let (color, k, l) = scan_color(s, p1, line);
            proof { lemma_view_seq_push(tokens@, Token::Color(color)); }
            tokens.push(Token::Color(color));
            pos = k;
            line = l;
        } else if '0' <= c && c <= '9' {
            let (num, float, q) = scan_digits(s, pos);
            let e = scan_letters_end(s, q);
            push_number(&mut tokens, s, num, float, q, e);
            pos = e;
        } else if c == ' ' {
            pos = p1;
        } else if c == '\n' {
            let e = scan_tabs_end(s, p1);
            let t = Token::NewLineIndent(line + 1, (e - p1) as u32);
            proof { lemma_view_seq_push(tokens@, t); }
            tokens.push(t);
            pos = e;
            line = line + 1;
        } else if char_is_alphabetic(c) {
            let e = scan_word_end(s, p1);
            push_word(&mut tokens, s, pos, e);
            pos = e;
        } else {
            pos = p1;
        }
    }
    (tokens, pos, line, true)
}

/// The text with every CR LF pair replaced by LF.
pub open spec fn crlf_to_lf(s: Seq<char>) -> Seq<char>
    decreases s.len(),
{
    if s.len() == 0 {
        seq![]
    } else if s.len() >= 2 && s[0] == '\r' && s[1] == '\n' {
        seq!['\n'] + crlf_to_lf(s.skip(2))
    } else {
        seq![s[0]] + crlf_to_lf(s.skip(1))
    }
}

/// The text with every CR replaced by LF.
pub open spec fn cr_to_lf(s: Seq<char>) -> Seq<char> {
    s.map_values(|c: char| if c == '\r' { '\n' } else { c })
}

/// The text that the lexer reads: line endings normalised to LF.
pub open spec fn sanitize(s: Seq<char>) -> Seq<char> {
    cr_to_lf(crlf_to_lf(s))
}

/// The tokens of a whole text.
pub open spec fn lex_text(data: Seq<char>) -> Lexed {
    lex(sanitize(data), 0, 1, seq![])
}

/// Whether the lexer reads the text without a fault; longer texts than a
/// 32-bit line counter can number are left out.
pub open spec fn lexable(data: Seq<char>) -> bool {
    data.len() < u32::MAX && lex_text(data).ok
}

pub(crate) proof fn lemma_crlf_len(s: Seq<char>)
    ensures
        crlf_to_lf(s).len() <= s.len(),
    decreases s.len(),
{
    if s.len() >= 2 && s[0] == '\r' && s[1] == '\n' {
        lemma_crlf_len(s.skip(2));
    } else if s.len() > 0 {
        lemma_crlf_len(s.skip(1));
    }
}

fn sanitize_chars(s: &Vec<char>) -> (r: Vec<char>)
    ensures
        r@ == sanitize(s@),
{
    let mut out: Vec<char> = Vec::new();
    let mut i: usize = 0;
    assert(s@.skip(0) =~= s@);
    while i < s.len()
        invariant
            i <= s@.len(),
            out@ + crlf_to_lf(s@.skip(i as int)) == crlf_to_lf(s@),
        decreases s@.len() - i,
    {
        let ghost rest = s@.skip(i as int);
        if i + 1 < s.len() && s[i] == '\r' && s[i + 1] == '\n' {
            assert(rest.skip(2) =~= s@.skip(i + 2));
            assert(out@.push('\n') + crlf_to_lf(s@.skip(i + 2)) =~= out@ + (seq!['\n'] + crlf_to_lf(rest.skip(2))));
            out.push('\n');
            i = i + 2;
        } else {
            assert(rest.skip(1) =~= s@.skip(i + 1));
            assert(out@.push(s@[i as int]) + crlf_to_lf(s@.skip(i + 1)) =~= out@ + (seq![rest[0]] + crlf_to_lf(rest.skip(1))));
            out.push(s[i]);
            i = i + 1;
        }
    }
    assert(out@ =~= crlf_to_lf(s@));
    let mut j: usize = 0;
    let ghost mid = out@;
    while j < out.len()
        invariant
            j <= out@.len() == mid.len(),
            forall|k: int| 0 <= k < j ==> out@[k] == cr_to_lf(mid)[k],
            forall|k: int| j <= k < out@.len() ==> out@[k] == mid[k],
        decreases out@.len() - j,
    {
        if out[j] == '\r' {
            out.set(j, '\n');
        }
        j = j + 1;
    }
    assert(out@ =~= cr_to_lf(mid));
    out
}

impl Token {
    /// The tokens of a source text.
    pub fn from_string(data: String) -> (r: Vec<Token>)
        requires
            lexable(data@),
        ensures
            view_seq(r@) == lex_text(data@).tokens,
    {
        let raw = chars_of(data.as_str());
        let s = sanitize_chars(&raw);
        proof { lemma_crlf_len(data@); }
        let (tokens, _, _, _) = lex_from(&s, 0, 1);
        tokens
    }

    /// Whether `from_string` accepts the text: it is not too long and has no
    /// run of more than 255 dots where the lexer counts them.
    pub fn lexes(data: &String) -> (r: bool)
        ensures
            r == lexable(data@),
    {
        let raw = chars_of(data.as_str());
        if raw.len() >= u32::MAX as usize {
            return false;
        }
        let s = sanitize_chars(&raw);
        proof { lemma_crlf_len(data@); }
        let (_, _, _, ok) = lex_from(&s, 0, 1);
        ok
    }
}

} // verus!
