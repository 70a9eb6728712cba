use uis_engine::token::Token;
use uis_engine::units::{Type, Unit};

fn lex(s: &str) -> Vec<Token> {
    Token::from_string(s.to_string())
}

#[test]
fn single_character_tokens() {
    assert_eq!(
        lex("?:;,⊻√π*+-=&|@"),
        vec![
            Token::HAS,
            Token::Is,
            Token::Also,
            Token::Comma,
            Token::Xor,
            Token::SquareRoot,
            Token::Unit(Unit::Pi),
            Token::Multiply,
            Token::Add,
            Token::Subtract,
            Token::Equal,
            Token::And,
            Token::Or,
            Token::At,
        ]
    );
}

#[test]
fn two_character_operators() {
    assert_eq!(lex("!&"), vec![Token::Nand]);
    assert_eq!(lex("!|"), vec![Token::Nor]);
    assert_eq!(lex("!!"), vec![Token::Factorial]);
    assert_eq!(lex("!="), vec![Token::NotEqual]);
    assert_eq!(lex("!"), vec![Token::Not]);
    assert_eq!(lex("^^"), vec![Token::Tetrate]);
    assert_eq!(lex("^"), vec![Token::Exponent]);
    assert_eq!(lex("~>"), vec![Token::RoundUp]);
    assert_eq!(lex("~"), vec![Token::Round]);
    assert_eq!(lex("<~"), vec![Token::RoundDown]);
    assert_eq!(lex("<="), vec![Token::LessThanOrEqual]);
    assert_eq!(lex("<"), vec![Token::LessThan]);
    assert_eq!(lex(">="), vec![Token::GreaterThanOrEqual]);
    assert_eq!(lex(">"), vec![Token::GreaterThan]);
    assert_eq!(lex("%%"), vec![Token::Modulo]);
    assert_eq!(lex("%|"), vec![Token::Xor]);
    assert_eq!(lex("%"), vec![Token::Unit(Unit::Percent)]);
    assert_eq!(lex("/"), vec![Token::Divide]);
}

#[test]
fn operator_followed_by_other_character_gives_nothing() {
    // A `!`, `<` or `%` that is neither last nor followed by its partner is dropped.
    assert_eq!(lex("!a"), vec![Token::PropertyKey("a".to_string())]);
    assert_eq!(lex("< 1"), vec![Token::NumberPositive(1)]);
    assert_eq!(lex("% "), vec![]);
}

#[test]
fn text_and_alias() {
    assert_eq!(lex("\"Hello world\""), vec![Token::Text("Hello world".to_string())]);
    assert_eq!(lex("'name'"), vec![Token::Alias("name".to_string())]);
    assert_eq!(lex("\"open"), vec![Token::Text("open".to_string())]);
}

#[test]
fn line_breaks_count_tabs() {
    assert_eq!(
        lex("a\n\t\tb\nc"),
        vec![
            Token::PropertyKey("a".to_string()),
            Token::NewLineIndent(2, 2),
            Token::PropertyKey("b".to_string()),
            Token::NewLineIndent(3, 0),
            Token::PropertyKey("c".to_string()),
        ]
    );
}

#[test]
fn line_breaks_inside_text_are_counted() {
    assert_eq!(
        lex("\"a\nb\"\n"),
        vec![Token::Text("a\nb".to_string()), Token::NewLineIndent(3, 0)]
    );
}

#[test]
fn carriage_returns_become_line_breaks() {
    assert_eq!(lex("a\r\nb"), lex("a\nb"));
    assert_eq!(lex("a\rb"), lex("a\nb"));
    assert_eq!(lex("a\r\r\nb"), lex("a\n\nb"));
}

#[test]
fn comments_are_dropped() {
    assert_eq!(lex("a // note\nb"), vec![
        Token::PropertyKey("a".to_string()),
        Token::NewLineIndent(2, 0),
        Token::PropertyKey("b".to_string()),
    ]);
    // A block comment stops before the closing slash, which is then read again.
    assert_eq!(lex("/* x */"), vec![Token::Divide]);
    assert_eq!(lex("/*\n*/\n"), vec![Token::Divide, Token::NewLineIndent(3, 0)]);
}

#[test]
fn numbers_and_units() {
    assert_eq!(lex("42"), vec![Token::NumberPositive(42)]);
    assert_eq!(lex("1_000"), vec![Token::NumberPositive(1000)]);
    assert_eq!(lex("-5"), vec![Token::Subtract, Token::NumberNegative(5)]);
    assert_eq!(lex("12px"), vec![Token::NumberPositive(12), Token::Unit(Unit::Pixel)]);
    assert_eq!(lex("3km"), vec![Token::NumberPositive(3), Token::Unit(Unit::Kilometer)]);
    assert_eq!(lex("7xyz"), vec![Token::NumberPositive(7)]);
    assert_eq!(lex("1.5"), vec![Token::NumberFloat("1.5".to_string())]);
    // The second dot starts a run of dots, which drops the `3` after it.
    assert_eq!(lex("1.2.3"), vec![Token::NumberFloat("1.2".to_string())]);
}

#[test]
fn number_too_large_gives_no_token() {
    assert_eq!(lex("18446744073709551615"), vec![Token::NumberPositive(u64::MAX)]);
    assert_eq!(lex("18446744073709551616"), vec![]);
    assert_eq!(lex("18446744073709551616s"), vec![Token::Unit(Unit::Second)]);
}

#[test]
fn dots() {
    // One dot gives nothing; two a range; three or more all. The character
    // after each counted dot is skipped, and the first other one dropped.
    assert_eq!(lex(". a"), vec![Token::PropertyKey("a".to_string())]);
    assert_eq!(lex(".. a"), vec![Token::Range]);
    assert_eq!(lex("... a"), vec![Token::Range, Token::PropertyKey("a".to_string())]);
    assert_eq!(lex("..x. "), vec![Token::All]);
}

#[test]
fn colors_repeat_each_digit() {
    assert_eq!(lex("#abc"), vec![Token::Color("aacc".to_string())]);
    assert_eq!(lex("#ag"), vec![Token::Color("aa".to_string())]);
    assert_eq!(lex("#a\n"), vec![Token::Color("aa".to_string())]);
    assert_eq!(lex("#\nz"), vec![Token::Color("\n".to_string())]);
    assert_eq!(lex("#f"), vec![Token::Color("ff".to_string())]);
    assert_eq!(lex("#"), vec![Token::Color(String::new())]);
}

#[test]
fn groups() {
    assert_eq!(
        lex("(1 [2]) 3"),
        vec![
            Token::Parenthesees(vec![Token::NumberPositive(1), Token::Condition(vec![Token::NumberPositive(2)])]),
            Token::NumberPositive(3),
        ]
    );
    // An unmatched closing bracket ends the text.
    assert_eq!(lex("1 ) 2"), vec![Token::NumberPositive(1)]);
}

#[test]
fn words() {
    assert_eq!(lex("App.Header"), vec![Token::ComponentKey("App.Header".to_string())]);
    assert_eq!(lex("App.title"), vec![Token::PropertyKey("App.title".to_string())]);
    assert_eq!(lex("Button(x)"), vec![Token::ComponentKey("Button(x)".to_string())]);
    assert_eq!(lex("TEXT"), vec![Token::TypeSpecifier(Type::Text)]);
    assert_eq!(lex("NUMBER.SIGNED"), vec![Token::TypeSpecifier(Type::NumberSigned)]);
    // Digits make the word no type word; its last segment then makes it a property key.
    assert_eq!(lex("NUMBER.SIGNED.32"), vec![Token::PropertyKey("NUMBER.SIGNED.32".to_string())]);
    assert_eq!(lex("FOO"), vec![Token::ComponentKey("FOO".to_string())]);
    assert_eq!(lex("é"), vec![Token::PropertyKey("é".to_string())]);
    assert_eq!(lex("\t$"), vec![]);
}

#[test]
fn lexes_checks_dot_runs() {
    assert!(Token::lexes(&"a.b".to_string()));
    let long_run = format!(".{}", ".x".repeat(254));
    assert!(Token::lexes(&long_run));
    let too_long = format!(".{}", ".x".repeat(255));
    assert!(!Token::lexes(&too_long));
    let dots_in_text = format!("\"{}\"", ".".repeat(600));
    assert!(Token::lexes(&dots_in_text));
}

#[test]
fn duplicate_copies_nested_tokens() {
    let t = Token::Parenthesees(vec![Token::Text("x".to_string()), Token::Condition(vec![Token::At])]);
    assert_eq!(t.duplicate(), t);
}

#[test]
fn unit_names() {
    assert_eq!(Unit::parse("m"), Some(Unit::Meter));
    assert_eq!(Unit::parse("meters"), Some(Unit::Meter));
    assert_eq!(Unit::parse("Mm"), Some(Unit::Megameter));
    assert_eq!(Unit::parse("mm"), Some(Unit::Millimeter));
    assert_eq!(Unit::parse("µs"), Some(Unit::Microsecond));
    assert_eq!(Unit::parse("short ton"), Some(Unit::ShortTon));
    assert_eq!(Unit::parse("°c"), Some(Unit::Celsius));
    assert_eq!(Unit::parse("Ω"), Some(Unit::Ohm));
    assert_eq!(Unit::parse("π"), Some(Unit::Pi));
    assert_eq!(Unit::parse("%"), Some(Unit::Percent));
    assert_eq!(Unit::parse("M"), None);
    assert_eq!(Unit::parse(""), None);
}

#[test]
fn type_names() {
    assert_eq!(Type::from_string("NUMBER"), Some(Type::Number));
    assert_eq!(Type::from_string("NUMBER.FLOATINGPOINT.64"), Some(Type::NumberF64));
    assert_eq!(Type::from_string("COMPONENT"), Some(Type::ComponentReference));
    assert_eq!(Type::from_string("number"), None);
    assert_eq!(Type::from_tokens(vec![Token::At]), Type::Color);
}

#[test]
fn normalising_line_endings_first_changes_nothing() {
    for data in ["+App\r\n\t+title: \"a\r\nb\"\r+Side\n", "x\r\r\ny", "\r"] {
        let normalised = data.replace("\r\n", "\n").replace('\r', "\n");
        assert_eq!(lex(data), lex(&normalised));
    }
}
