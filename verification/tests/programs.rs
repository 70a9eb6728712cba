use uis_engine::address::{AddressKey, Hiccup, Line, Origin};
use uis_engine::registry::Uis;
use uis_engine::token::Token;

fn build(src: &str) -> Uis {
    let text = src.to_string();
    assert!(Uis::accepts_string(&text));
    Uis::new_from_string(text)
}

fn keys(uis: &Uis) -> Vec<String> {
    (0..uis.component_count()).map(|i| uis.component_at(i).unwrap().0.clone()).collect()
}

fn property_keys(uis: &Uis) -> Vec<String> {
    (0..uis.property_count()).map(|i| uis.property_at(i).unwrap().0.clone()).collect()
}

fn lines(uis: &Uis) -> Vec<String> {
    uis.hiccups()
        .iter()
        .map(|h| match h {
            Hiccup::Error(Line::At(l), c, _) => format!("at {} {}", l, c),
            Hiccup::Error(Line::Between(a, b), c, _) => format!("between {} {} {}", a, b, c),
            Hiccup::Error(Line::Unknown, c, _) => format!("error {}", c),
            Hiccup::Warning(_, c, _) => format!("warning {}", c),
        })
        .collect()
}

#[test]
fn nested_components() {
    let uis = build("+App\n\t+Header\n\t+Footer\n");
    assert_eq!(keys(&uis), vec!["App", "App.Header", "App.Footer"]);
    let (_, app) = uis.component_at(0).unwrap();
    assert_eq!(app.components, vec![1, 2]);
    assert!(uis.hiccups().is_empty());
}

#[test]
fn component_ids_are_positions() {
    let uis = build("+App\n\t+Header\n+Side\n\t+Menu\n");
    for i in 0..uis.component_count() {
        assert_eq!(uis.component_at(i).unwrap().1.id(), i);
    }
    assert_eq!(keys(&uis), vec!["App", "App.Header", "Side", "Side.Menu"]);
}

#[test]
fn properties_hold_their_expression() {
    let uis = build("+App\n\t+title: \"Hello\" 12px\n");
    assert_eq!(property_keys(&uis), vec!["App.title"]);
    let (_, title) = uis.property_at(0).unwrap();
    assert_eq!(title.origin(), Origin::Component(0));
    assert_eq!(
        title.expression.as_ref().unwrap().tokens,
        vec![
            Token::Text("Hello".to_string()),
            Token::NumberPositive(12),
            Token::Unit(uis_engine::units::Unit::Pixel),
        ]
    );
}

#[test]
fn root_property() {
    let uis = build("color: #f\n");
    assert_eq!(property_keys(&uis), vec!["color"]);
    assert_eq!(uis.property_at(0).unwrap().1.origin(), Origin::Root);
}

#[test]
fn unusable_lines_are_reported_by_line() {
    // The line break after a property's expression is consumed with it, so the
    // next line stays under the property, where no component can be created.
    let uis = build("+App\n\t+title: \"Hello\"\n\t+Header\n\t\t+size: 12px\n+Footer");
    assert_eq!(keys(&uis), vec!["App"]);
    assert_eq!(property_keys(&uis), vec!["App.title"]);
    assert_eq!(
        lines(&uis),
        vec!["error Can't Add Component 'Header' inside of Properties".to_string(), "at 2 ()".to_string()]
    );
}

#[test]
fn skipped_runs_span_lines() {
    // The '$' yields no token, the '?' is skipped on line 2, and the empty
    // lines that follow extend the run up to the line before "+A".
    let uis = build("$\n?\n\n+A\n");
    assert_eq!(keys(&uis), vec!["A"]);
    assert_eq!(lines(&uis), vec!["between 2 4 ()".to_string()]);
    let uis = build("x\n\n\ny\n");
    assert_eq!(lines(&uis), vec!["between 1 4 ()".to_string(), "at 4 ()".to_string()]);
}

#[test]
fn derived_component_line() {
    let uis = build("+Button\nButton\n");
    assert_eq!(keys(&uis), vec!["Button", "Button[1]"]);
    assert_eq!(uis.component_at(0).unwrap().1.descendants, vec![1]);
    assert_eq!(uis.component_at(1).unwrap().1.ancestor, Some(0));
}

#[test]
fn modified_component_takes_no_new_properties() {
    // A colour swallows the character after each hex digit, so the final line
    // break is gone and the skipped run on line 2 is never concluded.
    let uis = build("@App\n\tcolor: #f\n");
    assert_eq!(uis.component_count(), 0);
    assert_eq!(uis.property_count(), 0);
    assert!(lines(&uis).is_empty());
    // With a second line break the colour also takes the '+', so "B" stays
    // inside the skipped run, which the last line break concludes.
    let uis = build("@App\n\tcolor: #f\n\n+B\n");
    assert_eq!(uis.component_count(), 0);
    assert_eq!(lines(&uis), vec!["at 2 ()".to_string()]);
}

#[test]
fn from_tokens_matches_from_string() {
    let src = "+App\n\t+Header\n";
    let a = Uis::new_from_string(src.to_string());
    let b = Uis::new_from_tokens(Token::from_string(src.to_string()));
    assert_eq!(keys(&a), keys(&b));
}

#[test]
fn deep_parenthesis_run_is_refused() {
    let tokens = |n: usize| {
        vec![
            Token::At,
            Token::PropertyKey(format!("a{}", ")".repeat(n))),
            Token::NewLineIndent(2, 1),
            Token::PropertyKey("b".to_string()),
            Token::Is,
            Token::NumberPositive(1),
        ]
    };
    assert!(Uis::accepts_tokens(&tokens(255)));
    assert!(!Uis::accepts_tokens(&tokens(256)));
    let uis = Uis::new_from_tokens(tokens(255));
    assert_eq!(uis.property_count(), 1);
    assert_eq!(AddressKey::Root.to_string(), "");
}
