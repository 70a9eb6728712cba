use uis_engine::address::{AddressID, AddressKey, Hiccup, Line, Origin};

fn c(s: &str) -> AddressKey {
    AddressKey::Component(s.to_string())
}

fn p(s: &str) -> AddressKey {
    AddressKey::Property(s.to_string())
}

#[test]
fn kind_follows_last_segment() {
    assert_eq!(AddressKey::from_string("App.Header"), c("App.Header"));
    assert_eq!(AddressKey::from_string("App.title"), p("App.title"));
    assert_eq!(AddressKey::from_string("a.B"), c("a.B"));
    assert_eq!(AddressKey::from_string("App."), c("App."));
    assert_eq!(AddressKey::from_string("x..Y.."), c("x..Y.."));
    assert_eq!(AddressKey::from_string("..."), AddressKey::Invalid);
    assert_eq!(AddressKey::from_string(""), AddressKey::Invalid);
    assert_eq!(AddressKey::from_string("Ünit"), c("Ünit"));
    assert_eq!(AddressKey::from_string("9lives"), p("9lives"));
}

#[test]
fn back_cuts_top_level_segments() {
    // The kind is read from the segment that is cut off.
    assert_eq!(c("A.B.c").back(1), p("A.B"));
    assert_eq!(c("A.b.C").back(1), c("A.b"));
    assert_eq!(c("A.B.C").back(2), c("A"));
    assert_eq!(c("App").back(1), AddressKey::Root);
    assert_eq!(c("A.B").back(0), AddressKey::Root);
    assert_eq!(p("A.(b.c)").back(1), p("A"));
    assert_eq!(c("(a").back(1), AddressKey::Invalid);
    assert_eq!(AddressKey::Root.back(3), AddressKey::Root);
    assert_eq!(AddressKey::Invalid.back(1), AddressKey::Invalid);
}

#[test]
fn key_text() {
    assert_eq!(c("App").to_optional_string(), Some("App".to_string()));
    assert_eq!(p("App.x").to_string(), "App.x".to_string());
    assert_eq!(AddressKey::Root.to_optional_string(), None);
    assert_eq!(AddressKey::Invalid.to_string(), String::new());
    assert!(c("A").is_component() && !c("A").is_property());
    assert!(p("a").is_property() && !p("a").is_component());
    assert!(!AddressKey::Root.is_component() && !AddressKey::Root.is_property());
}

#[test]
fn component_id_of_an_address_id() {
    assert_eq!(AddressID::Component(3).to_component_id().ok(), Some(3));
    match AddressID::Root.to_component_id() {
        Err(Hiccup::Warning(Line::Unknown, cause, effect)) => {
            assert_eq!(cause, "the address is not of type component");
            assert_eq!(effect, "");
        },
        _ => panic!("expected a warning"),
    }
    assert!(AddressID::Property(0).to_component_id().is_err());
}

#[test]
fn origin_to_address_id() {
    assert_eq!(Origin::Component(2).to_address_id(), AddressID::Component(2));
    assert_eq!(Origin::Root.to_address_id(), AddressID::Root);
    assert_eq!(Origin::Invalid.to_address_id(), AddressID::Invalid);
}

#[test]
fn back_one_level_gives_the_parent_of_the_same_kind() {
    for o in ["App", "a.b", "X.y.Z", "Ü"] {
        for n in ["Header", "title", "Ärger", "9lives"] {
            let k = AddressKey::from_string(&format!("{}.{}", o, n));
            let up = k.back(1);
            assert_eq!(up.to_string(), o.to_string());
            assert_eq!(up.is_component(), k.is_component());
            assert_eq!(up.is_property(), k.is_property());
        }
    }
}
