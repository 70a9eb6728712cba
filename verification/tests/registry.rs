use uis_engine::address::{AddressID, AddressKey, Hiccup, Line, Origin};
use uis_engine::registry::{Component, Expression, Property, Uis, Value};
use uis_engine::token::Token;

fn c(s: &str) -> AddressKey {
    AddressKey::Component(s.to_string())
}

fn p(s: &str) -> AddressKey {
    AddressKey::Property(s.to_string())
}

fn error_texts(uis: &Uis) -> Vec<(String, String)> {
    uis.hiccups()
        .iter()
        .map(|h| match h {
            Hiccup::Error(_, cause, effect) => (format!("E {}", cause), effect.clone()),
            Hiccup::Warning(_, cause, effect) => (format!("W {}", cause), effect.clone()),
        })
        .collect()
}

fn keys(uis: &Uis) -> Vec<String> {
    (0..uis.component_count()).map(|i| uis.component_at(i).unwrap().0.clone()).collect()
}

#[test]
fn new_registry_is_empty() {
    let uis = Uis::new();
    assert_eq!(uis.component_count(), 0);
    assert_eq!(uis.property_count(), 0);
    assert!(uis.hiccups().is_empty());
    assert_eq!(Expression::new().tokens, Vec::<Token>::new());
}

#[test]
fn components_nest_and_record_children() {
    let mut uis = Uis::new();
    assert_eq!(Component::new(&mut uis, &AddressKey::Root, "App"), c("App"));
    assert_eq!(Component::new(&mut uis, &c("App"), "Header"), c("App.Header"));
    assert_eq!(Component::new(&mut uis, &c("App.Header"), "a.B"), c("App.Header.(a.B)"));
    assert_eq!(keys(&uis), vec!["App", "App.Header", "App.Header.(a.B)"]);
    let (_, app) = uis.component_at(0).unwrap();
    assert_eq!(app.id(), 0);
    assert_eq!(app.origin(), Origin::Root);
    assert_eq!(app.components, vec![1]);
    let (_, header) = uis.component_at(1).unwrap();
    assert_eq!(header.id(), 1);
    assert_eq!(header.origin(), Origin::Component(0));
    assert_eq!(header.components, vec![2]);
    assert!(uis.hiccups().is_empty());
}

#[test]
fn repeated_components_become_instances() {
    let mut uis = Uis::new();
    assert_eq!(Component::new(&mut uis, &AddressKey::Root, "Box"), c("Box"));
    assert_eq!(Component::new(&mut uis, &AddressKey::Root, "Box"), c("Box[1]"));
    assert_eq!(Component::new(&mut uis, &AddressKey::Root, "Box"), c("Box[2]"));
    assert_eq!(keys(&uis), vec!["Box", "Box[1]", "Box[2]"]);
}

#[test]
fn instance_of_a_bracketed_key() {
    let mut uis = Uis::new();
    assert_eq!(Component::new(&mut uis, &AddressKey::Root, "B[x]"), c("B[x]"));
    assert_eq!(Component::new(&mut uis, &AddressKey::Root, "B[x]"), c("B[x][1]"));
    // From the second instance on, a key ending in `]` repeats its head.
    assert_eq!(Component::new(&mut uis, &AddressKey::Root, "B[x]"), c("B[x][B]"));
    assert_eq!(Component::new(&mut uis, &AddressKey::Root, "B[x]"), AddressKey::Invalid);
    assert_eq!(keys(&uis), vec!["B[x]", "B[x][1]", "B[x][B]"]);
}

#[test]
fn taken_instance_key_is_refused() {
    let mut uis = Uis::new();
    Component::new(&mut uis, &AddressKey::Root, "A");
    Component::new(&mut uis, &AddressKey::Root, "A[1]");
    assert_eq!(Component::new(&mut uis, &AddressKey::Root, "A"), AddressKey::Invalid);
    assert_eq!(uis.component_count(), 2);
    assert_eq!(
        error_texts(&uis),
        vec![(
            format!("E {:#?} already exists", c("A[1]")),
            "Will therefore ommit the recreation of this component".to_string()
        )]
    );
    // The instance counter advanced all the same.
    assert_eq!(Component::new(&mut uis, &AddressKey::Root, "A"), c("A[2]"));
}

#[test]
fn component_errors() {
    let mut uis = Uis::new();
    assert_eq!(Component::new(&mut uis, &AddressKey::Root, "title"), AddressKey::Invalid);
    assert_eq!(Component::new(&mut uis, &p("x"), "Box"), AddressKey::Invalid);
    assert_eq!(Component::new(&mut uis, &AddressKey::Invalid, "Box"), AddressKey::Invalid);
    assert_eq!(Component::new(&mut uis, &c("Missing"), "Box"), AddressKey::Invalid);
    assert_eq!(Component::new(&mut uis, &AddressKey::Root, "..."), AddressKey::Invalid);
    let omit = "Will therefore ommit the creation of this component".to_string();
    assert_eq!(
        error_texts(&uis),
        vec![
            (
                format!(
                    "E 'title' is not a valid name for components, as it returns {:?}  due to the last segment of the address not starting in uppercase",
                    p("title")
                ),
                omit.clone()
            ),
            ("E Can't Add Component 'Box' inside of Properties".to_string(), omit.clone()),
            ("E Can't Add Component to an invalid Address".to_string(), omit.clone()),
            ("E Can't Add Component 'Box' to 'Missing' since set address does not exist".to_string(), omit.clone()),
            ("E '...' is not a valid name for components, as it returns Invalid ".to_string(), omit.clone()),
        ]
    );
    assert_eq!(uis.component_count(), 0);
}

#[test]
fn derived_components() {
    let mut uis = Uis::new();
    Component::new(&mut uis, &AddressKey::Root, "Button");
    assert_eq!(Component::derived(&mut uis, &AddressKey::Root, &AddressID::Component(0)), c("Button[1]"));
    let (_, base) = uis.component_at(0).unwrap();
    assert_eq!(base.descendants, vec![1]);
    let (_, copy) = uis.component_at(1).unwrap();
    assert_eq!(copy.ancestor, Some(0));
    // No ancestor to derive from: nothing happens, nothing is reported.
    assert_eq!(Component::derived(&mut uis, &AddressKey::Root, &AddressID::Root), AddressKey::Invalid);
    assert_eq!(Component::derived(&mut uis, &AddressKey::Root, &AddressID::Component(9)), AddressKey::Invalid);
    assert!(uis.hiccups().is_empty());
    // A given name wins over the ancestor.
    assert_eq!(Component::new_derived(&mut uis, &AddressKey::Root, "Card", &AddressID::Component(0)), c("Card"));
    let (_, card) = uis.component_at(2).unwrap();
    assert_eq!(card.ancestor, None);
    let (_, base) = uis.component_at(0).unwrap();
    assert_eq!(base.descendants, vec![1]);
}

#[test]
fn properties() {
    let mut uis = Uis::new();
    Component::new(&mut uis, &AddressKey::Root, "App");
    assert_eq!(Property::new(&mut uis, &c("App"), "title", Value::Color(None), None), p("App.title"));
    assert_eq!(Property::new(&mut uis, &AddressKey::Root, "color", Value::Color(None), None), p("color"));
    let (key, title) = uis.property_at(0).unwrap();
    assert_eq!(key, "App.title");
    assert_eq!(title.id(), 0);
    assert_eq!(title.origin(), Origin::Component(0));
    assert!(matches!(title.value(), Value::Color(None)));
    let (_, color) = uis.property_at(1).unwrap();
    assert_eq!(color.id(), 1);
    assert_eq!(color.origin(), Origin::Root);
    // Under a property: the origin is the component the property belongs to.
    assert_eq!(Property::new(&mut uis, &p("App.title"), "size", Value::Color(None), None), p("App.title.size"));
    let (_, size) = uis.property_at(2).unwrap();
    assert_eq!(size.origin(), Origin::Component(0));
    assert_eq!(Property::new(&mut uis, &p("color"), "alpha", Value::Color(None), None), p("color.alpha"));
    assert_eq!(uis.property_at(3).unwrap().1.origin(), Origin::Root);
    // Under a component key the parentheses are never counted.
    let odd = format!("A{}", ")".repeat(256));
    assert_eq!(Property::new(&mut uis, &c(&odd), "x", Value::Color(None), None), p(&format!("{}.x", odd)));
    assert_eq!(uis.property_at(4).unwrap().1.origin(), Origin::Invalid);
    assert!(uis.hiccups().is_empty());
}

#[test]
fn property_errors() {
    let mut uis = Uis::new();
    Component::new(&mut uis, &AddressKey::Root, "App");
    Property::new(&mut uis, &c("App"), "title", Value::Color(None), None);
    assert_eq!(Property::new(&mut uis, &c("App"), "title", Value::Color(None), None), AddressKey::Invalid);
    assert_eq!(Property::new(&mut uis, &AddressKey::Invalid, "x", Value::Color(None), None), AddressKey::Invalid);
    assert_eq!(Property::new(&mut uis, &c("App"), "Big", Value::Color(None), None), AddressKey::Invalid);
    assert_eq!(
        error_texts(&uis),
        vec![
            (
                "W App.title already exists in this component - please remove the '+' or type, from this property".to_string(),
                "the folowing values will be added to the existing property".to_string()
            ),
            (
                format!("E {:#?} already exists", p("App.title")),
                "Will therefore ommit the recreation of this component".to_string()
            ),
            (
                "E Can't Add Property to an invalid Address".to_string(),
                "Will therefore ommit the creation of this component".to_string()
            ),
            (
                format!("E 'Big' is not a valid name for property, as it returns {:?} ", c("App.Big")),
                "Will therefore ommit the creation of this component".to_string()
            ),
        ]
    );
    assert_eq!(uis.property_count(), 1);
}

#[test]
fn lookups_round_trip() {
    let mut uis = Uis::new();
    Component::new(&mut uis, &AddressKey::Root, "App");
    Component::new(&mut uis, &c("App"), "Header");
    Property::new(&mut uis, &c("App"), "title", Value::Color(None), None);
    assert_eq!(c("App.Header").to_address_id(&uis), AddressID::Component(1));
    assert_eq!(AddressID::Component(1).to_address_key(&uis), c("App.Header"));
    assert_eq!(p("App.title").to_address_id(&uis), AddressID::Property(0));
    assert_eq!(AddressID::Property(0).to_address_key(&uis), p("App.title"));
    assert_eq!(c("Nope").to_address_id(&uis), AddressID::Invalid);
    assert_eq!(AddressID::Component(7).to_address_key(&uis), AddressKey::Invalid);
    assert_eq!(AddressID::from_string("App", &uis), AddressID::Component(0));
    assert_eq!(AddressID::Component(1).to_string(&uis), "App.Header".to_string());
    assert_eq!(AddressID::Root.to_optional_string(&uis), None);
    assert_eq!(AddressID::Component(1).back(&uis, 1), AddressID::Component(0));
    assert_eq!(AddressID::Component(0).forward(&uis, "Header"), AddressID::Component(1));
    assert!(c("App").does_exist(&uis));
    assert!(!p("App.nope").does_exist(&uis));
    assert!(AddressKey::Root.does_exist(&uis));
    assert!(!AddressKey::Invalid.does_exist(&uis));
    assert_eq!(c("App.Header").to_component_id(&uis).ok(), Some(1));
    match c("Nope").to_component_id(&uis) {
        Err(Hiccup::Warning(_, cause, _)) => assert_eq!(cause, "could not find a component with a valid ID"),
        _ => panic!("expected a warning"),
    }
    assert_eq!(Origin::Component(1).to_address_key(&uis), c("App.Header"));
    assert_eq!(c("App").to_origin(&mut uis), Origin::Component(0));
    assert_eq!(p("App.title").to_origin(&mut uis), Origin::Invalid);
    assert_eq!(AddressKey::Root.to_origin(&mut uis), Origin::Root);
}

#[test]
fn forward_only_reaches_registered_addresses() {
    let mut uis = Uis::new();
    Component::new(&mut uis, &AddressKey::Root, "App");
    Component::new(&mut uis, &c("App"), "Header");
    assert_eq!(c("App").forward(&uis, "Header"), c("App.Header"));
    assert_eq!(c("App").forward(&uis, "Footer"), AddressKey::Invalid);
    assert_eq!(AddressKey::Root.forward(&uis, "App"), c("App"));
    assert_eq!(p("x").forward(&uis, "Header"), AddressKey::Invalid);
}

#[test]
fn add_places_names() {
    let mut uis = Uis::new();
    assert_eq!(c("App").add(&mut uis, "a.b"), p("App.(a.b)"));
    assert_eq!(p("App.x").add(&mut uis, "y"), p("App.x.y"));
    assert_eq!(p("App.x").add(&mut uis, "Y"), AddressKey::Invalid);
    assert_eq!(AddressKey::Invalid.add(&mut uis, "y"), AddressKey::Invalid);
    assert_eq!(AddressKey::Root.add(&mut uis, "..."), AddressKey::Invalid);
}

#[test]
fn origins() {
    let mut uis = Uis::new();
    Component::new(&mut uis, &AddressKey::Root, "App");
    Component::new(&mut uis, &c("App"), "Header");
    assert_eq!(p("App.Header.title").get_origin(&mut uis), Origin::Component(1));
    assert_eq!(p("title").get_origin(&mut uis), Origin::Root);
    assert_eq!(c("App").get_origin(&mut uis), Origin::Root);
    assert_eq!(c("App.Header").get_origin(&mut uis), Origin::Component(0));
    assert_eq!(p("App.b").get_origin(&mut uis), Origin::Component(0));
    assert_eq!(p("a.b").get_origin(&mut uis), Origin::Root);
    assert_eq!(p("App.Nope.x.y").get_origin(&mut uis), Origin::Component(0));
    assert_eq!(p("(App.Header).x").get_origin(&mut uis), Origin::Root);
    assert_eq!(AddressKey::Root.get_origin(&mut uis), Origin::Root);
    assert_eq!(AddressKey::Invalid.get_origin(&mut uis), Origin::Invalid);
    assert!(uis.hiccups().is_empty());
    assert_eq!(p("A(").get_origin(&mut uis), Origin::Invalid);
    assert_eq!(
        error_texts(&uis),
        vec![(
            format!("E The address: {:#?} ends with opening parenthesees", "A(".to_string()),
            "Causing the origin to return invalid".to_string()
        )]
    );
    let mut id = AddressID::Property(0);
    assert_eq!(id.to_origin(&mut uis), Origin::Invalid);
    assert_eq!(id, AddressID::Property(0));
}

#[test]
fn new_derived_is_new() {
    let mut a = Uis::new();
    let mut b = Uis::new();
    Component::new(&mut a, &AddressKey::Root, "Base");
    Component::new(&mut b, &AddressKey::Root, "Base");
    assert_eq!(
        Component::new_derived(&mut a, &c("Base"), "Child", &AddressID::Component(0)),
        Component::new(&mut b, &c("Base"), "Child")
    );
    assert_eq!(a.component_count(), b.component_count());
    for i in 0..a.component_count() {
        let (ka, ca) = a.component_at(i).unwrap();
        let (kb, cb) = b.component_at(i).unwrap();
        assert_eq!(ka, kb);
        assert_eq!(ca.descendants, cb.descendants);
        assert_eq!(ca.ancestor, cb.ancestor);
        assert_eq!(ca.components, cb.components);
    }
}

#[test]
fn building_only_appends() {
    let mut uis = Uis::new();
    Component::new(&mut uis, &AddressKey::Root, "App");
    Component::new(&mut uis, &AddressKey::Root, "App");
    Property::new(&mut uis, &AddressKey::Root, "Bad", Value::Color(None), None);
    let before_keys: Vec<String> = (0..uis.component_count()).map(|i| uis.component_at(i).unwrap().0.clone()).collect();
    let before_hiccups = uis.hiccups().len();
    Component::new(&mut uis, &c("App"), "Header");
    Component::new(&mut uis, &p("x"), "Header");
    for (i, k) in before_keys.iter().enumerate() {
        assert_eq!(uis.component_at(i).unwrap().0, k);
    }
    assert_eq!(uis.hiccups().len(), before_hiccups + 1);
    for i in 0..uis.component_count() {
        assert_eq!(AddressID::Component(i).to_address_key(&uis).to_address_id(&uis), AddressID::Component(i));
    }
}
