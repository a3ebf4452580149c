use awto_compile::error::CompileError;
use awto_compile::schema::extract;

fn models_of(source: &str) -> Vec<String> {
    match extract(source) {
        Ok(models) => models,
        Err(e) => panic!("extraction failed: {}", e.message()),
    }
}

#[test]
fn extracts_models_in_order() {
    let models = models_of("awto::register_schemas!(A, B, C);\n");
    assert_eq!(models, vec!["A".to_owned(), "B".to_owned(), "C".to_owned()]);
}

#[test]
fn extracts_through_bare_local_spelling() {
    let source = "use awto::register_schemas;\n\nregister_schemas!(Product, Order);\n";
    let models = models_of(source);
    assert_eq!(models, vec!["Product".to_owned(), "Order".to_owned()]);
}

#[test]
fn extracts_single_model() {
    let models = models_of("pub struct UserAccount;\n\nawto::register_schemas!(UserAccount);\n");
    assert_eq!(models, vec!["UserAccount".to_owned()]);
}

#[test]
fn drops_non_identifier_tokens() {
    let models = models_of("awto::register_schemas!(A, 42, \"text\", B);\n");
    assert_eq!(models, vec!["A".to_owned(), "B".to_owned()]);
}

#[test]
fn no_registration_in_empty_module() {
    let r = extract("");
    assert!(matches!(r, Err(CompileError::NoRegistrationFound)));
}

#[test]
fn no_registration_among_other_items() {
    let source = "pub struct A;\npub fn f() {}\n";
    let r = extract(source);
    assert!(matches!(r, Err(CompileError::NoRegistrationFound)));
}

#[test]
fn other_macros_are_not_registrations() {
    let source = "println!(\"A\");\nother::register_schemas_not!(B);\n";
    let r = extract(source);
    assert!(matches!(r, Err(CompileError::NoRegistrationFound)));
}

#[test]
fn wrong_qualifier_is_not_a_registration() {
    let r = extract("elsewhere::register_schemas!(A);\n");
    assert!(matches!(r, Err(CompileError::NoRegistrationFound)));
}

#[test]
fn first_registration_wins() {
    let source = "awto::register_schemas!(First);\nawto::register_schemas!(Second);\n";
    let models = models_of(source);
    assert_eq!(models, vec!["First".to_owned()]);
}

#[test]
fn registration_found_after_other_items() {
    let source = "pub struct A;\nmacro_rules! unrelated { () => {}; }\nregister_schemas!(A);\n";
    let models = models_of(source);
    assert_eq!(models, vec!["A".to_owned()]);
}

#[test]
fn malformed_source_is_a_parse_error() {
    let r = extract("pub struct {{{");
    assert!(matches!(r, Err(CompileError::ParseError(_))));
}

#[test]
fn no_registration_message_teaches_the_syntax() {
    let e = match extract("pub struct A;\n") {
        Err(e) => e,
        Ok(_) => panic!("expected an error"),
    };
    let text = e.message();
    assert!(text.contains("no schemas registered with the 'awto::register_schemas!' macro"));
    assert!(text.contains("`awto::register_schemas!(SchemaOne, SchemaTwo)`"));
}
