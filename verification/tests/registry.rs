use std::rc::Rc;

use quire::validate::Validator;
use step_registry::catalog::{CommandName, CATALOG_SIZE};
use step_registry::registry::builder_validator;
use step_registry::shape::Shape;

fn validate(text: &str) -> Result<(), String> {
    let errors = quire::ErrorCollector::new();
    let options = quire::Options::default();
    let ast = quire::raw_parse(Rc::new("steps".to_string()), text, |doc| {
        quire::ast::process(&options, doc, &errors)
    })
    .map_err(|error| error.to_string())?;
    let _ = builder_validator().validate(ast, &errors);
    errors.into_result(()).map_err(|list| list.to_string())
}

fn refused(text: &str, words: &str) {
    match validate(text) {
        Ok(()) => panic!("{:?} was admitted", text),
        Err(message) => assert!(message.contains(words), "{:?}: {}", text, message),
    }
}

#[test]
fn validator_admits_each_kind_with_a_payload_of_its_shape() {
    for i in 0..CATALOG_SIZE {
        let tag = CommandName::at(i);
        let payload = match tag.shape() {
            Shape::Nothing => "",
            Shape::Text => "some text",
            Shape::List => "[one, two]",
            Shape::Table => "{one: 1, two: 2}",
            Shape::Record => "{one: 1, two: [a, b]}",
        };
        assert_eq!(validate(&format!("!{} {}", tag.name(), payload)), Ok(()), "{:?}", tag);
    }
}

#[test]
fn validator_refuses_a_payload_of_another_shape() {
    refused("!Sh [a, b]", "Value must be scalar");
    refused("!Sh", "Value must be scalar");
    refused("!Install {a: b}", "Value must be sequence");
    refused("!Install [[a], b]", "Value must be scalar");
    refused("!Env [a, b]", "Value must be mapping");
    refused("!Env {a: [b]}", "Value must be scalar");
    refused("!UbuntuUniverse yes", "Null expected");
    refused("!Git some text", "Value must be mapping");
    refused("!Git [a, b]", "Value must be mapping");
}

#[test]
fn validator_refuses_a_tag_outside_the_catalog() {
    refused("!Bogus x", "The tag Bogus is not expected");
    refused("!sh echo", "The tag sh is not expected");
}

#[test]
fn validator_holds_one_option_for_each_kind() {
    let shown = format!("{:?}", builder_validator());
    for i in 0..CATALOG_SIZE {
        let name = CommandName::at(i).name();
        assert_eq!(shown.matches(&format!("(\"{}\", ", name)).count(), 1, "{}", name);
    }
    assert_eq!(shown.matches("(\"").count(), CATALOG_SIZE);
}

#[test]
fn validator_registers_the_kinds_in_its_own_order() {
    let shown = format!("{:?}", builder_validator());
    let order = [
        "Alpine", "AlpineRepo", "Ubuntu", "UbuntuRelease", "UbuntuRepo", "UbuntuPPA",
        "UbuntuUniverse", "AptTrust", "Repo", "Install", "BuildDeps", "Container", "SubConfig",
        "Build", "Text", "Copy", "Sh", "Cmd", "RunAs", "Remove", "EnsureDir", "EmptyDir",
        "CacheDirs", "Env", "Depends", "Git", "GitInstall", "GitDescribe", "Tar", "TarInstall",
        "Unzip", "Download", "PipConfig", "Py2Install", "Py2Requirements", "Py3Install",
        "Py3Requirements", "NpmConfig", "NpmInstall", "NpmDependencies", "YarnDependencies",
        "ComposerConfig", "ComposerInstall", "ComposerDependencies", "GemConfig", "GemInstall",
        "GemBundle",
    ];
    assert_eq!(order.len(), CATALOG_SIZE);
    let mut from = 0;
    for name in order {
        let at = shown[from..].find(&format!("(\"{}\", ", name)).expect(name) + from;
        from = at + 1;
    }
    refused("text without a tag", "One of the tags [\"Alpine\", \"AlpineRepo\", \"Ubuntu\", \"UbuntuRelease\", ");
}

#[test]
fn each_option_holds_the_validator_of_its_shape() {
    let shown = format!("{:?}", builder_validator());
    assert!(shown.contains("(\"UbuntuUniverse\", Nothing)"));
    assert!(shown.contains("(\"Sh\", Scalar {"));
    assert!(shown.contains("(\"Install\", Sequence { element: Scalar {"));
    assert!(shown.contains("(\"Env\", Mapping { key_element: Scalar {"));
    assert!(shown.contains("(\"Git\", Mapping { key_element: Scalar {"));
    assert!(shown.contains("value_element: Anything"));
}
