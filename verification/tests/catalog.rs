use step_registry::catalog::{commands, resolve, CommandName, NameVisitor, CATALOG_SIZE};
use step_registry::error::StepError;

#[test]
fn every_name_resolves_to_its_kind() {
    for i in 0..CATALOG_SIZE {
        let tag = CommandName::at(i);
        assert_eq!(resolve(tag.name()), Ok(tag));
    }
}

#[test]
fn catalog_lists_the_kinds_in_declaration_order() {
    let names = commands();
    assert_eq!(names.len(), 47);
    assert_eq!(names[0], "Alpine");
    assert_eq!(names[1], "AlpineRepo");
    assert_eq!(names[22], "Sh");
    assert_eq!(names[46], "ComposerConfig");
}

#[test]
fn names_are_matched_whole_and_by_case() {
    for text in ["", "sh", "SH", "Sh ", " Sh", "Alpine2", "Alpin", "Bogus"] {
        match resolve(text) {
            Err(StepError::UnknownTag { name }) => assert_eq!(name, text),
            other => panic!("{:?} resolved to {:?}", text, other),
        }
    }
}

#[test]
fn expecting_lists_the_whole_catalog() {
    let words = NameVisitor.expecting();
    assert!(words.starts_with("build step is one of Alpine, AlpineRepo, Ubuntu, UbuntuRepo, "));
    assert!(words.ends_with(", ComposerInstall, ComposerDependencies, ComposerConfig"));
    assert_eq!(words, format!("build step is one of {}", commands().join(", ")));
}
