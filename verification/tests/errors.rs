use step_registry::catalog::{commands, CommandName};
use step_registry::error::{Cause, FieldPath, StepError};

#[test]
fn malformed_node_says_how_many_tags() {
    assert_eq!(
        StepError::MalformedStepNode { tags: 0 }.message(),
        "build step must carry exactly one tag, found 0"
    );
    assert_eq!(
        StepError::MalformedStepNode { tags: 2 }.message(),
        "build step must carry exactly one tag, found 2"
    );
    assert_eq!(
        StepError::MalformedStepNode { tags: 1907 }.message(),
        "build step must carry exactly one tag, found 1907"
    );
    assert_eq!(
        StepError::MalformedStepNode { tags: usize::MAX }.message(),
        format!("build step must carry exactly one tag, found {}", usize::MAX)
    );
}

#[test]
fn unknown_tag_message_ends_with_the_catalog() {
    let message = StepError::UnknownTag { name: "Sh2".to_string() }.message();
    assert_eq!(
        message,
        format!("unknown build step Sh2: build step is one of {}", commands().join(", "))
    );
}

#[test]
fn invalid_configuration_says_where_and_why() {
    let error = |field: Option<&str>, item, cause| StepError::InvalidStepConfig {
        tag: CommandName::Git,
        path: FieldPath { field: field.map(|f| f.to_string()), item },
        cause,
    };
    assert_eq!(
        error(None, None, Cause::NotMapping).message(),
        "invalid configuration of build step Git: Value must be mapping"
    );
    assert_eq!(
        error(Some("url"), None, Cause::NotFieldValue).message(),
        "invalid configuration of build step Git, field url: Value must be scalar or sequence"
    );
    assert_eq!(
        error(Some("keys"), Some(10), Cause::NotScalar).message(),
        "invalid configuration of build step Git, field keys, item 10: Value must be scalar"
    );
    assert_eq!(
        error(None, Some(0), Cause::NotScalar).message(),
        "invalid configuration of build step Git, item 0: Value must be scalar"
    );
    assert_eq!(
        error(None, None, Cause::NotSequence).message(),
        "invalid configuration of build step Git: Value must be sequence"
    );
    assert_eq!(
        error(None, None, Cause::NotNull).message(),
        "invalid configuration of build step Git: Null expected"
    );
}

#[test]
fn only_a_missing_parser_is_a_fault() {
    assert!(StepError::RegistryConsistencyFault { tag: CommandName::Sh }.is_fault());
    assert!(!StepError::MalformedStepNode { tags: 0 }.is_fault());
    assert!(!StepError::UnknownTag { name: String::new() }.is_fault());
    let invalid = StepError::InvalidStepConfig {
        tag: CommandName::Sh,
        path: FieldPath::root(),
        cause: Cause::NotScalar,
    };
    assert!(!invalid.is_fault());
    assert_eq!(FieldPath::root(), FieldPath { field: None, item: None });
}

#[test]
fn causes_have_their_words() {
    assert_eq!(Cause::NotScalar.text(), "Value must be scalar");
    assert_eq!(Cause::NotSequence.text(), "Value must be sequence");
    assert_eq!(Cause::NotMapping.text(), "Value must be mapping");
    assert_eq!(Cause::NotNull.text(), "Null expected");
    assert_eq!(Cause::NotFieldValue.text(), "Value must be scalar or sequence");
}
