use step_registry::catalog::{CommandName, CATALOG_SIZE};
use step_registry::config::{Config, FieldValue};
use step_registry::dispatch::{parse, Dispatcher, SequenceError, StepVisitor};
use step_registry::error::{Cause, FieldPath, StepError};
use step_registry::node::{Node, RawStepNode};
use step_registry::shape::Shape;

fn scalar(text: &str) -> Node {
    Node::Scalar(text.to_string())
}

fn tagged(tag: &str, payload: Node) -> RawStepNode {
    RawStepNode { entries: vec![(tag.to_string(), payload)] }
}

fn invalid(tag: CommandName, field: Option<&str>, item: Option<usize>, cause: Cause) -> StepError {
    StepError::InvalidStepConfig {
        tag,
        path: FieldPath { field: field.map(|name| name.to_string()), item },
        cause,
    }
}

#[test]
fn shell_step_describes_its_command() {
    let step = parse(&tagged("Sh", scalar("echo hi"))).unwrap();
    assert_eq!(step.tag(), CommandName::Sh);
    assert_eq!(step.config(), &Config::Text("echo hi".to_string()));
    assert_eq!(step.description(), "Sh: echo hi");
}

#[test]
fn unknown_tag_lists_the_catalog_from_alpine_on() {
    let error = parse(&tagged("Bogus", Node::Null)).unwrap_err();
    assert_eq!(error, StepError::UnknownTag { name: "Bogus".to_string() });
    let message = error.message();
    assert!(message.starts_with("unknown build step Bogus: build step is one of Alpine, "));
    let mut from = 0;
    for i in 0..CATALOG_SIZE {
        let name = CommandName::at(i).name();
        let at = message[from..].find(name).expect(name) + from;
        from = at + name.len();
    }
    assert!(!error.is_fault());
}

#[test]
fn sequence_keeps_document_order() {
    let nodes = vec![tagged("EnsureDir", scalar("/data")), tagged("Sh", scalar("echo hi"))];
    let steps = Dispatcher::complete().parse_sequence(&nodes).unwrap();
    assert_eq!(steps.len(), 2);
    assert_eq!(steps[0].tag(), CommandName::EnsureDir);
    assert_eq!(steps[0].description(), "EnsureDir: /data");
    assert_eq!(steps[1].tag(), CommandName::Sh);
    assert_eq!(steps[1].description(), "Sh: echo hi");
}

#[test]
fn two_tags_are_malformed_not_unknown() {
    let raw = RawStepNode {
        entries: vec![("Bogus".to_string(), Node::Null), ("Sh".to_string(), scalar("true"))],
    };
    assert_eq!(parse(&raw), Err(StepError::MalformedStepNode { tags: 2 }));
    let none = RawStepNode { entries: vec![] };
    assert_eq!(parse(&none), Err(StepError::MalformedStepNode { tags: 0 }));
}

#[test]
fn kind_without_parser_is_a_fault_of_the_program() {
    let mut table = Dispatcher::new();
    for i in 0..CATALOG_SIZE {
        let tag = CommandName::at(i);
        if tag != CommandName::Git {
            table = table.with(tag);
        }
    }
    assert!(table.handles(CommandName::Sh));
    assert!(!table.handles(CommandName::Git));
    let error = table.parse(&tagged("Git", Node::Null)).unwrap_err();
    assert_eq!(error, StepError::RegistryConsistencyFault { tag: CommandName::Git });
    assert!(error.is_fault());
    assert_eq!(error.message(), "internal fault: no parser is registered for build step Git");
    let unknown = table.parse(&tagged("Bogus", Node::Null)).unwrap_err();
    assert!(!unknown.is_fault());
    assert_ne!(unknown.message(), error.message());
    assert_eq!(table.parse(&tagged("Sh", scalar("true"))).unwrap().description(), "Sh: true");
}

#[test]
fn empty_table_faults_on_every_kind() {
    let table = Dispatcher::new();
    for i in 0..CATALOG_SIZE {
        let tag = CommandName::at(i);
        assert_eq!(
            table.dispatch(tag, &Node::Null),
            Err(StepError::RegistryConsistencyFault { tag })
        );
    }
}

#[test]
fn complete_table_handles_every_kind_once() {
    let table = Dispatcher::complete();
    for i in 0..CATALOG_SIZE {
        assert!(table.handles(CommandName::at(i)));
    }
    let again = table.with(CommandName::Sh);
    assert!(again.handles(CommandName::Sh));
    let kinds = again.kinds();
    assert_eq!(kinds.len(), CATALOG_SIZE);
    for i in 0..CATALOG_SIZE {
        assert_eq!(kinds[i], CommandName::at(i));
    }
}

#[test]
fn registering_adds_a_kind_after_the_others() {
    let table = Dispatcher::new().with(CommandName::Sh).with(CommandName::Env).with(CommandName::Sh);
    assert!(table.handles(CommandName::Sh));
    assert!(table.handles(CommandName::Env));
    assert!(!table.handles(CommandName::Cmd));
    assert_eq!(table.kinds(), vec![CommandName::Sh, CommandName::Env]);
    assert_eq!(Dispatcher::new().kinds(), vec![]);
}

#[test]
fn parsing_twice_gives_steps_that_answer_alike() {
    let raw = tagged("Install", Node::Sequence(vec![scalar("git"), scalar("make")]));
    let first = parse(&raw).unwrap();
    let second = parse(&raw).unwrap();
    assert!(!first.same_instance(&second));
    assert_eq!(first, second);
    assert_eq!(first.tag(), second.tag());
    assert_eq!(first.description(), second.description());
    assert_eq!(first.description(), "Install: git, make");
}

#[test]
fn text_kinds_want_one_scalar() {
    assert_eq!(
        parse(&tagged("Alpine", scalar("v3.5"))).unwrap().config(),
        &Config::Text("v3.5".to_string())
    );
    assert_eq!(
        parse(&tagged("Sh", Node::Null)),
        Err(invalid(CommandName::Sh, None, None, Cause::NotScalar))
    );
    assert_eq!(
        parse(&tagged("Sh", Node::Sequence(vec![scalar("a")]))),
        Err(invalid(CommandName::Sh, None, None, Cause::NotScalar))
    );
    assert_eq!(
        parse(&tagged("Remove", Node::Mapping(vec![]))),
        Err(invalid(CommandName::Remove, None, None, Cause::NotScalar))
    );
}

#[test]
fn list_kinds_want_scalars_in_a_sequence() {
    assert_eq!(
        parse(&tagged("Cmd", Node::Sequence(vec![scalar("ls"), scalar("-l")]))).unwrap().config(),
        &Config::List(vec!["ls".to_string(), "-l".to_string()])
    );
    assert_eq!(parse(&tagged("BuildDeps", Node::Null)).unwrap().config(), &Config::List(vec![]));
    assert_eq!(
        parse(&tagged("Install", scalar("git"))),
        Err(invalid(CommandName::Install, None, None, Cause::NotSequence))
    );
    let items = vec![scalar("a"), Node::Null, scalar("b"), Node::Sequence(vec![])];
    assert_eq!(
        parse(&tagged("Py3Install", Node::Sequence(items))),
        Err(invalid(CommandName::Py3Install, None, Some(1), Cause::NotScalar))
    );
}

#[test]
fn table_kinds_want_scalars_under_names() {
    let entries = vec![
        ("PATH".to_string(), scalar("/bin")),
        ("HOME".to_string(), scalar("/root")),
    ];
    assert_eq!(
        parse(&tagged("Env", Node::Mapping(entries))).unwrap().config(),
        &Config::Table(vec![
            ("PATH".to_string(), "/bin".to_string()),
            ("HOME".to_string(), "/root".to_string()),
        ])
    );
    assert_eq!(parse(&tagged("Text", Node::Null)).unwrap().config(), &Config::Table(vec![]));
    assert_eq!(
        parse(&tagged("CacheDirs", Node::Sequence(vec![]))),
        Err(invalid(CommandName::CacheDirs, None, None, Cause::NotMapping))
    );
    let entries = vec![
        ("a".to_string(), scalar("1")),
        ("b".to_string(), Node::Sequence(vec![])),
        ("c".to_string(), Node::Null),
    ];
    assert_eq!(
        parse(&tagged("Env", Node::Mapping(entries))),
        Err(invalid(CommandName::Env, Some("b"), None, Cause::NotScalar))
    );
}

#[test]
fn kind_without_configuration_wants_no_payload() {
    let step = parse(&tagged("UbuntuUniverse", Node::Null)).unwrap();
    assert_eq!(step.config(), &Config::Nothing);
    assert_eq!(step.description(), "UbuntuUniverse");
    assert_eq!(
        parse(&tagged("UbuntuUniverse", scalar("yes"))),
        Err(invalid(CommandName::UbuntuUniverse, None, None, Cause::NotNull))
    );
}

#[test]
fn record_kinds_want_fields() {
    let entries = vec![
        ("url".to_string(), scalar("git://example.org/x")),
        ("branch".to_string(), Node::Null),
        ("keys".to_string(), Node::Sequence(vec![scalar("a"), scalar("b")])),
    ];
    let step = parse(&tagged("Git", Node::Mapping(entries))).unwrap();
    assert_eq!(
        step.config(),
        &Config::Record(vec![
            ("url".to_string(), FieldValue::Text("git://example.org/x".to_string())),
            ("branch".to_string(), FieldValue::Null),
            ("keys".to_string(), FieldValue::List(vec!["a".to_string(), "b".to_string()])),
        ])
    );
    assert_eq!(step.description(), "Git: url=git://example.org/x, branch=~, keys=[a, b]");
    assert_eq!(parse(&tagged("Tar", Node::Null)).unwrap().config(), &Config::Record(vec![]));
    assert_eq!(
        parse(&tagged("Tar", scalar("x.tar"))),
        Err(invalid(CommandName::Tar, None, None, Cause::NotMapping))
    );
    let entries = vec![
        ("url".to_string(), scalar("u")),
        ("rules".to_string(), Node::Mapping(vec![])),
        ("more".to_string(), Node::Mapping(vec![])),
    ];
    assert_eq!(
        parse(&tagged("Copy", Node::Mapping(entries))),
        Err(invalid(CommandName::Copy, Some("rules"), None, Cause::NotFieldValue))
    );
    let entries = vec![
        ("keys".to_string(), Node::Sequence(vec![scalar("k"), scalar("l"), Node::Null])),
        ("rules".to_string(), Node::Mapping(vec![])),
    ];
    assert_eq!(
        parse(&tagged("AptTrust", Node::Mapping(entries))),
        Err(invalid(CommandName::AptTrust, Some("keys"), Some(2), Cause::NotScalar))
    );
}

#[test]
fn sequence_stops_at_the_first_node_that_fails() {
    let nodes = vec![
        tagged("Sh", scalar("a")),
        tagged("Nope", Node::Null),
        RawStepNode { entries: vec![] },
    ];
    assert_eq!(
        Dispatcher::complete().parse_sequence(&nodes),
        Err(SequenceError { index: 1, error: StepError::UnknownTag { name: "Nope".to_string() } })
    );
    let nodes = vec![tagged("Sh", scalar("a")), RawStepNode { entries: vec![] }];
    assert_eq!(
        Dispatcher::complete().parse_sequence(&nodes),
        Err(SequenceError { index: 1, error: StepError::MalformedStepNode { tags: 0 } })
    );
    assert_eq!(Dispatcher::complete().parse_sequence(&vec![]), Ok(vec![]));
    let failure = Dispatcher::complete().parse_sequence(&nodes).unwrap_err();
    assert_eq!(failure.message(), "build step 1: build step must carry exactly one tag, found 0");
}

#[test]
fn visitor_reads_a_payload_under_a_resolved_tag() {
    let step = StepVisitor.visit_enum(CommandName::EnsureDir, &scalar("/data")).unwrap();
    assert_eq!(step.description(), "EnsureDir: /data");
    assert_eq!(
        StepVisitor.visit_enum(CommandName::EnsureDir, &Node::Null),
        Err(invalid(CommandName::EnsureDir, None, None, Cause::NotScalar))
    );
    assert!(StepVisitor.expecting().starts_with("build step is one of Alpine, "));
}

#[test]
fn every_kind_parses_a_payload_of_its_shape() {
    for i in 0..CATALOG_SIZE {
        let tag = CommandName::at(i);
        let payload = match tag.shape() {
            Shape::Nothing => Node::Null,
            Shape::Text => scalar("x"),
            Shape::List => Node::Sequence(vec![scalar("x")]),
            Shape::Table => Node::Mapping(vec![("k".to_string(), scalar("v"))]),
            Shape::Record => Node::Mapping(vec![("k".to_string(), scalar("v"))]),
        };
        let step = parse(&tagged(tag.name(), payload)).unwrap();
        assert_eq!(step.tag(), tag);
        assert_eq!(step.config().shape(), tag.shape());
    }
}
