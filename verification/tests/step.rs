use step_registry::catalog::CommandName;
use step_registry::config::{Config, FieldValue};
use step_registry::step::{Step, StepValue};

#[test]
fn sharing_a_handle_does_not_copy_the_step() {
    let value = StepValue::new(CommandName::Sh, Config::Text("echo hi".to_string())).unwrap();
    let first = Step::new(value);
    assert_eq!(first.holders(), 1);
    let second = first.share();
    assert!(first.same_instance(&second));
    assert_eq!(first.holders(), 2);
    assert_eq!(second.holders(), 2);
    let third = second.clone();
    assert!(third.same_instance(&first));
    assert_eq!(first.holders(), 3);
    assert_eq!(third.description(), "Sh: echo hi");
    assert!(std::ptr::eq(first.config(), third.config()));
    drop(second);
    drop(third);
    assert_eq!(first.holders(), 1);
}

#[test]
fn equal_steps_in_two_allocations_are_equal_and_not_the_same() {
    let one = Step::new(StepValue::new(CommandName::Sh, Config::Text("x".to_string())).unwrap());
    let two = Step::new(StepValue::new(CommandName::Sh, Config::Text("x".to_string())).unwrap());
    assert!(!one.same_instance(&two));
    assert_eq!(one, two);
    assert!(one.same_instance(&one));
}

#[test]
fn step_wants_the_shape_of_its_kind() {
    assert!(StepValue::new(CommandName::Sh, Config::Nothing).is_none());
    assert!(StepValue::new(CommandName::Sh, Config::List(vec![])).is_none());
    assert!(StepValue::new(CommandName::Install, Config::Text("x".to_string())).is_none());
    assert!(StepValue::new(CommandName::UbuntuUniverse, Config::Nothing).is_some());
    let value = StepValue::new(CommandName::Env, Config::Table(vec![])).unwrap();
    assert_eq!(value.tag(), CommandName::Env);
    assert_eq!(value.config(), &Config::Table(vec![]));
}

#[test]
fn descriptions_show_kind_and_configuration() {
    let describe = |tag, config| StepValue::new(tag, config).unwrap().description();
    assert_eq!(describe(CommandName::UbuntuUniverse, Config::Nothing), "UbuntuUniverse");
    assert_eq!(describe(CommandName::Sh, Config::Text(String::new())), "Sh: ");
    assert_eq!(describe(CommandName::Cmd, Config::List(vec![])), "Cmd: ");
    assert_eq!(
        describe(CommandName::Cmd, Config::List(vec!["a".to_string()])),
        "Cmd: a"
    );
    assert_eq!(
        describe(
            CommandName::Env,
            Config::Table(vec![
                ("A".to_string(), "1".to_string()),
                ("B".to_string(), "2".to_string()),
            ])
        ),
        "Env: A=1, B=2"
    );
}

fn step(tag: CommandName, config: Config) -> Step {
    Step::new(StepValue::new(tag, config).unwrap())
}

fn text(words: &str) -> String {
    words.to_string()
}

#[test]
fn fingerprints_put_lengths_in_front() {
    assert_eq!(step(CommandName::Sh, Config::Text(text("echo hi"))).fingerprint(), "2:ShT7:echo hi");
    assert_eq!(step(CommandName::UbuntuUniverse, Config::Nothing).fingerprint(), "14:UbuntuUniverseN");
    assert_eq!(
        step(CommandName::Install, Config::List(vec![text("git"), text("make")])).fingerprint(),
        "7:InstallL2:3:git4:make"
    );
    assert_eq!(step(CommandName::Cmd, Config::List(vec![])).fingerprint(), "3:CmdL0:");
    assert_eq!(
        step(CommandName::Env, Config::Table(vec![(text("A"), text("1")), (text("BC"), text(""))]))
            .fingerprint(),
        "3:EnvM2:1:A1:12:BC0:"
    );
    let record = vec![
        (text("url"), FieldValue::Text(text("u"))),
        (text("branch"), FieldValue::Null),
        (text("keys"), FieldValue::List(vec![text("a"), text("b")])),
    ];
    assert_eq!(
        step(CommandName::Git, Config::Record(record)).fingerprint(),
        "3:GitR3:3:urlt1:u6:branchn4:keysl2:1:a1:b"
    );
    let long = "x".repeat(12);
    assert_eq!(
        step(CommandName::Sh, Config::Text(long.clone())).fingerprint(),
        format!("2:ShT12:{}", long)
    );
}

#[test]
fn fingerprints_count_characters() {
    assert_eq!(
        step(CommandName::Sh, Config::Text(text("h\u{e9}!"))).fingerprint(),
        "2:ShT3:h\u{e9}!"
    );
}

#[test]
fn fingerprints_tell_apart_what_descriptions_do_not() {
    let one = step(CommandName::Cmd, Config::List(vec![text("a, b")]));
    let two = step(CommandName::Cmd, Config::List(vec![text("a"), text("b")]));
    assert_eq!(one.description(), two.description());
    assert_ne!(one.fingerprint(), two.fingerprint());
    assert!(!one.same_value(&two));
    let sh = step(CommandName::Sh, Config::Text(text("x")));
    let alpine = step(CommandName::Alpine, Config::Text(text("x")));
    assert_ne!(sh.fingerprint(), alpine.fingerprint());
    assert!(!sh.same_value(&alpine));
}

#[test]
fn steps_are_compared_by_what_they_hold() {
    let record = |value: FieldValue| {
        step(CommandName::Git, Config::Record(vec![(text("url"), value)]))
    };
    let one = record(FieldValue::List(vec![text("a")]));
    let two = record(FieldValue::List(vec![text("a")]));
    assert!(one.same_value(&two));
    assert!(!one.same_instance(&two));
    assert_eq!(one.fingerprint(), two.fingerprint());
    assert!(one.same_value(&one.share()));
    assert!(!one.same_value(&record(FieldValue::List(vec![text("b")]))));
    assert!(!one.same_value(&record(FieldValue::List(vec![]))));
    assert!(!one.same_value(&record(FieldValue::Text(text("a")))));
    assert!(!one.same_value(&record(FieldValue::Null)));
    assert!(record(FieldValue::Null).same_value(&record(FieldValue::Null)));
    let table = |key: &str, value: &str| {
        step(CommandName::Env, Config::Table(vec![(text(key), text(value))]))
    };
    assert!(table("A", "1").same_value(&table("A", "1")));
    assert!(!table("A", "1").same_value(&table("A", "2")));
    assert!(!table("A", "1").same_value(&table("B", "1")));
    assert!(!table("A", "1").same_value(&step(CommandName::Env, Config::Table(vec![]))));
    assert!(!table("A", "1").same_value(&step(CommandName::Text, Config::Table(vec![(text("A"), text("1"))]))));
}
