use tlmcmddb::bundle::{sort_telemetries, DatabaseBuilder, DatabaseSet};
use tlmcmddb::error::ErrorKind;
use tlmcmddb::tlm::{Content, Metadata, Telemetry};
use tlmcmddb::{cmd, tlm, Component, Database};

fn telemetry(name: &str, packet_id: u8) -> Telemetry {
    Telemetry {
        name: name.to_string(),
        metadata: Metadata {
            target: "OBC".to_string(),
            packet_id,
            is_enabled: true,
            is_restricted: false,
            local_variables: String::new(),
        },
        content: Content::Struct(vec![]),
    }
}

fn commands(text: &str) -> cmd::Database {
    cmd::Database { entries: vec![cmd::Entry::Comment(cmd::Comment { text: text.to_string() })] }
}

fn component(name: &str, telemetries: Vec<Telemetry>, cmd: cmd::Database) -> Component {
    Component { name: name.to_string(), tlm: tlm::Database { telemetries }, cmd }
}

fn database(names: &[&str]) -> Database {
    Database {
        components: names
            .iter()
            .map(|name| component(name, vec![telemetry(name, 1)], commands(name)))
            .collect(),
    }
}

fn merge(databases: Vec<Database>) -> Result<Database, ErrorKind> {
    let mut set = DatabaseSet::default();
    for database in databases {
        set.push_database(database);
    }
    set.merge()
}

#[test]
fn merge_rejects_a_shared_component_name() {
    assert_eq!(
        merge(vec![database(&["MOBC", "AOBC"]), database(&["TOBC", "MOBC"])]),
        Err(ErrorKind::DuplicateComponentName { name: "MOBC".to_string() })
    );
    assert_eq!(
        merge(vec![database(&["MOBC", "MOBC"])]),
        Err(ErrorKind::DuplicateComponentName { name: "MOBC".to_string() })
    );
}

#[test]
fn merge_names_the_first_component_that_repeats_a_name() {
    assert_eq!(
        merge(vec![database(&["A", "B"]), database(&["C", "B", "A"]), database(&["C"])]),
        Err(ErrorKind::DuplicateComponentName { name: "B".to_string() })
    );
}

#[test]
fn merge_joins_databases_in_their_order() {
    assert_eq!(
        merge(vec![database(&["MOBC", "AOBC"]), database(&[]), database(&["TOBC", "BOBC"])]),
        Ok(database(&["MOBC", "AOBC", "TOBC", "BOBC"]))
    );
    assert_eq!(merge(vec![]), Ok(database(&[])));
    assert_eq!(merge(vec![database(&["Z", "A"])]), Ok(database(&["Z", "A"])));
}

#[test]
fn merge_tells_names_apart_by_case() {
    assert_eq!(
        merge(vec![database(&["MOBC"]), database(&["mobc"])]),
        Ok(database(&["MOBC", "mobc"]))
    );
}

#[test]
fn validate_holds_the_set_to_distinct_names() {
    let mut set = DatabaseSet::new();
    assert_eq!(set.validate(), Ok(()));
    set.push_database(database(&["MOBC"]));
    set.push_database(database(&["AOBC"]));
    assert_eq!(set.validate(), Ok(()));
    set.push_database(database(&["AOBC"]));
    assert_eq!(
        set.validate(),
        Err(ErrorKind::DuplicateComponentName { name: "AOBC".to_string() })
    );
}

#[test]
fn builder_orders_components_and_telemetries_by_name() {
    let mut builder = DatabaseBuilder::default();
    builder.add_telemetry("MOBC".to_string(), telemetry("HK", 1));
    builder.add_telemetry("AOBC".to_string(), telemetry("RATE", 2));
    builder.add_cmddb("TOBC".to_string(), commands("t"));
    builder.add_telemetry("MOBC".to_string(), telemetry("AH", 3));
    builder.add_cmddb("MOBC".to_string(), commands("m"));
    builder.add_telemetry("MOBC".to_string(), telemetry("GIT", 4));
    builder.add_telemetry("AOBC".to_string(), telemetry("ANGLE", 5));
    assert_eq!(
        builder.build(),
        Database {
            components: vec![
                component(
                    "AOBC",
                    vec![telemetry("ANGLE", 5), telemetry("RATE", 2)],
                    cmd::Database { entries: vec![] }
                ),
                component(
                    "MOBC",
                    vec![telemetry("AH", 3), telemetry("GIT", 4), telemetry("HK", 1)],
                    commands("m")
                ),
                component("TOBC", vec![], commands("t")),
            ]
        }
    );
}

#[test]
fn builder_replaces_the_commands_of_a_component() {
    let mut builder = DatabaseBuilder::new();
    builder.add_cmddb("MOBC".to_string(), commands("first"));
    builder.add_cmddb("MOBC".to_string(), commands("second"));
    assert_eq!(
        builder.build(),
        Database { components: vec![component("MOBC", vec![], commands("second"))] }
    );
    assert_eq!(DatabaseBuilder::new().build(), Database { components: vec![] });
}

#[test]
fn telemetries_of_one_name_keep_their_order() {
    let sorted = sort_telemetries(vec![
        telemetry("B", 1),
        telemetry("A", 2),
        telemetry("B", 3),
        telemetry("A", 4),
        telemetry("", 5),
        telemetry("AB", 6),
        telemetry("a", 7),
    ]);
    assert_eq!(
        sorted,
        vec![
            telemetry("", 5),
            telemetry("A", 2),
            telemetry("A", 4),
            telemetry("AB", 6),
            telemetry("B", 1),
            telemetry("B", 3),
            telemetry("a", 7),
        ]
    );
}

#[test]
fn names_are_ordered_as_strings_are() {
    let names = ["b", "", "B", "ab", "a", "\u{3042}", "\u{e9}", "abc", "Z", "~", "a\u{3042}"];
    let sorted = sort_telemetries(names.iter().map(|name| telemetry(name, 0)).collect());
    let mut expected: Vec<String> = names.iter().map(|name| name.to_string()).collect();
    expected.sort();
    assert_eq!(sorted.iter().map(|t| t.name.clone()).collect::<Vec<_>>(), expected);
}
