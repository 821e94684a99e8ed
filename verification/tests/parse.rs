use bkf_mysql::database_config::{parse, resolve_first, DatabaseConfig, Error};
use bkf_mysql::yaml::{load, Node};
use yaml_rust::YamlLoader;

const EXAMPLE: &str =
    "production:\n  host: db.example.com\n  username: app\n  password: secret\n  database: appdb\n";

const TWO_ENVIRONMENTS: &str = "production:\n  host: db.example.com\n  port: 3307\n  username: app\n  password: secret\n  database: appdb\nstaging:\n  host: staging.example.com\n  port: 13306\n  username: tester\n  password: \"\"\n  database: stagingdb\n";

fn text(s: &str) -> Node {
    Node::String(s.to_string())
}

#[test]
fn example_resolves_with_default_port() {
    let config = parse(EXAMPLE, "production").unwrap();
    assert_eq!(
        config,
        DatabaseConfig {
            host: "db.example.com".to_string(),
            port: 3306,
            username: "app".to_string(),
            password: "secret".to_string(),
            database: "appdb".to_string(),
        }
    );
}

#[test]
fn example_has_no_staging() {
    match parse(EXAMPLE, "staging") {
        Err(Error::EnvironmentNotFound(env)) => assert_eq!(env, "staging"),
        other => panic!("unexpected: {:?}", other),
    }
}

#[test]
fn all_five_keys_are_taken_as_written() {
    let config = parse(TWO_ENVIRONMENTS, "production").unwrap();
    assert_eq!(config.host, "db.example.com");
    assert_eq!(config.port, 3307);
    assert_eq!(config.username, "app");
    assert_eq!(config.password, "secret");
    assert_eq!(config.database, "appdb");
}

#[test]
fn sibling_environment_is_ignored() {
    let config = parse(TWO_ENVIRONMENTS, "staging").unwrap();
    assert_eq!(config.host, "staging.example.com");
    assert_eq!(config.port, 13306);
    assert_eq!(config.username, "tester");
    assert_eq!(config.database, "stagingdb");
}

#[test]
fn empty_strings_are_accepted() {
    let config = parse(TWO_ENVIRONMENTS, "staging").unwrap();
    assert_eq!(config.password, "");
}

#[test]
fn missing_host_is_named() {
    let source = "production:\n  username: app\n  password: secret\n  database: appdb\n";
    match parse(source, "production") {
        Err(Error::KeyMissing { key, env }) => {
            assert_eq!(key, "host");
            assert_eq!(env, "production");
        }
        other => panic!("unexpected: {:?}", other),
    }
}

#[test]
fn missing_username_is_named() {
    let source = "production:\n  host: h\n  password: secret\n  database: appdb\n";
    match parse(source, "production") {
        Err(Error::KeyMissing { key, env }) => {
            assert_eq!(key, "username");
            assert_eq!(env, "production");
        }
        other => panic!("unexpected: {:?}", other),
    }
}

#[test]
fn missing_password_is_named() {
    let source = "staging:\n  host: h\n  username: app\n  database: appdb\n";
    match parse(source, "staging") {
        Err(Error::KeyMissing { key, env }) => {
            assert_eq!(key, "password");
            assert_eq!(env, "staging");
        }
        other => panic!("unexpected: {:?}", other),
    }
}

#[test]
fn missing_database_is_named() {
    let source = "production:\n  host: h\n  username: app\n  password: secret\n";
    match parse(source, "production") {
        Err(Error::KeyMissing { key, env }) => {
            assert_eq!(key, "database");
            assert_eq!(env, "production");
        }
        other => panic!("unexpected: {:?}", other),
    }
}

#[test]
fn first_missing_key_is_named() {
    let source = "production:\n  host: h\n  port: 1\n";
    match parse(source, "production") {
        Err(Error::KeyMissing { key, env }) => {
            assert_eq!(key, "username");
            assert_eq!(env, "production");
        }
        other => panic!("unexpected: {:?}", other),
    }
}

#[test]
fn key_that_is_no_string_is_missing() {
    let source = "production:\n  host: 10\n  username: app\n  password: secret\n  database: appdb\n";
    match parse(source, "production") {
        Err(Error::KeyMissing { key, env }) => {
            assert_eq!(key, "host");
            assert_eq!(env, "production");
        }
        other => panic!("unexpected: {:?}", other),
    }
}

#[test]
fn quoted_number_is_a_string() {
    let source =
        "production:\n  host: \"10\"\n  username: app\n  password: '1234'\n  database: appdb\n";
    let config = parse(source, "production").unwrap();
    assert_eq!(config.host, "10");
    assert_eq!(config.password, "1234");
}

#[test]
fn environment_that_is_no_mapping_has_no_host() {
    match parse("production: hello\n", "production") {
        Err(Error::KeyMissing { key, env }) => {
            assert_eq!(key, "host");
            assert_eq!(env, "production");
        }
        other => panic!("unexpected: {:?}", other),
    }
}

#[test]
fn document_that_is_no_mapping_has_no_environment() {
    match parse("- production\n- staging\n", "production") {
        Err(Error::EnvironmentNotFound(env)) => assert_eq!(env, "production"),
        other => panic!("unexpected: {:?}", other),
    }
}

#[test]
fn environment_with_unreadable_value_is_not_found() {
    match parse("production: !!int many\n", "production") {
        Err(Error::EnvironmentNotFound(env)) => assert_eq!(env, "production"),
        other => panic!("unexpected: {:?}", other),
    }
}

#[test]
fn empty_document_has_no_environment() {
    match parse("---\n", "production") {
        Err(Error::EnvironmentNotFound(env)) => assert_eq!(env, "production"),
        other => panic!("unexpected: {:?}", other),
    }
}

#[test]
fn port_that_is_no_integer_gives_the_default() {
    let source = "production:\n  host: h\n  port: high\n  username: app\n  password: secret\n  database: appdb\n";
    assert_eq!(parse(source, "production").unwrap().port, 3306);
    let quoted = "production:\n  host: h\n  port: \"3307\"\n  username: app\n  password: secret\n  database: appdb\n";
    assert_eq!(parse(quoted, "production").unwrap().port, 3306);
}

#[test]
fn port_limits_are_kept() {
    let lowest = "production:\n  host: h\n  port: 0\n  username: app\n  password: secret\n  database: appdb\n";
    assert_eq!(parse(lowest, "production").unwrap().port, 0);
    let highest = "production:\n  host: h\n  port: 65535\n  username: app\n  password: secret\n  database: appdb\n";
    assert_eq!(parse(highest, "production").unwrap().port, 65535);
}

#[test]
fn port_beyond_sixteen_bits_wraps() {
    let above = "production:\n  host: h\n  port: 68842\n  username: app\n  password: secret\n  database: appdb\n";
    assert_eq!(parse(above, "production").unwrap().port, 3306);
    let below = "production:\n  host: h\n  port: -1\n  username: app\n  password: secret\n  database: appdb\n";
    assert_eq!(parse(below, "production").unwrap().port, 65535);
    let exact = "production:\n  host: h\n  port: 65536\n  username: app\n  password: secret\n  database: appdb\n";
    assert_eq!(parse(exact, "production").unwrap().port, 0);
}

#[test]
fn only_the_first_document_is_consulted() {
    let source = "staging:\n  host: first\n  username: a\n  password: b\n  database: c\n---\nproduction:\n  host: second\n  username: a\n  password: b\n  database: c\n";
    assert_eq!(parse(source, "staging").unwrap().host, "first");
    match parse(source, "production") {
        Err(Error::EnvironmentNotFound(env)) => assert_eq!(env, "production"),
        other => panic!("unexpected: {:?}", other),
    }
}

#[test]
fn unterminated_mapping_is_malformed() {
    match parse("production: {host: db.example.com", "production") {
        Err(Error::YamlError(Some(_))) => {}
        other => panic!("unexpected: {:?}", other),
    }
}

#[test]
fn invalid_indentation_is_malformed() {
    match parse("production:\n    host: a\n  username: b\n", "production") {
        Err(Error::YamlError(Some(_))) => {}
        other => panic!("unexpected: {:?}", other),
    }
}

#[test]
fn malformed_text_keeps_the_diagnostic() {
    let source = "production: [a, b";
    let expected = YamlLoader::load_from_str(source).unwrap_err();
    match parse(source, "production") {
        Err(Error::YamlError(Some(fault))) => assert_eq!(fault, expected),
        other => panic!("unexpected: {:?}", other),
    }
}

#[test]
fn text_without_a_document_is_malformed() {
    match parse("", "production") {
        Err(Error::YamlError(None)) => {}
        other => panic!("unexpected: {:?}", other),
    }
    match parse("# nothing but a comment\n", "staging") {
        Err(Error::YamlError(None)) => {}
        other => panic!("unexpected: {:?}", other),
    }
}

#[test]
fn parse_is_repeatable() {
    let first = parse(TWO_ENVIRONMENTS, "production").unwrap();
    let second = parse(TWO_ENVIRONMENTS, "production").unwrap();
    assert_eq!(first, second);
}

#[test]
fn load_copies_every_kind_of_value() {
    let source = "s: text\ni: -12\nr: 2.5\nb: true\nn: ~\nl: [1, two]\nm: {k: v}\n7: seven\n";
    let nodes = load(source).unwrap();
    assert_eq!(
        nodes,
        vec![Node::Hash(vec![
            (text("s"), text("text")),
            (text("i"), Node::Integer(-12)),
            (text("r"), Node::Real("2.5".to_string())),
            (text("b"), Node::Boolean(true)),
            (text("n"), Node::Null),
            (text("l"), Node::Array(vec![Node::Integer(1), text("two")])),
            (text("m"), Node::Hash(vec![(text("k"), text("v"))])),
            (Node::Integer(7), text("seven")),
        ])]
    );
}

#[test]
fn load_keeps_the_order_of_documents_and_entries() {
    let nodes = load("b: 1\na: 2\n---\n- x\n---\nplain\n").unwrap();
    assert_eq!(
        nodes,
        vec![
            Node::Hash(vec![(text("b"), Node::Integer(1)), (text("a"), Node::Integer(2))]),
            Node::Array(vec![text("x")]),
            text("plain"),
        ]
    );
}

#[test]
fn load_marks_what_it_cannot_read() {
    let nodes = load("a: !!int many\nb: !!bool perhaps\n").unwrap();
    assert_eq!(
        nodes,
        vec![Node::Hash(vec![(text("a"), Node::BadValue), (text("b"), Node::BadValue)])]
    );
}

#[test]
fn load_of_a_bare_document_is_null() {
    assert_eq!(load("---\n").unwrap(), vec![Node::Null]);
}

#[test]
fn unknown_anchor_is_malformed() {
    match parse("production: *nowhere\n", "production") {
        Err(Error::YamlError(Some(_))) => {}
        other => panic!("unexpected: {:?}", other),
    }
}

#[test]
fn load_of_nothing_is_no_document() {
    assert_eq!(load("").unwrap(), Vec::<Node>::new());
}

#[test]
fn load_of_a_fault_is_the_diagnostic_of_the_loader() {
    let source = "a: [1, 2";
    assert_eq!(load(source).unwrap_err(), YamlLoader::load_from_str(source).unwrap_err());
}

#[test]
fn last_of_repeated_keys_is_kept() {
    let source = "production:\n  host: first\n  host: second\n  username: a\n  password: b\n  database: c\n";
    assert_eq!(parse(source, "production").unwrap().host, "second");
}

#[test]
fn resolve_first_of_a_read_stream() {
    let stream = load(EXAMPLE);
    let config = resolve_first(stream, "production").unwrap();
    assert_eq!(config.host, "db.example.com");
    assert_eq!(config.port, 3306);
}

#[test]
fn resolve_first_of_a_fault() {
    let fault = YamlLoader::load_from_str("a: {b").unwrap_err();
    match resolve_first(Err(fault.clone()), "production") {
        Err(Error::YamlError(Some(kept))) => assert_eq!(kept, fault),
        other => panic!("unexpected: {:?}", other),
    }
}

#[test]
fn resolve_first_of_no_document() {
    match resolve_first(Ok(Vec::new()), "production") {
        Err(Error::YamlError(None)) => {}
        other => panic!("unexpected: {:?}", other),
    }
}
