//! The connection parameters of one environment, read from a YAML document.

use crate::yaml::{is_key, load, stream_of, yaml_documents, Node};
use vstd::prelude::*;
use vstd::std_specs::convert::FromSpecImpl;
use vstd::string::to_string_from_display_ensures;
use yaml_rust::ScanError;

verus! {

/// The port of a database server where the configuration names none.
pub const DEFAULT_PORT: u16 = 3306;

/// What a database client needs to connect.
#[derive(Debug, Clone, PartialEq, Eq)]
pub struct DatabaseConfig {
    pub host: String,
    pub port: u16,
    pub username: String,
    pub password: String,
    pub database: String,
}

/// A `DatabaseConfig` as values.
pub struct ConfigView {
    pub host: Seq<char>,
    pub port: u16,
    pub username: Seq<char>,
    pub password: Seq<char>,
    pub database: Seq<char>,
}

impl View for DatabaseConfig {
    type V = ConfigView;

    open spec fn view(&self) -> ConfigView {
        ConfigView {
            host: self.host@,
            port: self.port,
            username: self.username@,
            password: self.password@,
            database: self.database@,
        }
    }
}

/// Why no connection parameters could be read.
#[derive(Debug, Clone, PartialEq, Eq)]
pub enum Error {
    /// The text is no YAML stream, with the diagnostic of the first fault in
    /// it, or the stream holds no document, with no diagnostic.
    YamlError(Option<ScanError>),
    /// The document has no value under the name of the environment.
    EnvironmentNotFound(&'static str),
    /// The environment has no string under a required key.
    KeyMissing { key: &'static str, env: &'static str },
}

/// An `Error` as values.
pub enum ErrorView {
    YamlError(Option<ScanError>),
    EnvironmentNotFound(Seq<char>),
    KeyMissing { key: Seq<char>, env: Seq<char> },
}

impl View for Error {
    type V = ErrorView;

    open spec fn view(&self) -> ErrorView {
        match *self {
            Error::YamlError(fault) => ErrorView::YamlError(fault),
            Error::EnvironmentNotFound(env) => ErrorView::EnvironmentNotFound(env@),
            Error::KeyMissing { key, env } => ErrorView::KeyMissing { key: key@, env: env@ },
        }
    }
}

impl From<ScanError> for Error {
    fn from(fault: ScanError) -> (error: Error) {
        Error::YamlError(Some(fault))
    }
}

impl FromSpecImpl<ScanError> for Error {
    open spec fn obeys_from_spec() -> bool {
        true
    }

    open spec fn from_spec(fault: ScanError) -> Error {
        Error::YamlError(Some(fault))
    }
}

/// What kind of error a value is, in words.
pub open spec fn description_of(error: ErrorView) -> Seq<char> {
    match error {
        ErrorView::YamlError(_) => "YAML parsing error"@,
        ErrorView::EnvironmentNotFound(_) => "Requested environment not found on the YAML file"@,
        ErrorView::KeyMissing { .. } => "Required key not found for environment"@,
    }
}

/// Whether `text` is the message of `error`. The message of a fault in the
/// text ends in the words of its diagnostic.
pub open spec fn is_message(error: Error, text: Seq<char>) -> bool {
    match error {
        Error::YamlError(Some(fault)) => exists|words: String|
            to_string_from_display_ensures::<ScanError>(&fault, words) && text
                == "YAML parsing error: "@ + words@,
        Error::YamlError(None) => text == "YAML parsing error: the stream holds no document"@,
        Error::EnvironmentNotFound(env) => text == "Environment "@ + env@ + " not present"@,
        Error::KeyMissing { key, env } => text == "Required key '"@ + key@
            + "' not found for environment '"@ + env@ + "'"@,
    }
}

/// The diagnostic behind an error, where there is one.
pub open spec fn cause_of(error: Error) -> Option<ScanError> {
    match error {
        Error::YamlError(fault) => fault,
        _ => None,
    }
}

impl Error {
    /// Says what kind of error this is.
    pub fn description(&self) -> (text: &'static str)
        ensures
            text@ == description_of(self@),
    {
        match self {
            Error::YamlError(_) => "YAML parsing error",
            Error::EnvironmentNotFound(_) => "Requested environment not found on the YAML file",
            Error::KeyMissing { .. } => "Required key not found for environment",
        }
    }

    /// The diagnostic behind the error, where there is one.
    pub fn cause(&self) -> (fault: Option<&ScanError>)
        ensures
            fault matches Some(inner) ==> cause_of(*self) == Some(*inner),
            fault is None ==> cause_of(*self) is None,
    {
        match self {
            Error::YamlError(Some(inner)) => Some(inner),
            _ => None,
        }
    }

    /// Writes the message of the error.
    pub fn message(&self) -> (text: String)
        ensures
            is_message(*self, text@),
    {
        match self {
            Error::YamlError(Some(fault)) => {
                let words = fault.to_string();
                let mut text = "YAML parsing error: ".to_owned();
                text.append(words.as_str());
                text
            },
            Error::YamlError(None) => "YAML parsing error: the stream holds no document".to_owned(),
            Error::EnvironmentNotFound(env) => {
                let mut text = "Environment ".to_owned();
                text.append(env);
                text.append(" not present");
                text
            },
            Error::KeyMissing { key, env } => {
                let mut text = "Required key '".to_owned();
                text.append(key);
                text.append("' not found for environment '");
                text.append(env);
                text.append("'");
                text
            },
        }
    }
}

/// The result of a resolution as values.
pub type Outcome = Result<ConfigView, ErrorView>;

/// The result of a resolution as values.
pub open spec fn outcome(result: Result<DatabaseConfig, Error>) -> Outcome {
    match result {
        Ok(config) => Ok(config@),
        Err(error) => Err(error@),
    }
}

/// The port that the value under `port` stands for: an integer narrowed to
/// its low sixteen bits, the default for anything else.
pub open spec fn port_of(value: Node) -> u16 {
    match value.integer() {
        Some(number) => number as u16,
        None => DEFAULT_PORT,
    }
}

/// The connection parameters of the environment `env` in the document `doc`.
///
/// The environment is not found where the document has no value under its
/// name. A required key is missing where the environment has no string under
/// it; of several, the first in the order host, username, password, database
/// is named.
pub open spec fn resolved(doc: Node, env: Seq<char>) -> Outcome {
    let section = doc.child(env);
    if section is BadValue {
        Err(ErrorView::EnvironmentNotFound(env))
    } else if section.child("host"@).text() is None {
        Err(ErrorView::KeyMissing { key: "host"@, env })
    } else if section.child("username"@).text() is None {
        Err(ErrorView::KeyMissing { key: "username"@, env })
    } else if section.child("password"@).text() is None {
        Err(ErrorView::KeyMissing { key: "password"@, env })
    } else if section.child("database"@).text() is None {
        Err(ErrorView::KeyMissing { key: "database"@, env })
    } else {
        Ok(
            ConfigView {
                host: section.child("host"@).text()->0,
                port: port_of(section.child("port"@)),
                username: section.child("username"@).text()->0,
                password: section.child("password"@).text()->0,
                database: section.child("database"@).text()->0,
            },
        )
    }
}

/// The connection parameters of the environment `env` in the first document
/// of a stream that was read, or that could not be read. With the stream of
/// a text, this is what `parse` returns for the text.
pub open spec fn resolved_first(stream: Result<Seq<Node>, ScanError>, env: Seq<char>) -> Outcome {
    match stream {
        Err(fault) => Err(ErrorView::YamlError(Some(fault))),
        Ok(nodes) => if nodes.len() == 0 {
            Err(ErrorView::YamlError(None))
        } else {
            resolved(nodes[0], env)
        },
    }
}

/// The string under `key` in `section`, where there is one.
fn required_key(section: &Node, key: &'static str, env: &'static str) -> (value: Result<
    String,
    Error,
>)
    ensures
        value matches Ok(text) ==> section.child(key@).text() == Some(text@),
        value matches Err(error) ==> section.child(key@).text() is None,
        value matches Err(error) ==> error@ == (ErrorView::KeyMissing { key: key@, env: env@ }),
{
    let found = match section.get(key) {
        Some(value) => value.as_str(),
        None => None,
    };
    match found {
        Some(text) => Ok(text.to_owned()),
        None => Err(Error::KeyMissing { key, env }),
    }
}

/// The port under `port` in `section`.
fn port_in(section: &Node) -> (port: u16)
    ensures
        port == port_of(section.child("port"@)),
{
    let number = match section.get("port") {
        Some(value) => value.as_i64(),
        None => None,
    };
    match number {
        Some(number) => {
            #[verifier::truncate]
            (number as u16)
        },
        None => DEFAULT_PORT,
    }
}

/// Reads the connection parameters of the environment `env` from the
/// document `doc`.
pub fn resolve(doc: &Node, env: &'static str) -> (result: Result<DatabaseConfig, Error>)
    ensures
        outcome(result) == resolved(*doc, env@),
{
    let section = match doc.get(env) {
        Some(section) => section,
        None => { return Err(Error::EnvironmentNotFound(env)); },
    };
    if section.is_badvalue() {
        return Err(Error::EnvironmentNotFound(env));
    }
    let host = match required_key(section, "host", env) {
        Ok(text) => text,
        Err(error) => { return Err(error); },
    };
    let port = port_in(section);
    let username = match required_key(section, "username", env) {
        Ok(text) => text,
        Err(error) => { return Err(error); },
    };
    let password = match required_key(section, "password", env) {
        Ok(text) => text,
        Err(error) => { return Err(error); },
    };
    let database = match required_key(section, "database", env) {
        Ok(text) => text,
        Err(error) => { return Err(error); },
    };
    Ok(DatabaseConfig { host, port, username, password, database })
}

/// Reads the connection parameters of the environment `env` from the first
/// document of a stream that was read, or that could not be read.
pub fn resolve_first(stream: Result<Vec<Node>, ScanError>, env: &'static str) -> (result: Result<
    DatabaseConfig,
    Error,
>)
    ensures
        outcome(result) == resolved_first(stream_of(stream), env@),
{
    match stream {
        Err(fault) => Err(Error::from(fault)),
        Ok(nodes) => {
            if nodes.len() == 0 {
                Err(Error::YamlError(None))
            } else {
                resolve(&nodes[0], env)
            }
        },
    }
}

/// Reads the connection parameters of the environment `env` from the YAML
/// text `text`. Only the first document of the text is consulted.
pub fn parse(text: &str, env: &'static str) -> (result: Result<DatabaseConfig, Error>)
    ensures
        outcome(result) == resolved_first(yaml_documents(text@), env@),
{
    resolve_first(load(text), env)
}

/// Whether `key` is one of the keys that an environment must hold a string
/// under.
pub open spec fn is_required(key: Seq<char>) -> bool {
    key == "host"@ || key == "username"@ || key == "password"@ || key == "database"@
}

/// The names of the required keys differ from each other.
pub proof fn lemma_required_keys_differ()
    ensures
        "host"@ != "username"@,
        "host"@ != "password"@,
        "host"@ != "database"@,
        "username"@ != "password"@,
        "username"@ != "database"@,
        "password"@ != "database"@,
{
    reveal_strlit("host");
    reveal_strlit("username");
    reveal_strlit("password");
    reveal_strlit("database");
    assert("host"@.len() == 4);
    assert("username"@[0] == 'u');
    assert("password"@[0] == 'p');
    assert("database"@[0] == 'd');
}

/// An integer under `port` within sixteen bits is the port as it is, any
/// other integer is reduced modulo 65536, and what is no integer gives the
/// default port.
pub proof fn lemma_port_narrowing(value: Node)
    ensures
        value matches Node::Integer(number) ==> port_of(value) as int == (number as int)
            % 0x10000,
        value matches Node::Integer(number) ==> (0 <= number <= 0xffff ==> port_of(value)
            == number),
        !(value is Integer) ==> port_of(value) == DEFAULT_PORT,
{
    if let Node::Integer(number) = value {
        assert((number as u16) as int == (number as int) % 0x10000) by (bit_vector);
    }
}

/// Where the first document of a stream holds, under the name of the
/// environment, a string under each required key and under `port` an integer
/// within sixteen bits or no integer, the environment resolves to exactly
/// these values, with the default port where there is no integer.
pub proof fn lemma_complete_environment_resolves(
    nodes: Seq<Node>,
    env: Seq<char>,
    host: Seq<char>,
    port: Option<i64>,
    username: Seq<char>,
    password: Seq<char>,
    database: Seq<char>,
)
    requires
        nodes.len() > 0,
        nodes[0].child(env).child("host"@).text() == Some(host),
        nodes[0].child(env).child("port"@).integer() == port,
        port matches Some(number) ==> 0 <= number <= 0xffff,
        nodes[0].child(env).child("username"@).text() == Some(username),
        nodes[0].child(env).child("password"@).text() == Some(password),
        nodes[0].child(env).child("database"@).text() == Some(database),
    ensures
        resolved_first(Ok(nodes), env) == Outcome::Ok(
            ConfigView {
                host,
                port: match port {
                    Some(number) => number as u16,
                    None => DEFAULT_PORT,
                },
                username,
                password,
                database,
            },
        ),
        port matches Some(number) ==> (number as u16) == number,
{
}

/// Where no entry of the first document of a stream stands under the name of
/// the environment, the environment is not found, and the error names it.
pub proof fn lemma_absent_environment_is_not_found(nodes: Seq<Node>, env: Seq<char>)
    requires
        nodes.len() > 0,
        forall|i: int|
            0 <= i < nodes[0].entries().len() ==> !is_key(#[trigger] nodes[0].entries()[i].0, env),
    ensures
        resolved_first(Ok(nodes), env) == Outcome::Err(
            ErrorView::EnvironmentNotFound(env),
        ),
{
}

/// The required keys, in the order in which they are looked for.
pub open spec fn required_keys() -> Seq<Seq<char>> {
    seq!["host"@, "username"@, "password"@, "database"@]
}

/// Where the first document of a stream holds a value under the name of the
/// environment, and that value holds no string under one of the required
/// keys but a string under each required key before it, that key is missing,
/// and the error names the key and the environment.
pub proof fn lemma_first_missing_key_is_named(nodes: Seq<Node>, env: Seq<char>, i: int)
    requires
        nodes.len() > 0,
        !(nodes[0].child(env) is BadValue),
        0 <= i < required_keys().len(),
        nodes[0].child(env).child(required_keys()[i]).text() is None,
        forall|j: int|
            0 <= j < i ==> (#[trigger] nodes[0].child(env).child(required_keys()[j])).text()
                is Some,
    ensures
        resolved_first(Ok(nodes), env) == Outcome::Err(
            ErrorView::KeyMissing { key: required_keys()[i], env },
        ),
{
    let section = nodes[0].child(env);
    assert(required_keys()[0] == "host"@);
    assert(required_keys()[1] == "username"@);
    assert(required_keys()[2] == "password"@);
    assert(required_keys()[3] == "database"@);
    if i > 0 {
        assert(section.child(required_keys()[0]).text() is Some);
    }
    if i > 1 {
        assert(section.child(required_keys()[1]).text() is Some);
    }
    if i > 2 {
        assert(section.child(required_keys()[2]).text() is Some);
    }
}

/// Where the first document of a stream holds a value under the name of the
/// environment, and that value holds a string under each required key but
/// `key`, the key is missing, and the error names the key and the
/// environment.
pub proof fn lemma_missing_key_is_named(nodes: Seq<Node>, env: Seq<char>, key: Seq<char>)
    requires
        nodes.len() > 0,
        !(nodes[0].child(env) is BadValue),
        is_required(key),
        nodes[0].child(env).child(key).text() is None,
        forall|other: Seq<char>|
            is_required(other) && other != key ==> (#[trigger] nodes[0].child(env).child(
                other,
            )).text() is Some,
    ensures
        resolved_first(Ok(nodes), env) == Outcome::Err(
            ErrorView::KeyMissing { key, env },
        ),
{
    lemma_required_keys_differ();
}

/// A text that is no YAML stream gives an error with the diagnostic of its
/// first fault, whatever the environment, and a stream gives an error
/// without a diagnostic where it holds no document, and only there.
pub proof fn lemma_malformed_text_is_an_error(stream: Result<Seq<Node>, ScanError>, env: Seq<char>)
    ensures
        stream matches Err(fault) ==> resolved_first(stream, env) == Outcome::Err(
            ErrorView::YamlError(Some(fault)),
        ),
        stream matches Ok(nodes) ==> (nodes.len() == 0 <==> resolved_first(stream, env)
            == Outcome::Err(ErrorView::YamlError(None))),
{
}

/// Only the value under the name of the environment is read: documents
/// that agree on it resolve alike, whatever else they hold.
pub proof fn lemma_other_environments_are_ignored(first: Node, second: Node, env: Seq<char>)
    requires
        first.child(env) == second.child(env),
    ensures
        resolved(first, env) == resolved(second, env),
{
}

/// Only the first document of a stream is consulted: streams that begin
/// with the same document resolve alike.
pub proof fn lemma_later_documents_are_ignored(
    first: Seq<Node>,
    second: Seq<Node>,
    env: Seq<char>,
)
    requires
        first.len() > 0,
        second.len() > 0,
        first[0] == second[0],
    ensures
        resolved_first(Ok(first), env) == resolved_first(Ok(second), env),
{
}

} // verus!
