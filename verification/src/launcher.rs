//! What the launch of a database client is made of: the place of the
//! configuration file, the arguments of the client, and what to do with the
//! outcome of reading the configuration.

use crate::database_config::{ConfigView, DatabaseConfig};
use crate::decimal::{decimal, to_decimal};
use vstd::prelude::*;

verus! {

/// The environment variable that names the provisioning root.
pub const PROVISIONING_PATH_VARIABLE: &'static str = "BKF_PROVISIONING_PATH";

/// The provisioning root where the environment names none.
pub const DEFAULT_PROVISIONING_PATH: &'static str =
    "/home/vagrant/workspace/bankfacil/provisioning";

/// The environment variable that names the database client.
pub const CLIENT_VARIABLE: &'static str = "MYSQL_EXECUTABLE";

/// The database client where the environment names none.
pub const DEFAULT_CLIENT: &'static str = "mysql";

/// The exit status after a configuration that could not be read.
pub const FAILURE_STATUS: i32 = 1;

/// The name of the environment that the flags select: staging where it is
/// asked for, with or without production beside it, else production.
pub open spec fn environment_name(prod: bool, staging: bool) -> Seq<char> {
    if staging {
        "staging"@
    } else {
        "production"@
    }
}

/// Names the environment that the flags select.
#[allow(unused_variables)]
pub fn select_environment(prod: bool, staging: bool) -> (name: &'static str)
    ensures
        name@ == environment_name(prod, staging),
{
    if staging {
        "staging"
    } else {
        "production"
    }
}

/// The configured value, or the default where nothing is configured.
pub open spec fn configured_or(configured: Option<String>, default: Seq<char>) -> Seq<char> {
    match configured {
        Some(value) => value@,
        None => default,
    }
}

/// The provisioning root: the configured one, or the default.
pub fn provisioning_root(configured: Option<String>) -> (root: String)
    ensures
        root@ == configured_or(configured, DEFAULT_PROVISIONING_PATH@),
{
    match configured {
        Some(root) => root,
        None => DEFAULT_PROVISIONING_PATH.to_owned(),
    }
}

/// The database client to start: the configured one, or the default.
pub fn client_executable(configured: Option<String>) -> (client: String)
    ensures
        client@ == configured_or(configured, DEFAULT_CLIENT@),
{
    match configured {
        Some(client) => client,
        None => DEFAULT_CLIENT.to_owned(),
    }
}

/// The place of the configuration file of `project` in `environment` below
/// the provisioning root `root`.
pub open spec fn config_path(root: Seq<char>, project: Seq<char>, environment: Seq<char>) -> Seq<
    char,
> {
    root + "/application/roles/app/files/deploy/"@ + project + "/"@ + environment
        + "/config/database.yml"@
}

/// Builds the place of the configuration file of `project` in `environment`
/// below the provisioning root `root`.
pub fn config_file_path(root: &str, project: &str, environment: &str) -> (path: String)
    ensures
        path@ == config_path(root@, project@, environment@),
{
    let mut path = root.to_owned();
    path.append("/application/roles/app/files/deploy/");
    path.append(project);
    path.append("/");
    path.append(environment);
    path.append("/config/database.yml");
    path
}

/// The arguments that hand connection parameters to the client.
pub open spec fn arguments_of(config: ConfigView) -> Seq<Seq<char>> {
    seq![
        "--host"@,
        config.host,
        "--port"@,
        decimal(config.port as nat),
        "--user"@,
        config.username,
        "--database"@,
        config.database,
        "--password="@ + config.password,
    ]
}

/// The texts of a list of strings.
pub open spec fn texts(strings: Seq<String>) -> Seq<Seq<char>> {
    strings.map_values(|s: String| s@)
}

/// Lists the arguments that hand `config` to the client.
pub fn client_arguments(config: &DatabaseConfig) -> (arguments: Vec<String>)
    ensures
        texts(arguments@) == arguments_of(config@),
{
    let mut password = "--password=".to_owned();
    password.append(config.password.as_str());
    let mut arguments: Vec<String> = Vec::new();
    arguments.push("--host".to_owned());
    arguments.push(config.host.clone());
    arguments.push("--port".to_owned());
    arguments.push(to_decimal(config.port));
    arguments.push("--user".to_owned());
    arguments.push(config.username.clone());
    arguments.push("--database".to_owned());
    arguments.push(config.database.clone());
    arguments.push(password);
    assert(texts(arguments@) =~= arguments_of(config@));
    arguments
}

/// The report of a configuration file at `path` that could not be read, with
/// the diagnostic of what went wrong.
pub open spec fn report_of(path: Seq<char>, diagnostic: Seq<char>) -> Seq<char> {
    "Error reading config file "@ + path + ":\n\t"@ + diagnostic
}

/// Writes the report of a configuration file at `path` that could not be
/// read.
pub fn failure_report(path: &str, diagnostic: &str) -> (report: String)
    ensures
        report@ == report_of(path@, diagnostic@),
{
    let mut report = "Error reading config file ".to_owned();
    report.append(path);
    report.append(":\n\t");
    report.append(diagnostic);
    report
}

/// What the launcher does next.
#[derive(Debug, Clone, PartialEq, Eq)]
pub enum Action {
    /// Print the report and leave with the status.
    Report { text: String, status: i32 },
    /// Start the client with the arguments and wait for it.
    Spawn { arguments: Vec<String> },
}

/// An `Action` as values.
pub enum ActionView {
    Report { text: Seq<char>, status: i32 },
    Spawn { arguments: Seq<Seq<char>> },
}

impl View for Action {
    type V = ActionView;

    open spec fn view(&self) -> ActionView {
        match *self {
            Action::Report { text, status } => ActionView::Report { text: text@, status },
            Action::Spawn { arguments } => ActionView::Spawn { arguments: texts(arguments@) },
        }
    }
}

/// What follows the attempt to read the configuration at `path`: with
/// connection parameters the client is started with them, with the
/// diagnostic of a failure it is reported and the launcher leaves with
/// `FAILURE_STATUS`.
pub open spec fn action_after(
    path: Seq<char>,
    outcome: Result<DatabaseConfig, String>,
) -> ActionView {
    match outcome {
        Ok(config) => ActionView::Spawn { arguments: arguments_of(config@) },
        Err(diagnostic) => ActionView::Report {
            text: report_of(path, diagnostic@),
            status: FAILURE_STATUS,
        },
    }
}

/// Decides what follows the attempt to read the configuration at `path`.
pub fn next_action(path: &str, outcome: Result<DatabaseConfig, String>) -> (action: Action)
    ensures
        action@ == action_after(path@, outcome),
{
    match outcome {
        Ok(config) => Action::Spawn { arguments: client_arguments(&config) },
        Err(diagnostic) => Action::Report {
            text: failure_report(path, diagnostic.as_str()),
            status: FAILURE_STATUS,
        },
    }
}

} // verus!
