//! Where the stores live: the address of the primary database, built from
//! the settings, and the file of the cache.

use vstd::prelude::*;
use crate::error::result_view;
use vstd::string::*;
use crate::settings::{effective_setting, get_setting_internal, Settings};
use crate::text::{contains_text, lowercased, occurs_in, to_lowercase};

verus! {

/// The value of a setting that has a default.
pub open spec fn setting_value(settings: &Settings, key: Seq<char>) -> Seq<char> {
    effective_setting(settings.stored(key), key)->0
}

/// The address of a database on a server.
pub open spec fn database_url(
    user: Seq<char>,
    password: Seq<char>,
    host: Seq<char>,
    port: Seq<char>,
    name: Seq<char>,
) -> Seq<char> {
    server_url(user, password, host, port) + "/"@ + name
}

/// The address of a server, without a database.
pub open spec fn server_url(
    user: Seq<char>,
    password: Seq<char>,
    host: Seq<char>,
    port: Seq<char>,
) -> Seq<char> {
    "postgres://"@ + user + ":"@ + password + "@"@ + host + ":"@ + port
}

/// The address of the server that the settings name.
pub open spec fn configured_server(settings: &Settings) -> Seq<char> {
    server_url(
        setting_value(settings, "db_user"@),
        setting_value(settings, "db_password"@),
        setting_value(settings, "db_host"@),
        setting_value(settings, "db_port"@),
    )
}

fn connection_setting(settings: &Settings, key: &str) -> (r: String)
    requires
        key@ == "db_host"@ || key@ == "db_port"@ || key@ == "db_name"@ || key@ == "db_user"@
            || key@ == "db_password"@,
    ensures
        r@ == setting_value(settings, key@),
{
    // every connection setting has a default, so the lookup cannot fail
    match get_setting_internal(settings, key) {
        Ok(value) => value,
        Err(message) => message,
    }
}

/// The address of the configured server, without a database: what a
/// connection is opened to before the database exists.
pub fn server_address(settings: &Settings) -> (r: String)
    ensures
        r@ == configured_server(settings),
{
    let user = connection_setting(settings, "db_user");
    let password = connection_setting(settings, "db_password");
    let host = connection_setting(settings, "db_host");
    let port = connection_setting(settings, "db_port");
    let mut r = "postgres://".to_owned();
    r.append(user.as_str());
    r.append(":");
    r.append(password.as_str());
    r.append("@");
    r.append(host.as_str());
    r.append(":");
    r.append(port.as_str());
    r
}

/// The address of a database of the given name on the configured server.
pub fn database_address(settings: &Settings, database_name: &str) -> (r: String)
    ensures
        r@ == configured_server(settings) + "/"@ + database_name@,
{
    let mut r = server_address(settings);
    r.append("/");
    r.append(database_name);
    r
}

/// The address of the primary database: user, password, host, port and
/// database name as the settings give them, each with its default.
pub fn get_db_config(settings: &Settings) -> (r: Result<String, String>)
    ensures
        r is Ok,
        r->Ok_0@ == database_url(
            setting_value(settings, "db_user"@),
            setting_value(settings, "db_password"@),
            setting_value(settings, "db_host"@),
            setting_value(settings, "db_port"@),
            setting_value(settings, "db_name"@),
        ),
{
    let name = connection_setting(settings, "db_name");
    Ok(database_address(settings, name.as_str()))
}

/// The file that holds the cache.
pub fn get_db_path() -> (path: String)
    ensures
        path@ == "data.db"@,
{
    "data.db".to_owned()
}

/// The statement that creates the configured database for the configured
/// user.
pub fn create_database_statement(settings: &Settings) -> (r: String)
    ensures
        r@ == "CREATE DATABASE "@ + setting_value(settings, "db_name"@) + " OWNER "@
            + setting_value(settings, "db_user"@),
{
    let name = connection_setting(settings, "db_name");
    let user = connection_setting(settings, "db_user");
    let mut r = "CREATE DATABASE ".to_owned();
    r.append(name.as_str());
    r.append(" OWNER ");
    r.append(user.as_str());
    r
}

/// What is reported when creating the database failed with this text.
pub open spec fn creation_failure(database_name: Seq<char>, error_text: Seq<char>) -> Seq<char> {
    if occurs_in("already exists"@, error_text) {
        "Database '"@ + database_name + "' gi\u{e0} esistente"@
    } else {
        "Errore creazione database: "@ + error_text
    }
}

/// Words the failure of creating the database: a database that exists
/// already is reported as such, anything else with the text of the server.
pub fn describe_creation_failure(database_name: &str, error_text: &str) -> (r: String)
    ensures
        r@ == creation_failure(database_name@, error_text@),
{
    if contains_text(error_text, "already exists") {
        let mut r = "Database '".to_owned();
        r.append(database_name);
        r.append("' gi\u{e0} esistente");
        r
    } else {
        let mut r = "Errore creazione database: ".to_owned();
        r.append(error_text);
        r
    }
}

/// What is reported once the database and its tables exist.
pub fn creation_success(database_name: &str) -> (r: String)
    ensures
        r@ == "Database '"@ + database_name@
            + "' e tabelle 'machines', 'users' e 'work_types' creati con successo"@,
{
    let mut r = "Database '".to_owned();
    r.append(database_name);
    r.append("' e tabelle 'machines', 'users' e 'work_types' creati con successo");
    r
}

/// What a failed connection says about the existence of the database,
/// judged by the lower-cased text of the failure.
pub open spec fn existence_verdict(error_text: Seq<char>, lowered: Seq<char>) -> Result<
    bool,
    Seq<char>,
> {
    if occurs_in("does not exist"@, lowered) {
        Ok(false)
    } else if occurs_in("invalid password"@, lowered) || occurs_in(
        "password authentication failed"@,
        lowered,
    ) || occurs_in("authentication"@, lowered) {
        Err("Authentication error: "@ + error_text)
    } else {
        Ok(false)
    }
}

/// Judges a failed connection whose failure text has been lower-cased: a
/// text that says the database does not exist means it is absent; one that
/// speaks of authentication is a failure of its own; any other failure is
/// read as absence.
pub fn judge_connection_failure(error_text: &str, lowered: &str) -> (r: Result<bool, String>)
    ensures
        result_view(r) == existence_verdict(error_text@, lowered@),
{
    if contains_text(lowered, "does not exist") {
        Ok(false)
    } else if contains_text(lowered, "invalid password") || contains_text(
        lowered,
        "password authentication failed",
    ) || contains_text(lowered, "authentication") {
        let mut message = "Authentication error: ".to_owned();
        message.append(error_text);
        Err(message)
    } else {
        Ok(false)
    }
}

/// Whether the database exists, given how connecting to it went: it exists
/// where the connection was made; where it failed, the text of the failure
/// decides as `judge_connection_failure` says.
pub fn check_database_exists(connection: Result<(), String>) -> (r: Result<bool, String>)
    ensures
        match connection {
            Ok(_) => r == Ok::<bool, String>(true),
            Err(text) => match r {
                Ok(exists) => existence_verdict(text@, lowercased(text@)) == Ok::<bool, Seq<char>>(
                    exists,
                ),
                Err(message) => existence_verdict(text@, lowercased(text@)) == Err::<
                    bool,
                    Seq<char>,
                >(message@),
            },
        },
{
    match connection {
        Ok(_) => Ok(true),
        Err(text) => {
            let lowered = to_lowercase(text.as_str());
            judge_connection_failure(text.as_str(), lowered.as_str())
        },
    }
}

} // verus!
