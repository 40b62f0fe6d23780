use vstd::prelude::*;

use crate::secret::{secret_text, SecretText};
use crate::text::{all_ascii, ascii_lower, decimal, push_decimal, to_lowercase, unicode_lowercase};

verus! {

/// The environment that the application runs in; it selects the
/// configuration file that is read after the base one.
#[derive(Debug, Clone, Copy, PartialEq, Eq, Structural)]
pub enum Environment {
    Local,
    Production,
}

/// The name of an environment.
pub open spec fn environment_name(e: Environment) -> Seq<char> {
    match e {
        Environment::Local => seq!['l', 'o', 'c', 'a', 'l'],
        Environment::Production => seq!['p', 'r', 'o', 'd', 'u', 'c', 't', 'i', 'o', 'n'],
    }
}

/// The environment that a (lowercase) name stands for, if any.
pub open spec fn environment_named(s: Seq<char>) -> Option<Environment> {
    if s == environment_name(Environment::Local) {
        Some(Environment::Local)
    } else if s == environment_name(Environment::Production) {
        Some(Environment::Production)
    } else {
        None
    }
}

/// The message of the error for a name that is no environment.
pub open spec fn unknown_environment_message() -> Seq<char> {
    seq![
        'U', 'n', 'k', 'n', 'o', 'w', 'n', ' ', 'e', 'n', 'v', 'i', 'r', 'o', 'n', 'm', 'e', 'n', 't',
    ]
}

/// What reading an environment from a text gives: the environment named by the
/// text once lowercased, or the "Unknown environment" error.
pub open spec fn environment_result_ok(lowered: Seq<char>, r: Result<Environment, String>) -> bool {
    match r {
        Ok(e) => environment_named(lowered) == Some(e),
        Err(m) => environment_named(lowered) is None && m@ == unknown_environment_message(),
    }
}

impl Environment {
    pub fn as_str(&self) -> (r: &'static str)
        ensures
            r@ == environment_name(*self),
    {
        proof {
            reveal_strlit("local");
            reveal_strlit("production");
        }
        match self {
            Environment::Local => "local",
            Environment::Production => "production",
        }
    }

    /// The environment of an already lowercased name: `local` or `production`.
    pub fn from_lowercase_name(name: &str) -> (r: Result<Environment, String>)
        ensures
            environment_result_ok(name@, r),
    {
        let name = String::from_str(name);
        let local = String::from_str("local");
        let production = String::from_str("production");
        proof {
            reveal_strlit("local");
            reveal_strlit("production");
            reveal_strlit("Unknown environment");
            assert("local"@ =~= environment_name(Environment::Local));
            assert("production"@ =~= environment_name(Environment::Production));
            assert("Unknown environment"@ =~= unknown_environment_message());
        }
        if name == local {
            Ok(Environment::Local)
        } else if name == production {
            Ok(Environment::Production)
        } else {
            Err(String::from_str("Unknown environment"))
        }
    }
}

impl TryFrom<String> for Environment {
    type Error = String;

    /// Reads an environment from its name, ignoring case.
    fn try_from(value: String) -> (r: Result<Self, Self::Error>)
        ensures
            environment_result_ok(unicode_lowercase(value@), r),
            all_ascii(value@) ==> environment_result_ok(
                value@.map_values(|c: char| ascii_lower(c)),
                r,
            ),
    {
        let lowered = to_lowercase(value.as_str());
        Environment::from_lowercase_name(lowered.as_str())
    }
}

/// The contract of `try_from` above is stated on the impl itself; the trait's
/// generic statement is not used.
impl vstd::std_specs::convert::TryFromSpecImpl<String> for Environment {
    open spec fn obeys_try_from_spec() -> bool {
        false
    }

    open spec fn try_from_spec(v: String) -> Result<Self, String> {
        vstd::pervasive::arbitrary()
    }
}

/// An environment's name is ASCII and already lowercase, so reading it back,
/// with ASCII letters in any case, gives the same environment.
pub proof fn lemma_environment_name_round_trip(e: Environment)
    ensures
        all_ascii(environment_name(e)),
        environment_name(e).map_values(|c: char| ascii_lower(c)) == environment_name(e),
        environment_named(environment_name(e)) == Some(e),
{
    assert(environment_name(e).map_values(|c: char| ascii_lower(c)) =~= environment_name(e));
}

/// Only the two names are read, each as its own environment: `local` and
/// `production`, nothing else (no prefix, no other spelling once lowercased),
/// and each environment's name is that text.
pub proof fn lemma_only_the_two_names_are_read(s: Seq<char>)
    ensures
        environment_named(s) == Some(Environment::Local) <==> s == "local"@,
        environment_named(s) == Some(Environment::Production) <==> s == "production"@,
        environment_named(s) is None <==> (s != "local"@ && s != "production"@),
        environment_name(Environment::Local) == "local"@,
        environment_name(Environment::Production) == "production"@,
        unknown_environment_message() == "Unknown environment"@,
{
    reveal_strlit("local");
    reveal_strlit("production");
    reveal_strlit("Unknown environment");
    assert(environment_name(Environment::Local) =~= "local"@);
    assert(environment_name(Environment::Production) =~= "production"@);
    assert(unknown_environment_message() =~= "Unknown environment"@);
}

/// The environment selected by the `APP_ENVIRONMENT` variable's value, where
/// an unset variable means `local`.
pub fn environment_from_var(var: Option<String>) -> (r: Result<Environment, String>)
    ensures
        var is None ==> r == Ok::<Environment, String>(Environment::Local),
        var is Some ==> environment_result_ok(unicode_lowercase(var->0@), r),
        var is Some && all_ascii(var->0@) ==> environment_result_ok(
            var->0@.map_values(|c: char| ascii_lower(c)),
            r,
        ),
{
    let value = match var {
        Some(v) => v,
        None => String::from_str("local"),
    };
    proof {
        reveal_strlit("local");
        assert("local"@ =~= environment_name(Environment::Local));
        lemma_environment_name_round_trip(Environment::Local);
    }
    Environment::try_from(value)
}


/// Settings of the HTTP application.
pub struct ApplicationSettings {
    pub port: u16,
    pub host: String,
}

/// Settings of the Postgres database.
pub struct DatabaseSettings {
    pub port: u16,
    pub host: String,
    pub database_user: String,
    pub database_password: SecretText,
    pub database_name: String,
}

/// Struct to hold the configuration settings
pub struct Settings {
    pub application: ApplicationSettings,
    pub database: DatabaseSettings,
}

/// `postgres://<user>:<password>@<host>:<port>/<database>`.
pub open spec fn postgres_url(
    user: Seq<char>,
    password: Seq<char>,
    host: Seq<char>,
    port: u16,
    database: Seq<char>,
) -> Seq<char> {
    seq!['p', 'o', 's', 't', 'g', 'r', 'e', 's', ':', '/', '/'] + user + seq![':'] + password
        + seq!['@'] + host + seq![':'] + decimal(port as nat) + seq!['/'] + database
}

/// The name of the maintenance database that every Postgres server has.
pub open spec fn maintenance_database() -> Seq<char> {
    seq!['p', 'o', 's', 't', 'g', 'r', 'e', 's']
}

impl DatabaseSettings {
    /// The URL of the database server and user, ending in the given database.
    fn url_for(&self, database: &str) -> (r: SecretText)
        ensures
            secret_text(r) == postgres_url(
                self.database_user@,
                secret_text(self.database_password),
                self.host@,
                self.port,
                database@,
            ),
    {
        let mut url = String::from_str("postgres://");
        url.append(self.database_user.as_str());
        url.append(":");
        url.append(self.database_password.expose_secret().as_str());
        url.append("@");
        url.append(self.host.as_str());
        url.append(":");
        push_decimal(&mut url, self.port as u64);
        url.append("/");
        url.append(database);
        proof {
            reveal_strlit("postgres://");
            reveal_strlit(":");
            reveal_strlit("@");
            reveal_strlit("/");
            assert(url@ =~= postgres_url(
                self.database_user@,
                secret_text(self.database_password),
                self.host@,
                self.port,
                database@,
            ));
        }
        SecretText::new(url)
    }

    pub fn connection_string(&self) -> (r: SecretText)
        ensures
            secret_text(r) == postgres_url(
                self.database_user@,
                secret_text(self.database_password),
                self.host@,
                self.port,
                self.database_name@,
            ),
    {
        self.url_for(self.database_name.as_str())
    }

    pub fn connection_string_without_db(&self) -> (r: SecretText)
        ensures
            secret_text(r) == postgres_url(
                self.database_user@,
                secret_text(self.database_password),
                self.host@,
                self.port,
                maintenance_database(),
            ),
    {
        proof {
            reveal_strlit("postgres");
            assert("postgres"@ =~= maintenance_database());
        }
        self.url_for("postgres")
    }
}

} // verus!
