//! The settings of the service, and the connection strings they yield.

use crate::text::{decimal, lemma_frame_keeps_apart, port_text};
use vstd::prelude::*;
use vstd::string::*;

verus! {

/// How the database is reached. The type has no rendering of its own: the
/// password is not written out with it.
pub struct DatabaseSettings {
    /// The user to connect as.
    pub username: String,
    /// The user's password: a secret.
    pub password: String,
    /// The port on which the server listens.
    pub port: u16,
    /// The host on which the server runs.
    pub host: String,
    /// The database to work in.
    pub database_name: String,
}

/// The settings of the service.
pub struct Settings {
    /// How the database is reached.
    pub database: DatabaseSettings,
    /// The port on which the service listens.
    pub application_port: u16,
}

/// The connection string that addresses the server, no database selected.
pub open spec fn server_url(settings: DatabaseSettings) -> Seq<char> {
    "postgres://"@ + settings.username@ + seq![':'] + settings.password@ + seq!['@']
        + settings.host@ + seq![':'] + decimal(settings.port as nat)
}

/// The connection string that addresses the database of the settings.
pub open spec fn database_url(settings: DatabaseSettings) -> Seq<char> {
    server_url(settings) + seq!['/'] + settings.database_name@
}

impl DatabaseSettings {
    /// The connection string to the server, no database selected. It holds
    /// the password: it is a secret as well.
    pub fn connection_string_without_db(&self) -> (res: String)
        ensures
            res@ == server_url(*self),
    {
        proof {
            reveal_strlit(":");
            reveal_strlit("@");
            assert(":"@ =~= seq![':']);
            assert("@"@ =~= seq!['@']);
        }
        let mut url = "postgres://".to_owned();
        url.append(self.username.as_str());
        url.append(":");
        url.append(self.password.as_str());
        url.append("@");
        url.append(self.host.as_str());
        url.append(":");
        url.append(port_text(self.port).as_str());
        url
    }

    /// The connection string to the database of the settings. It holds the
    /// password: it is a secret as well.
    pub fn connection_string(&self) -> (res: String)
        ensures
            res@ == database_url(*self),
    {
        proof {
            reveal_strlit("/");
            assert("/"@ =~= seq!['/']);
        }
        let mut url = self.connection_string_without_db();
        url.append("/");
        url.append(self.database_name.as_str());
        url
    }
}

/// The two connection strings differ by the database alone: the one to a
/// database is the one to its server, a slash and the database's name.
pub proof fn lemma_database_follows_server(settings: DatabaseSettings)
    ensures
        database_url(settings) == server_url(settings) + seq!['/'] + settings.database_name@,
        database_url(settings).len() == server_url(settings).len() + 1
            + settings.database_name@.len(),
{
}

/// Settings that differ in the name of the database alone address different
/// databases.
pub proof fn lemma_names_keep_databases_apart(first: DatabaseSettings, second: DatabaseSettings)
    requires
        server_url(first) == server_url(second),
        first.database_name@ != second.database_name@,
    ensures
        database_url(first) != database_url(second),
{
    let none = Seq::<char>::empty();
    let prefix = server_url(first) + seq!['/'];
    lemma_frame_keeps_apart(prefix, first.database_name@, second.database_name@, none);
    assert(prefix + first.database_name@ + none =~= database_url(first));
    assert(prefix + second.database_name@ + none =~= database_url(second));
}

} // verus!
