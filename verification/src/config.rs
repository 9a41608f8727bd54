use vstd::prelude::*;

use crate::text::{concat, opt_view, push_all};

verus! {

/// Where the service keeps its data, and how it checks webhooks.
#[derive(Debug, Clone, PartialEq)]
pub struct Config {
    /// Database URL (SQLite path).
    pub database_url: String,
    /// Sentry webhook client secret for signature verification.
    pub sentry_client_secret: Option<String>,
    /// Data directory for the database and the logs.
    pub data_dir: String,
}

/// The database URL used where none is configured: an SQLite file in the data
/// directory, created where it does not exist.
pub open spec fn default_database_url(data_dir: Seq<char>) -> Seq<char> {
    "sqlite:"@ + data_dir + "/data.db?mode=rwc"@
}

impl Config {
    /// The configuration from the data directory and the `DATABASE_URL` and
    /// `SENTRY_CLIENT_SECRET` settings, where they are set.
    pub fn new(data_dir: String, database_url: Option<String>, sentry_client_secret: Option<String>) -> (r: Config)
        ensures
            r.data_dir@ == data_dir@,
            r.database_url@ == match database_url {
                Some(u) => u@,
                None => default_database_url(data_dir@),
            },
            opt_view(r.sentry_client_secret) == opt_view(sentry_client_secret),
    {
        let database_url = match database_url {
            Some(u) => u,
            None => {
                let mut u = concat("sqlite:", data_dir.as_str());
                push_all(&mut u, "/data.db?mode=rwc");
                u
            },
        };
        Config { database_url, sentry_client_secret, data_dir }
    }
}

} // verus!
