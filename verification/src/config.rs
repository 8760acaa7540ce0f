//! The settings of the service.

use crate::text::decimal;
use crate::text::decimal_text;
use vstd::prelude::*;

verus! {

/// The settings of the service as they are read, every value a text.
#[derive(Debug, PartialEq, Eq)]
pub struct Variables {
    pub api_key: String,
    pub postgres_user: String,
    pub postgres_password: String,
    pub postgres_host: String,
    pub postgres_port: String,
    pub postgres_db: String,
    pub meili_host: String,
    pub meili_master_key: String,
    pub sentry_dsn: String,
}

/// The settings of the service.
#[derive(Debug, PartialEq, Eq)]
pub struct Config {
    /// The key that a request must present.
    pub api_key: String,
    pub postgres_user: String,
    pub postgres_password: String,
    pub postgres_host: String,
    pub postgres_port: u32,
    pub postgres_db: String,
    /// The address of the search service.
    pub meili_host: String,
    /// The key that the search service asks for.
    pub meili_master_key: String,
    /// Where errors are reported to.
    pub sentry_dsn: String,
}

/// What a `Config` holds.
pub struct ConfigView {
    pub api_key: Seq<char>,
    pub postgres_user: Seq<char>,
    pub postgres_password: Seq<char>,
    pub postgres_host: Seq<char>,
    pub postgres_port: u32,
    pub postgres_db: Seq<char>,
    pub meili_host: Seq<char>,
    pub meili_master_key: Seq<char>,
    pub sentry_dsn: Seq<char>,
}

impl View for Config {
    type V = ConfigView;

    open spec fn view(&self) -> ConfigView {
        ConfigView {
            api_key: self.api_key@,
            postgres_user: self.postgres_user@,
            postgres_password: self.postgres_password@,
            postgres_host: self.postgres_host@,
            postgres_port: self.postgres_port,
            postgres_db: self.postgres_db@,
            meili_host: self.meili_host@,
            meili_master_key: self.meili_master_key@,
            sentry_dsn: self.sentry_dsn@,
        }
    }
}

/// The number that `str::parse::<u32>` reads from `text`, or `None` where
/// it reads none.
pub uninterp spec fn parsed_u32(text: Seq<char>) -> Option<u32>;

/// Calls `str::parse::<u32>` and drops what the error says. Claimed of
/// it: the outcome is a function of the text alone.
#[verifier::external_body]
fn parse_u32(text: &str) -> (number: Option<u32>)
    ensures
        number == parsed_u32(text@),
{
    text.parse::<u32>().ok()
}

impl Config {
    /// The settings that `values` stand for when the port reads as
    /// `port`.
    pub open spec fn with_port(values: Variables, port: u32) -> ConfigView {
        ConfigView {
            api_key: values.api_key@,
            postgres_user: values.postgres_user@,
            postgres_password: values.postgres_password@,
            postgres_host: values.postgres_host@,
            postgres_port: port,
            postgres_db: values.postgres_db@,
            meili_host: values.meili_host@,
            meili_master_key: values.meili_master_key@,
            sentry_dsn: values.sentry_dsn@,
        }
    }

    /// Makes the settings of `values` and the port that has been read
    /// from them.
    pub fn assemble(values: Variables, port: u32) -> (config: Config)
        ensures
            config@ == Config::with_port(values, port),
    {
        Config {
            api_key: values.api_key,
            postgres_user: values.postgres_user,
            postgres_password: values.postgres_password,
            postgres_host: values.postgres_host,
            postgres_port: port,
            postgres_db: values.postgres_db,
            meili_host: values.meili_host,
            meili_master_key: values.meili_master_key,
            sentry_dsn: values.sentry_dsn,
        }
    }

    /// Makes the settings from the values that were read: every text is
    /// kept, and the port is the number that its text reads as. `None`
    /// where the text of the port reads as no number.
    pub fn load(values: Variables) -> (config: Option<Config>)
        ensures
            match parsed_u32(values.postgres_port@) {
                Some(port) => config is Some && config->Some_0@ == Config::with_port(values, port),
                None => config is None,
            },
    {
        match parse_u32(values.postgres_port.as_str()) {
            Some(port) => Some(Config::assemble(values, port)),
            None => None,
        }
    }

    /// The address of the database, as the store's client takes it.
    pub open spec fn database_address(self) -> Seq<char> {
        "postgresql://"@ + self.postgres_user@ + ":"@ + self.postgres_password@ + "@"@
            + self.postgres_host@ + ":"@ + decimal(self.postgres_port as int) + "/"@
            + self.postgres_db@
    }

    /// Writes the address of the database, as the store's client takes
    /// it.
    pub fn database_url(&self) -> (url: String)
        ensures
            url@ == self.database_address(),
    {
        let mut url = String::from_str("postgresql://");
        url.append(self.postgres_user.as_str());
        url.append(":");
        url.append(self.postgres_password.as_str());
        url.append("@");
        url.append(self.postgres_host.as_str());
        url.append(":");
        let port = decimal_text(self.postgres_port as i64);
        url.append(port.as_str());
        url.append("/");
        url.append(self.postgres_db.as_str());
        url
    }

    /// Whether a request that presents `presented` as its key is admitted:
    /// it presents one, and it is the key of the settings.
    pub fn admits(&self, presented: Option<&str>) -> (admitted: bool)
        ensures
            admitted == (presented is Some && presented->Some_0@ == self.api_key@),
    {
        match presented {
            Some(key) => {
                let key = String::from_str(key);
                key == self.api_key
            },
            None => false,
        }
    }
}

} // verus!
