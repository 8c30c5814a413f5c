//! The settings of a deployment, each with a default for when the
//! environment does not set it.

use vstd::prelude::*;

verus! {

/// The port that `str::parse::<u16>` reads from `text`, if it reads one.
pub uninterp spec fn u16_parsing(text: Seq<char>) -> Option<u16>;

/// Calls `str::parse::<u16>` and returns the number, or `None` where std
/// reports an error.
#[verifier::external_body]
fn parse_u16(text: &str) -> (port: Option<u16>)
    ensures
        port == u16_parsing(text@),
{
    text.parse::<u16>().ok()
}

/// The port used where none is configured, or the configured one does not
/// parse.
pub const DEFAULT_PORT: u16 = 3001;

/// The settings of a deployment.
#[derive(Debug)]
pub struct Settings {
    pub database_url: String,
    pub jwt_secret: String,
    pub jwt_refresh_secret: String,
    pub cors_origin: String,
    pub server_port: u16,
}

/// The text of a setting: the configured value, or the default.
pub open spec fn setting_or(configured: Option<String>, default: Seq<char>) -> Seq<char> {
    match configured {
        Some(value) => value@,
        None => default,
    }
}

/// The port of a deployment: the configured value where it parses as a
/// port, the default otherwise.
pub open spec fn port_or_default(configured: Option<String>) -> u16 {
    match configured {
        Some(value) => match u16_parsing(value@) {
            Some(port) => port,
            None => DEFAULT_PORT,
        },
        None => DEFAULT_PORT,
    }
}

impl Clone for Settings {
    fn clone(&self) -> (copy: Self)
        ensures
            copy == *self,
    {
        Settings {
            database_url: self.database_url.clone(),
            jwt_secret: self.jwt_secret.clone(),
            jwt_refresh_secret: self.jwt_refresh_secret.clone(),
            cors_origin: self.cors_origin.clone(),
            server_port: self.server_port,
        }
    }
}

impl Settings {
    /// Builds the settings from the values that the environment holds for
    /// `DATABASE_URL`, `JWT_SECRET`, `JWT_REFRESH_SECRET`, `CORS_ORIGIN` and
    /// `SERVER_PORT`, each replaced by its default where it is not set.
    pub fn new(
        database_url: Option<String>,
        jwt_secret: Option<String>,
        jwt_refresh_secret: Option<String>,
        cors_origin: Option<String>,
        server_port: Option<String>,
    ) -> (settings: Settings)
        ensures
            settings.database_url@ == setting_or(database_url, "sqlite:./auth.db"@),
            settings.jwt_secret@ == setting_or(jwt_secret, "your-super-secure-secret-key"@),
            settings.jwt_refresh_secret@ == setting_or(
                jwt_refresh_secret,
                "your-refresh-secret-key"@,
            ),
            settings.cors_origin@ == setting_or(cors_origin, "http://localhost:5173"@),
            settings.server_port == port_or_default(server_port),
    {
        let port = match server_port {
            Some(value) => match parse_u16(value.as_str()) {
                Some(port) => port,
                None => DEFAULT_PORT,
            },
            None => DEFAULT_PORT,
        };
        Settings {
            database_url: match database_url {
                Some(value) => value,
                None => "sqlite:./auth.db".to_string(),
            },
            jwt_secret: match jwt_secret {
                Some(value) => value,
                None => "your-super-secure-secret-key".to_string(),
            },
            jwt_refresh_secret: match jwt_refresh_secret {
                Some(value) => value,
                None => "your-refresh-secret-key".to_string(),
            },
            cors_origin: match cors_origin {
                Some(value) => value,
                None => "http://localhost:5173".to_string(),
            },
            server_port: port,
        }
    }
}

} // verus!
