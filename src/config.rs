use vstd::prelude::*;

verus! {

/// The server's settings.
pub struct Config {
    pub mongo_uri: String,
    pub database_name: String,
    pub jwt_secret: String,
    pub default_team_id: Option<String>,
    pub ai_local_endpoint: String,
    pub ai_aws_endpoint: String,
    pub ai_use_local: bool,
}

/// A setting that has no default and was not given.
#[derive(Debug, Clone, Copy, PartialEq, Eq, Structural)]
pub enum ConfigError {
    MissingMongoUri,
    MissingJwtSecret,
    MissingAiAwsEndpoint,
}

pub const DEFAULT_DATABASE: &'static str = "chat_db";
pub const DEFAULT_AI_LOCAL_ENDPOINT: &'static str = "http://localhost:9000";
pub const FALSE_TEXT: &'static str = "false";

/// The text of a setting, or `default` when it was not given.
pub open spec fn or_default(given: Option<String>, default: Seq<char>) -> Seq<char> {
    match given {
        Some(s) => s@,
        None => default,
    }
}

fn value_or(given: Option<String>, default: &str) -> (r: String)
    ensures
        r@ == or_default(given, default@),
{
    match given {
        Some(s) => s,
        None => default.to_string(),
    }
}

impl Config {
    /// Settles the settings from the values given for them: the store's
    /// connection string, the signing secret and the remote inference endpoint
    /// are required; the database defaults to `chat_db`, the local endpoint to
    /// `http://localhost:9000`, and the local flag is off only when given as
    /// `false`.
    pub fn resolve(
        mongo_uri: Option<String>,
        database_name: Option<String>,
        jwt_secret: Option<String>,
        default_team_id: Option<String>,
        ai_local_endpoint: Option<String>,
        ai_aws_endpoint: Option<String>,
        ai_use_local: Option<String>,
    ) -> (r: Result<Config, ConfigError>)
        ensures
            mongo_uri is None <==> r == Err::<Config, ConfigError>(ConfigError::MissingMongoUri),
            mongo_uri is Some && jwt_secret is None <==> r == Err::<Config, ConfigError>(
                ConfigError::MissingJwtSecret,
            ),
            mongo_uri is Some && jwt_secret is Some && ai_aws_endpoint is None <==> r == Err::<
                Config,
                ConfigError,
            >(ConfigError::MissingAiAwsEndpoint),
            r matches Ok(c) ==> {
                &&& c.mongo_uri == mongo_uri->Some_0
                &&& c.database_name@ == or_default(database_name, DEFAULT_DATABASE@)
                &&& c.jwt_secret == jwt_secret->Some_0
                &&& c.default_team_id == default_team_id
                &&& c.ai_local_endpoint@ == or_default(
                    ai_local_endpoint,
                    DEFAULT_AI_LOCAL_ENDPOINT@,
                )
                &&& c.ai_aws_endpoint == ai_aws_endpoint->Some_0
                &&& c.ai_use_local == !(ai_use_local matches Some(f) && f@ == FALSE_TEXT@)
            },
    {
        let mongo_uri = match mongo_uri {
            Some(v) => v,
            None => {
                return Err(ConfigError::MissingMongoUri);
            },
        };
        let jwt_secret = match jwt_secret {
            Some(v) => v,
            None => {
                return Err(ConfigError::MissingJwtSecret);
            },
        };
        let ai_aws_endpoint = match ai_aws_endpoint {
            Some(v) => v,
            None => {
                return Err(ConfigError::MissingAiAwsEndpoint);
            },
        };
        let use_local = match &ai_use_local {
            Some(f) => *f != FALSE_TEXT.to_string(),
            None => true,
        };
        Ok(
            Config {
                mongo_uri,
                database_name: value_or(database_name, DEFAULT_DATABASE),
                jwt_secret,
                default_team_id,
                ai_local_endpoint: value_or(ai_local_endpoint, DEFAULT_AI_LOCAL_ENDPOINT),
                ai_aws_endpoint,
                ai_use_local: use_local,
            },
        )
    }
}

} // verus!
