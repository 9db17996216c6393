//! The configuration of the backend and how it is read from the variables
//! of the environment.

use vstd::prelude::*;
use vstd::string::StringExecFns;
use crate::text::{clone_opt_text, decimal, decimal_string, parse_i64, parse_u16, parsed_i64, parsed_u16};

verus! {

/// Where the database is reached.
#[derive(Debug)]
pub struct DatabaseConfig {
    pub url: String,
}

/// The mathematical value of a [`DatabaseConfig`].
pub struct DatabaseConfigView {
    pub url: Seq<char>,
}

impl View for DatabaseConfig {
    type V = DatabaseConfigView;

    open spec fn view(&self) -> DatabaseConfigView {
        DatabaseConfigView {
            url: self.url.deep_view(),
        }
    }
}

impl DeepView for DatabaseConfig {
    type V = DatabaseConfigView;

    open spec fn deep_view(&self) -> DatabaseConfigView {
        self@
    }
}

impl Clone for DatabaseConfig {
    fn clone(&self) -> (r: Self)
        ensures
            r@ == self@,
    {
        DatabaseConfig {
            url: self.url.clone(),
        }
    }
}

/// Where the server listens.
#[derive(Debug)]
pub struct ServerConfig {
    pub host: String,
    pub port: u16,
}

/// The mathematical value of a [`ServerConfig`].
pub struct ServerConfigView {
    pub host: Seq<char>,
    pub port: u16,
}

impl View for ServerConfig {
    type V = ServerConfigView;

    open spec fn view(&self) -> ServerConfigView {
        ServerConfigView {
            host: self.host.deep_view(),
            port: self.port,
        }
    }
}

impl DeepView for ServerConfig {
    type V = ServerConfigView;

    open spec fn deep_view(&self) -> ServerConfigView {
        self@
    }
}

impl Clone for ServerConfig {
    fn clone(&self) -> (r: Self)
        ensures
            r@ == self@,
    {
        ServerConfig {
            host: self.host.clone(),
            port: self.port,
        }
    }
}

/// How bearer credentials are signed.
#[derive(Debug)]
pub struct JwtConfig {
    pub secret: String,
    /// The life of a credential in seconds.
    pub expiration: i64,
}

/// The mathematical value of a [`JwtConfig`].
pub struct JwtConfigView {
    pub secret: Seq<char>,
    pub expiration: i64,
}

impl View for JwtConfig {
    type V = JwtConfigView;

    open spec fn view(&self) -> JwtConfigView {
        JwtConfigView {
            secret: self.secret.deep_view(),
            expiration: self.expiration,
        }
    }
}

impl DeepView for JwtConfig {
    type V = JwtConfigView;

    open spec fn deep_view(&self) -> JwtConfigView {
        self@
    }
}

impl Clone for JwtConfig {
    fn clone(&self) -> (r: Self)
        ensures
            r@ == self@,
    {
        JwtConfig {
            secret: self.secret.clone(),
            expiration: self.expiration,
        }
    }
}

/// Where object storage is reached.
#[derive(Debug)]
pub struct MinioConfig {
    pub endpoint: String,
    pub access_key: String,
    pub secret_key: String,
    pub bucket: String,
    pub region: String,
}

/// The mathematical value of a [`MinioConfig`].
pub struct MinioConfigView {
    pub endpoint: Seq<char>,
    pub access_key: Seq<char>,
    pub secret_key: Seq<char>,
    pub bucket: Seq<char>,
    pub region: Seq<char>,
}

impl View for MinioConfig {
    type V = MinioConfigView;

    open spec fn view(&self) -> MinioConfigView {
        MinioConfigView {
            endpoint: self.endpoint.deep_view(),
            access_key: self.access_key.deep_view(),
            secret_key: self.secret_key.deep_view(),
            bucket: self.bucket.deep_view(),
            region: self.region.deep_view(),
        }
    }
}

impl DeepView for MinioConfig {
    type V = MinioConfigView;

    open spec fn deep_view(&self) -> MinioConfigView {
        self@
    }
}

impl Clone for MinioConfig {
    fn clone(&self) -> (r: Self)
        ensures
            r@ == self@,
    {
        MinioConfig {
            endpoint: self.endpoint.clone(),
            access_key: self.access_key.clone(),
            secret_key: self.secret_key.clone(),
            bucket: self.bucket.clone(),
            region: self.region.clone(),
        }
    }
}

/// Where the search index is reached.
#[derive(Debug)]
pub struct MeilisearchConfig {
    pub host: String,
    pub api_key: String,
}

/// The mathematical value of a [`MeilisearchConfig`].
pub struct MeilisearchConfigView {
    pub host: Seq<char>,
    pub api_key: Seq<char>,
}

impl View for MeilisearchConfig {
    type V = MeilisearchConfigView;

    open spec fn view(&self) -> MeilisearchConfigView {
        MeilisearchConfigView {
            host: self.host.deep_view(),
            api_key: self.api_key.deep_view(),
        }
    }
}

impl DeepView for MeilisearchConfig {
    type V = MeilisearchConfigView;

    open spec fn deep_view(&self) -> MeilisearchConfigView {
        self@
    }
}

impl Clone for MeilisearchConfig {
    fn clone(&self) -> (r: Self)
        ensures
            r@ == self@,
    {
        MeilisearchConfig {
            host: self.host.clone(),
            api_key: self.api_key.clone(),
        }
    }
}

/// Where the document editor is reached.
#[derive(Debug)]
pub struct OnlyOfficeConfig {
    pub server: String,
    pub jwt_secret: String,
}

/// The mathematical value of an [`OnlyOfficeConfig`].
pub struct OnlyOfficeConfigView {
    pub server: Seq<char>,
    pub jwt_secret: Seq<char>,
}

impl View for OnlyOfficeConfig {
    type V = OnlyOfficeConfigView;

    open spec fn view(&self) -> OnlyOfficeConfigView {
        OnlyOfficeConfigView {
            server: self.server.deep_view(),
            jwt_secret: self.jwt_secret.deep_view(),
        }
    }
}

impl DeepView for OnlyOfficeConfig {
    type V = OnlyOfficeConfigView;

    open spec fn deep_view(&self) -> OnlyOfficeConfigView {
        self@
    }
}

impl Clone for OnlyOfficeConfig {
    fn clone(&self) -> (r: Self)
        ensures
            r@ == self@,
    {
        OnlyOfficeConfig {
            server: self.server.clone(),
            jwt_secret: self.jwt_secret.clone(),
        }
    }
}

/// Where this backend is reached from outside.
#[derive(Debug)]
pub struct AppConfig {
    pub url: String,
}

/// The mathematical value of an [`AppConfig`].
pub struct AppConfigView {
    pub url: Seq<char>,
}

impl View for AppConfig {
    type V = AppConfigView;

    open spec fn view(&self) -> AppConfigView {
        AppConfigView {
            url: self.url.deep_view(),
        }
    }
}

impl DeepView for AppConfig {
    type V = AppConfigView;

    open spec fn deep_view(&self) -> AppConfigView {
        self@
    }
}

impl Clone for AppConfig {
    fn clone(&self) -> (r: Self)
        ensures
            r@ == self@,
    {
        AppConfig {
            url: self.url.clone(),
        }
    }
}

/// The configuration of the backend.
#[derive(Debug)]
pub struct Config {
    pub database: DatabaseConfig,
    pub server: ServerConfig,
    pub jwt: JwtConfig,
    pub minio: MinioConfig,
    pub meilisearch: MeilisearchConfig,
    pub onlyoffice: OnlyOfficeConfig,
    pub app: AppConfig,
}

/// The mathematical value of a [`Config`].
pub struct ConfigView {
    pub database: DatabaseConfigView,
    pub server: ServerConfigView,
    pub jwt: JwtConfigView,
    pub minio: MinioConfigView,
    pub meilisearch: MeilisearchConfigView,
    pub onlyoffice: OnlyOfficeConfigView,
    pub app: AppConfigView,
}

impl View for Config {
    type V = ConfigView;

    open spec fn view(&self) -> ConfigView {
        ConfigView {
            database: self.database@,
            server: self.server@,
            jwt: self.jwt@,
            minio: self.minio@,
            meilisearch: self.meilisearch@,
            onlyoffice: self.onlyoffice@,
            app: self.app@,
        }
    }
}

impl DeepView for Config {
    type V = ConfigView;

    open spec fn deep_view(&self) -> ConfigView {
        self@
    }
}

impl Clone for Config {
    fn clone(&self) -> (r: Self)
        ensures
            r@ == self@,
    {
        Config {
            database: self.database.clone(),
            server: self.server.clone(),
            jwt: self.jwt.clone(),
            minio: self.minio.clone(),
            meilisearch: self.meilisearch.clone(),
            onlyoffice: self.onlyoffice.clone(),
            app: self.app.clone(),
        }
    }
}

/// The variables of the environment that the configuration is read from, each
/// under the name of its variable in lower case. `None` stands for a variable
/// that is not set.
#[derive(Debug)]
pub struct ConfigVars {
    pub database_url: Option<String>,
    pub server_host: Option<String>,
    pub server_port: Option<String>,
    pub jwt_secret: Option<String>,
    pub jwt_expiration: Option<String>,
    pub minio_endpoint: Option<String>,
    pub minio_access_key: Option<String>,
    pub minio_secret_key: Option<String>,
    pub minio_bucket: Option<String>,
    pub minio_region: Option<String>,
    pub meilisearch_host: Option<String>,
    pub meilisearch_api_key: Option<String>,
    pub onlyoffice_server: Option<String>,
    pub onlyoffice_jwt_secret: Option<String>,
    pub app_url: Option<String>,
}

/// The mathematical value of a [`ConfigVars`].
pub struct ConfigVarsView {
    pub database_url: Option<Seq<char>>,
    pub server_host: Option<Seq<char>>,
    pub server_port: Option<Seq<char>>,
    pub jwt_secret: Option<Seq<char>>,
    pub jwt_expiration: Option<Seq<char>>,
    pub minio_endpoint: Option<Seq<char>>,
    pub minio_access_key: Option<Seq<char>>,
    pub minio_secret_key: Option<Seq<char>>,
    pub minio_bucket: Option<Seq<char>>,
    pub minio_region: Option<Seq<char>>,
    pub meilisearch_host: Option<Seq<char>>,
    pub meilisearch_api_key: Option<Seq<char>>,
    pub onlyoffice_server: Option<Seq<char>>,
    pub onlyoffice_jwt_secret: Option<Seq<char>>,
    pub app_url: Option<Seq<char>>,
}

impl View for ConfigVars {
    type V = ConfigVarsView;

    open spec fn view(&self) -> ConfigVarsView {
        ConfigVarsView {
            database_url: self.database_url.deep_view(),
            server_host: self.server_host.deep_view(),
            server_port: self.server_port.deep_view(),
            jwt_secret: self.jwt_secret.deep_view(),
            jwt_expiration: self.jwt_expiration.deep_view(),
            minio_endpoint: self.minio_endpoint.deep_view(),
            minio_access_key: self.minio_access_key.deep_view(),
            minio_secret_key: self.minio_secret_key.deep_view(),
            minio_bucket: self.minio_bucket.deep_view(),
            minio_region: self.minio_region.deep_view(),
            meilisearch_host: self.meilisearch_host.deep_view(),
            meilisearch_api_key: self.meilisearch_api_key.deep_view(),
            onlyoffice_server: self.onlyoffice_server.deep_view(),
            onlyoffice_jwt_secret: self.onlyoffice_jwt_secret.deep_view(),
            app_url: self.app_url.deep_view(),
        }
    }
}

impl DeepView for ConfigVars {
    type V = ConfigVarsView;

    open spec fn deep_view(&self) -> ConfigVarsView {
        self@
    }
}

impl Clone for ConfigVars {
    fn clone(&self) -> (r: Self)
        ensures
            r@ == self@,
    {
        ConfigVars {
            database_url: clone_opt_text(&self.database_url),
            server_host: clone_opt_text(&self.server_host),
            server_port: clone_opt_text(&self.server_port),
            jwt_secret: clone_opt_text(&self.jwt_secret),
            jwt_expiration: clone_opt_text(&self.jwt_expiration),
            minio_endpoint: clone_opt_text(&self.minio_endpoint),
            minio_access_key: clone_opt_text(&self.minio_access_key),
            minio_secret_key: clone_opt_text(&self.minio_secret_key),
            minio_bucket: clone_opt_text(&self.minio_bucket),
            minio_region: clone_opt_text(&self.minio_region),
            meilisearch_host: clone_opt_text(&self.meilisearch_host),
            meilisearch_api_key: clone_opt_text(&self.meilisearch_api_key),
            onlyoffice_server: clone_opt_text(&self.onlyoffice_server),
            onlyoffice_jwt_secret: clone_opt_text(&self.onlyoffice_jwt_secret),
            app_url: clone_opt_text(&self.app_url),
        }
    }
}
/// The value of a variable, or its default where it is not set.
pub open spec fn or_default(value: Option<Seq<char>>, default: Seq<char>) -> Seq<char> {
    match value {
        Some(v) => v,
        None => default,
    }
}

/// The port that the variable names: 8080 where it is not set, and nothing
/// where its text is no number of 16 bits.
pub open spec fn port_of(value: Option<Seq<char>>) -> Option<u16> {
    match value {
        Some(v) => parsed_u16(v),
        None => Some(8080),
    }
}

/// The life of a credential that the variable names: a day where it is not
/// set, and nothing where its text is no number of 64 bits.
pub open spec fn expiration_of(value: Option<Seq<char>>) -> Option<i64> {
    match value {
        Some(v) => parsed_i64(v),
        None => Some(86400),
    }
}

/// The first thing that is wrong with the variables, in the order in which
/// the configuration reads them, if anything is.
pub open spec fn first_fault(vars: ConfigVarsView) -> Option<Seq<char>> {
    if vars.database_url is None {
        Some("DATABASE_URL must be set"@)
    } else if port_of(vars.server_port) is None {
        Some("SERVER_PORT must be a valid u16"@)
    } else if vars.jwt_secret is None {
        Some("JWT_SECRET must be set"@)
    } else if expiration_of(vars.jwt_expiration) is None {
        Some("JWT_EXPIRATION must be a valid i64"@)
    } else if vars.minio_endpoint is None {
        Some("MINIO_ENDPOINT must be set"@)
    } else if vars.minio_access_key is None {
        Some("MINIO_ACCESS_KEY must be set"@)
    } else if vars.minio_secret_key is None {
        Some("MINIO_SECRET_KEY must be set"@)
    } else if vars.minio_bucket is None {
        Some("MINIO_BUCKET must be set"@)
    } else if vars.meilisearch_host is None {
        Some("MEILISEARCH_HOST must be set"@)
    } else if vars.meilisearch_api_key is None {
        Some("MEILISEARCH_API_KEY must be set"@)
    } else if vars.onlyoffice_server is None {
        Some("ONLYOFFICE_SERVER must be set"@)
    } else if vars.onlyoffice_jwt_secret is None {
        Some("ONLYOFFICE_JWT_SECRET must be set"@)
    } else if vars.app_url is None {
        Some("APP_URL must be set"@)
    } else {
        None
    }
}

/// The configuration that variables without a fault stand for.
pub open spec fn config_of(vars: ConfigVarsView) -> ConfigView {
    ConfigView {
        database: DatabaseConfigView { url: vars.database_url->0 },
        server: ServerConfigView {
            host: or_default(vars.server_host, "0.0.0.0"@),
            port: port_of(vars.server_port)->0,
        },
        jwt: JwtConfigView {
            secret: vars.jwt_secret->0,
            expiration: expiration_of(vars.jwt_expiration)->0,
        },
        minio: MinioConfigView {
            endpoint: vars.minio_endpoint->0,
            access_key: vars.minio_access_key->0,
            secret_key: vars.minio_secret_key->0,
            bucket: vars.minio_bucket->0,
            region: or_default(vars.minio_region, "us-east-1"@),
        },
        meilisearch: MeilisearchConfigView {
            host: vars.meilisearch_host->0,
            api_key: vars.meilisearch_api_key->0,
        },
        onlyoffice: OnlyOfficeConfigView {
            server: vars.onlyoffice_server->0,
            jwt_secret: vars.onlyoffice_jwt_secret->0,
        },
        app: AppConfigView { url: vars.app_url->0 },
    }
}

/// The value of a variable that must be set.
fn require(value: Option<String>, missing: &str) -> (r: Result<String, String>)
    ensures
        match value {
            Some(v) => r is Ok && r->Ok_0@ == v@,
            None => r is Err && r->Err_0@ == missing@,
        },
{
    match value {
        Some(v) => Ok(v),
        None => Err(String::from_str(missing)),
    }
}

/// The value of a variable, or its default.
fn default_to(value: Option<String>, default: &str) -> (r: String)
    ensures
        r@ == or_default(value.deep_view(), default@),
{
    match value {
        Some(v) => v,
        None => String::from_str(default),
    }
}

impl Config {
    /// Reads the configuration from the variables of the environment. A
    /// variable without a default must be set, and a number must be one: the
    /// first variable that fails this, in the order of reading, is named in
    /// the error.
    pub fn from_env(vars: ConfigVars) -> (r: Result<Config, String>)
        ensures
            match first_fault(vars@) {
                Some(fault) => r is Err && r->Err_0@ == fault,
                None => r is Ok && r->Ok_0@ == config_of(vars@),
            },
    {
        let url = match require(vars.database_url, "DATABASE_URL must be set") {
            Ok(v) => v,
            Err(e) => {
                return Err(e);
            },
        };
        let host = default_to(vars.server_host, "0.0.0.0");
        let port = match &vars.server_port {
            Some(text) => match parse_u16(text.as_str()) {
                Some(p) => p,
                None => {
                    return Err(String::from_str("SERVER_PORT must be a valid u16"));
                },
            },
            None => 8080,
        };
        let secret = match require(vars.jwt_secret, "JWT_SECRET must be set") {
            Ok(v) => v,
            Err(e) => {
                return Err(e);
            },
        };
        let expiration = match &vars.jwt_expiration {
            Some(text) => match parse_i64(text.as_str()) {
                Some(n) => n,
                None => {
                    return Err(String::from_str("JWT_EXPIRATION must be a valid i64"));
                },
            },
            None => 86400,
        };
        let endpoint = match require(vars.minio_endpoint, "MINIO_ENDPOINT must be set") {
            Ok(v) => v,
            Err(e) => {
                return Err(e);
            },
        };
        let access_key = match require(vars.minio_access_key, "MINIO_ACCESS_KEY must be set") {
            Ok(v) => v,
            Err(e) => {
                return Err(e);
            },
        };
        let secret_key = match require(vars.minio_secret_key, "MINIO_SECRET_KEY must be set") {
            Ok(v) => v,
            Err(e) => {
                return Err(e);
            },
        };
        let bucket = match require(vars.minio_bucket, "MINIO_BUCKET must be set") {
            Ok(v) => v,
            Err(e) => {
                return Err(e);
            },
        };
        let region = default_to(vars.minio_region, "us-east-1");
        let search_host = match require(vars.meilisearch_host, "MEILISEARCH_HOST must be set") {
            Ok(v) => v,
            Err(e) => {
                return Err(e);
            },
        };
        let api_key = match require(vars.meilisearch_api_key, "MEILISEARCH_API_KEY must be set") {
            Ok(v) => v,
            Err(e) => {
                return Err(e);
            },
        };
        let editor = match require(vars.onlyoffice_server, "ONLYOFFICE_SERVER must be set") {
            Ok(v) => v,
            Err(e) => {
                return Err(e);
            },
        };
        let editor_secret = match require(
            vars.onlyoffice_jwt_secret,
            "ONLYOFFICE_JWT_SECRET must be set",
        ) {
            Ok(v) => v,
            Err(e) => {
                return Err(e);
            },
        };
        let app_url = match require(vars.app_url, "APP_URL must be set") {
            Ok(v) => v,
            Err(e) => {
                return Err(e);
            },
        };
        Ok(
            Config {
                database: DatabaseConfig { url },
                server: ServerConfig { host, port },
                jwt: JwtConfig { secret, expiration },
                minio: MinioConfig { endpoint, access_key, secret_key, bucket, region },
                meilisearch: MeilisearchConfig { host: search_host, api_key },
                onlyoffice: OnlyOfficeConfig { server: editor, jwt_secret: editor_secret },
                app: AppConfig { url: app_url },
            },
        )
    }

    /// The address to listen on: the host, a colon, and the port in decimal.
    pub fn server_address(&self) -> (address: String)
        ensures
            address@ == self@.server.host + seq![':'] + decimal(self@.server.port as nat),
    {
        proof {
            reveal_strlit(":");
        }
        assert(":"@ =~= seq![':']);
        let port = decimal_string(self.server.port);
        self.server.host.clone().concat(":").concat(port.as_str())
    }
}

} // verus!
