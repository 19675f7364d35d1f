//! Configuration: the contents of the config and credentials files, and how
//! they combine with the environment.
//!
//! Precedence order: CLI flag > environment variable > config file > default.
use vstd::prelude::*;

use crate::aliases::{keys_distinct, lemma_pairs_map_last_wins, pairs_map, text_pairs, AliasTable};
use crate::paths::{copy_opt_text, opt_text, path_join, path_joined};
use crate::text::{
    after_last_colon, after_last_colon_str, eq_ignore_ascii_case, eq_ignoring_ascii_case,
    is_nonblank, is_nonblank_str, parse_u16, parsed_u16, same_text, trim, trimmed,
};

verus! {

/// The port the gateway listens on when nothing else names one.
pub const DEFAULT_PORT: u16 = 8787;

/// The `[update]` section of `config.toml`.
#[derive(Debug, Clone, PartialEq, Eq)]
pub struct UpdateSection {
    pub check: Option<bool>,
}

/// The `[vertex]` section of `config.toml`.
#[derive(Debug, Clone, PartialEq, Eq)]
pub struct VertexSection {
    pub project: Option<String>,
    pub location: Option<String>,
}

/// The contents of `config.toml`. `models` holds the pairs of its `[models]`
/// table (alias, model name).
#[derive(Debug, Clone, PartialEq, Eq)]
pub struct ConfigFile {
    pub port: Option<u16>,
    pub vertex: Option<VertexSection>,
    pub models: Option<Vec<(String, String)>>,
    pub update: Option<UpdateSection>,
}

/// The `[vertex]` section of `credentials.toml`.
#[derive(Debug, Clone, PartialEq, Eq)]
pub struct VertexCredentials {
    pub key_file: Option<String>,
}

/// The `[gateway]` section of `credentials.toml`.
#[derive(Debug, Clone, PartialEq, Eq)]
pub struct GatewayCredentials {
    pub api_key: Option<String>,
}

/// The contents of `credentials.toml`.
#[derive(Debug, Clone, PartialEq, Eq)]
pub struct CredentialsFile {
    pub vertex: Option<VertexCredentials>,
    pub gateway: Option<GatewayCredentials>,
}

impl Default for ConfigFile {
    fn default() -> (r: ConfigFile)
        ensures
            r.port is None,
            r.vertex is None,
            r.models is None,
            r.update is None,
    {
        ConfigFile { port: None, vertex: None, models: None, update: None }
    }
}

impl Default for CredentialsFile {
    fn default() -> (r: CredentialsFile)
        ensures
            r.vertex is None,
            r.gateway is None,
    {
        CredentialsFile { vertex: None, gateway: None }
    }
}

impl Default for VertexCredentials {
    fn default() -> (r: VertexCredentials)
        ensures
            r.key_file is None,
    {
        VertexCredentials { key_file: None }
    }
}

/// The environment variables that the gateway reads, each `None` when it is
/// not set (or not valid Unicode).
#[derive(Debug, Clone, PartialEq, Eq)]
pub struct Environment {
    pub cram_no_update_check: Option<String>,
    pub cram_home: Option<String>,
    pub home: Option<String>,
    pub xdg_config_home: Option<String>,
    pub bind_addr: Option<String>,
    pub gcp_project_id: Option<String>,
    pub gcp_location: Option<String>,
    pub gateway_api_key: Option<String>,
    pub google_application_credentials: Option<String>,
    pub model_aliases: Option<String>,
}

impl Environment {
    /// An environment in which none of the variables is set.
    pub fn empty() -> (r: Environment)
        ensures
            r.cram_no_update_check is None,
            r.cram_home is None,
            r.home is None,
            r.xdg_config_home is None,
            r.bind_addr is None,
            r.gcp_project_id is None,
            r.gcp_location is None,
            r.gateway_api_key is None,
            r.google_application_credentials is None,
            r.model_aliases is None,
    {
        Environment {
            cram_no_update_check: None,
            cram_home: None,
            home: None,
            xdg_config_home: None,
            bind_addr: None,
            gcp_project_id: None,
            gcp_location: None,
            gateway_api_key: None,
            google_application_credentials: None,
            model_aliases: None,
        }
    }
}

/// A value of `CRAM_NO_UPDATE_CHECK` that turns the update check off: once
/// trimmed, `1`, or `true` or `yes` in any ASCII case.
pub open spec fn env_disables_updates(v: Option<Seq<char>>) -> bool {
    match v {
        Some(s) => {
            let t = trimmed(s);
            t == "1"@ || eq_ignoring_ascii_case(t, "true"@) || eq_ignoring_ascii_case(t, "yes"@)
        },
        None => false,
    }
}

/// A config file whose `[update]` section sets `check = false`.
pub open spec fn config_disables_updates(c: Option<ConfigFile>) -> bool {
    match c {
        Some(cfg) => match cfg.update {
            Some(u) => u.check == Some(false),
            None => false,
        },
        None => false,
    }
}

/// Whether the check for a newer release is turned off, by
/// `CRAM_NO_UPDATE_CHECK` or by `[update] check = false`.
pub fn is_update_check_disabled(env: &Environment, config_file: Option<&ConfigFile>) -> (r: bool)
    ensures
        r == (env_disables_updates(opt_text(env.cram_no_update_check)) || config_disables_updates(
            match config_file {
                Some(c) => Some(*c),
                None => None,
            },
        )),
{
    proof {
        reveal_strlit("1");
        reveal_strlit("true");
        reveal_strlit("yes");
    }
    if let Some(val) = &env.cram_no_update_check {
        let trimmed_val = trim(val.as_str());
        if same_text(trimmed_val, "1") || eq_ignore_ascii_case(trimmed_val, "true")
            || eq_ignore_ascii_case(trimmed_val, "yes") {
            return true;
        }
    }
    if let Some(cfg) = config_file {
        if let Some(update) = &cfg.update {
            if let Some(false) = update.check {
                return true;
            }
        }
    }
    false
}

/// A variable's value when it holds something besides white space.
pub open spec fn nonblank_value(v: Option<Seq<char>>) -> Option<Seq<char>> {
    match v {
        Some(s) => if is_nonblank(s) {
            Some(s)
        } else {
            None
        },
        None => None,
    }
}

fn nonblank_env(v: &Option<String>) -> (r: Option<String>)
    ensures
        opt_text(r) == nonblank_value(opt_text(*v)),
{
    match v {
        Some(s) => if is_nonblank_str(s.as_str()) {
            Some(s.clone())
        } else {
            None
        },
        None => None,
    }
}

/// The directory where configuration and credentials live: `CRAM_HOME` if it
/// is set and not blank, else `.cram` under `HOME` if that is set and not
/// blank, else `.cram` relative to the working directory.
pub open spec fn cram_home_path(cram_home: Option<Seq<char>>, home: Option<Seq<char>>) -> Seq<char> {
    match nonblank_value(cram_home) {
        Some(c) => c,
        None => match nonblank_value(home) {
            Some(h) => path_joined(h, ".cram"@),
            None => ".cram"@,
        },
    }
}

/// Directory where cram stores its configuration and credentials.
/// Defaults to `~/.cram/`, overridable with `CRAM_HOME`.
pub fn cram_home(env: &Environment) -> (r: String)
    ensures
        r@ == cram_home_path(opt_text(env.cram_home), opt_text(env.home)),
{
    proof {
        reveal_strlit(".cram");
    }
    if let Some(c) = nonblank_env(&env.cram_home) {
        return c;
    }
    if let Some(h) = nonblank_env(&env.home) {
        return path_join(h.as_str(), ".cram");
    }
    String::from_str(".cram")
}

/// The project, location, gateway key and model aliases that the Vertex
/// upstream is reached with.
pub struct VertexConfig {
    pub project: String,
    pub location: String,
    pub gateway_key: String,
    pub aliases: AliasTable,
}

impl VertexConfig {
    pub fn project(&self) -> (r: &str)
        ensures
            r@ == self.project@,
    {
        self.project.as_str()
    }

    pub fn location(&self) -> (r: &str)
        ensures
            r@ == self.location@,
    {
        self.location.as_str()
    }

    pub fn gateway_key(&self) -> (r: &str)
        ensures
            r@ == self.gateway_key@,
    {
        self.gateway_key.as_str()
    }
}

/// The settings the gateway runs with. `export_credentials` is a key file
/// path to publish as `GOOGLE_APPLICATION_CREDENTIALS`, when the credentials
/// file names one and the environment does not.
pub struct ResolvedConfig {
    pub vertex: VertexConfig,
    pub port: u16,
    pub export_credentials: Option<String>,
}

/// Why the configuration cannot be resolved.
#[derive(Debug, Clone, PartialEq, Eq)]
pub enum ConfigError {
    /// Neither `GCP_PROJECT_ID` nor `[vertex] project` names a project.
    MissingProject,
    /// `MODEL_ALIASES` is set but is not a JSON object of strings; `detail`
    /// is the parser's message. `export_credentials` is the key file
    /// that is still to be published as `GOOGLE_APPLICATION_CREDENTIALS`,
    /// since that is settled before the aliases are read.
    InvalidModelAliases { detail: String, export_credentials: Option<String> },
}

impl ConfigError {
    /// The text shown to the user for this error.
    pub fn message(&self) -> (r: String)
        ensures
            self is MissingProject ==> r@ == missing_project_message(),
            self matches ConfigError::InvalidModelAliases { detail, .. } ==> r@ == "MODEL_ALIASES is not valid JSON: "@ + detail@,
    {
        match self {
            ConfigError::MissingProject => String::from_str(missing_project_text()),
            ConfigError::InvalidModelAliases { detail, .. } => String::from_str(
                "MODEL_ALIASES is not valid JSON: ",
            ).concat(detail.as_str()),
        }
    }
}

/// The text of `ConfigError::MissingProject`.
pub open spec fn missing_project_message() -> Seq<char> {
    "missing GCP_PROJECT_ID\nSet it in ~/.cram/config.toml ([vertex] project = \"...\") or via the GCP_PROJECT_ID environment variable."@
}

fn missing_project_text() -> (r: &'static str)
    ensures
        r@ == missing_project_message(),
{
    "missing GCP_PROJECT_ID\nSet it in ~/.cram/config.toml ([vertex] project = \"...\") or via the GCP_PROJECT_ID environment variable."
}

/// What `serde_json` makes of a JSON text read as a map of strings: the map
/// it describes when it is an object whose values are all strings (a later
/// duplicate key overwrites an earlier one); for any other text, the text of
/// the parser's error.
pub uninterp spec fn json_string_map(text: Seq<char>) -> Result<Map<Seq<char>, Seq<char>>, Seq<char>>;

/// Calls `serde_json::from_str::<HashMap<String, String>>` and hands the
/// entries out as pairs, or the error's `Display` text. The contract claims
/// that the outcome is a function of the text (named `json_string_map`) and
/// that the pairs hold each key once and describe the map. The order of the
/// pairs is left unsaid.
#[verifier::external_body]
fn parse_json_string_map(text: &str) -> (r: Result<Vec<(String, String)>, String>)
    ensures
        match r {
            Ok(pairs) => json_string_map(text@) matches Ok(m) && keys_distinct(text_pairs(pairs@))
                && pairs_map(text_pairs(pairs@)) == m,
            Err(message) => json_string_map(text@) == Err::<Map<Seq<char>, Seq<char>>, Seq<char>>(message@),
        },
{
    match serde_json::from_str::<std::collections::HashMap<String, String>>(text) {
        Ok(map) => Ok(map.into_iter().collect()),
        Err(e) => Err(e.to_string()),
    }
}

/// The port: the CLI flag; else the number after the last `:` of `BIND_ADDR`
/// when that is set and the number parses; else the config file's `port`;
/// else 8787.
pub open spec fn resolved_port(cli_port: Option<u16>, bind_addr: Option<Seq<char>>, file_port: Option<u16>) -> u16 {
    let fallback = match file_port {
        Some(p) => p,
        None => DEFAULT_PORT,
    };
    match cli_port {
        Some(p) => p,
        None => match bind_addr {
            Some(a) => match parsed_u16(after_last_colon(a)) {
                Some(p) => p,
                None => fallback,
            },
            None => fallback,
        },
    }
}

pub open spec fn file_port(c: Option<ConfigFile>) -> Option<u16> {
    match c {
        Some(cfg) => cfg.port,
        None => None,
    }
}

pub open spec fn file_project(c: Option<ConfigFile>) -> Option<Seq<char>> {
    match c {
        Some(cfg) => match cfg.vertex {
            Some(v) => opt_text(v.project),
            None => None,
        },
        None => None,
    }
}

pub open spec fn file_location(c: Option<ConfigFile>) -> Option<Seq<char>> {
    match c {
        Some(cfg) => match cfg.vertex {
            Some(v) => opt_text(v.location),
            None => None,
        },
        None => None,
    }
}

pub open spec fn models_map(m: Option<Vec<(String, String)>>) -> Map<Seq<char>, Seq<char>> {
    match m {
        Some(pairs) => pairs_map(text_pairs(pairs@)),
        None => Map::empty(),
    }
}

pub open spec fn file_models(c: Option<ConfigFile>) -> Map<Seq<char>, Seq<char>> {
    match c {
        Some(cfg) => models_map(cfg.models),
        None => Map::empty(),
    }
}

pub open spec fn file_api_key(c: Option<CredentialsFile>) -> Option<Seq<char>> {
    match c {
        Some(cr) => match cr.gateway {
            Some(g) => opt_text(g.api_key),
            None => None,
        },
        None => None,
    }
}

pub open spec fn file_key_file(c: Option<CredentialsFile>) -> Option<Seq<char>> {
    match c {
        Some(cr) => match cr.vertex {
            Some(v) => opt_text(v.key_file),
            None => None,
        },
        None => None,
    }
}

/// The first of two optional values that is there.
pub open spec fn first_of(a: Option<Seq<char>>, b: Option<Seq<char>>) -> Option<Seq<char>> {
    match a {
        Some(x) => Some(x),
        None => b,
    }
}

/// The project: `GCP_PROJECT_ID` when not blank, else the config file's.
pub open spec fn resolved_project(env_project: Option<Seq<char>>, file: Option<Seq<char>>) -> Option<Seq<char>> {
    first_of(nonblank_value(env_project), file)
}

/// The location: `GCP_LOCATION` when not blank, else the config file's, else
/// `global`.
pub open spec fn resolved_location(env_location: Option<Seq<char>>, file: Option<Seq<char>>) -> Seq<char> {
    match first_of(nonblank_value(env_location), file) {
        Some(l) => l,
        None => "global"@,
    }
}

/// The gateway key: `GATEWAY_API_KEY` when set (even to an empty value), else
/// the credentials file's, else empty.
pub open spec fn resolved_gateway_key(env_key: Option<Seq<char>>, file: Option<Seq<char>>) -> Seq<char> {
    match first_of(env_key, file) {
        Some(k) => k,
        None => Seq::empty(),
    }
}

/// The key file to publish as `GOOGLE_APPLICATION_CREDENTIALS`: only when
/// that variable is unset or blank, and then the credentials file's key file
/// when it is not blank.
pub open spec fn credentials_to_export(env_creds: Option<Seq<char>>, file: Option<Seq<char>>) -> Option<Seq<char>> {
    if nonblank_value(env_creds) is Some {
        None
    } else {
        nonblank_value(file)
    }
}

/// Whether `MODEL_ALIASES` is to be read: when it is set and not blank.
pub open spec fn reads_env_aliases(env_aliases: Option<Seq<char>>) -> bool {
    nonblank_value(env_aliases) is Some
}

/// The model aliases: the defaults, overridden by the config file's
/// `[models]`, overridden by `MODEL_ALIASES`.
pub open spec fn resolved_aliases(
    defaults: Map<Seq<char>, Seq<char>>,
    file: Map<Seq<char>, Seq<char>>,
    env: Map<Seq<char>, Seq<char>>,
) -> Map<Seq<char>, Seq<char>> {
    defaults.union_prefer_right(file).union_prefer_right(env)
}

/// Resolve configuration from the CLI flag, the environment, and the config
/// and credentials files. `default_aliases` are the built-in model aliases.
pub fn resolve(
    cli_port: Option<u16>,
    config_file: Option<ConfigFile>,
    credentials_file: Option<CredentialsFile>,
    env: &Environment,
    default_aliases: AliasTable,
) -> (r: Result<ResolvedConfig, ConfigError>)
    ensures
        match r {
            Ok(res) => {
                &&& resolved_project(opt_text(env.gcp_project_id), file_project(config_file)) == Some(res.vertex.project@)
                &&& res.vertex.location@ == resolved_location(opt_text(env.gcp_location), file_location(config_file))
                &&& res.vertex.gateway_key@ == resolved_gateway_key(opt_text(env.gateway_api_key), file_api_key(credentials_file))
                &&& res.port == resolved_port(cli_port, opt_text(env.bind_addr), file_port(config_file))
                &&& opt_text(res.export_credentials) == credentials_to_export(
                    opt_text(env.google_application_credentials),
                    file_key_file(credentials_file),
                )
                &&& if reads_env_aliases(opt_text(env.model_aliases)) {
                    json_string_map(opt_text(env.model_aliases)->0) matches Ok(m)
                        && res.vertex.aliases.map() == resolved_aliases(default_aliases.map(), file_models(config_file), m)
                } else {
                    res.vertex.aliases.map() == resolved_aliases(default_aliases.map(), file_models(config_file), Map::empty())
                }
            },
            Err(ConfigError::MissingProject) => resolved_project(
                opt_text(env.gcp_project_id),
                file_project(config_file),
            ) is None,
            Err(ConfigError::InvalidModelAliases { detail, export_credentials }) => {
                &&& resolved_project(opt_text(env.gcp_project_id), file_project(config_file)) is Some
                &&& opt_text(export_credentials) == credentials_to_export(
                    opt_text(env.google_application_credentials),
                    file_key_file(credentials_file),
                )
                &&& reads_env_aliases(opt_text(env.model_aliases))
                &&& json_string_map(opt_text(env.model_aliases)->0) == Err::<Map<Seq<char>, Seq<char>>, Seq<char>>(detail@)
            },
        },
{
    proof {
        reveal_strlit("global");
    }
    let ghost cfg_in = config_file;
    let ghost creds_in = credentials_file;
    let (cfg_port, cfg_vertex, cfg_models) = match config_file {
        Some(c) => (c.port, c.vertex, c.models),
        None => (None, None, None),
    };
    let (creds_vertex, creds_gateway) = match credentials_file {
        Some(c) => (c.vertex, c.gateway),
        None => (None, None),
    };
    let (file_project_v, file_location_v) = match cfg_vertex {
        Some(v) => (v.project, v.location),
        None => (None, None),
    };
    assert(opt_text(file_project_v) == file_project(cfg_in));
    assert(opt_text(file_location_v) == file_location(cfg_in));

    // 1. Port
    let fallback_port = match cfg_port {
        Some(p) => p,
        None => DEFAULT_PORT,
    };
    let port = match cli_port {
        Some(p) => p,
        None => match &env.bind_addr {
            Some(bind_addr) => match parse_u16(after_last_colon_str(bind_addr.as_str())) {
                Some(p) => p,
                None => fallback_port,
            },
            None => fallback_port,
        },
    };

    // 2. Project
    let project = match nonblank_env(&env.gcp_project_id) {
        Some(p) => p,
        None => match file_project_v {
            Some(p) => p,
            None => {
                return Err(ConfigError::MissingProject);
            },
        },
    };

    // 3. Location
    let location = match nonblank_env(&env.gcp_location) {
        Some(l) => l,
        None => match file_location_v {
            Some(l) => l,
            None => String::from_str("global"),
        },
    };

    // 4. Gateway key
    let file_key = match creds_gateway {
        Some(g) => g.api_key,
        None => None,
    };
    assert(opt_text(file_key) == file_api_key(creds_in));
    let gateway_key = match copy_opt_text(&env.gateway_api_key) {
        Some(k) => k,
        None => match file_key {
            Some(k) => k,
            None => String::new(),
        },
    };

    // 5. Key file -> GOOGLE_APPLICATION_CREDENTIALS
    let file_key_file_v = match creds_vertex {
        Some(v) => v.key_file,
        None => None,
    };
    assert(opt_text(file_key_file_v) == file_key_file(creds_in));
    let export_credentials = match nonblank_env(&env.google_application_credentials) {
        Some(_) => None,
        None => nonblank_env(&file_key_file_v),
    };

    // 6. Model aliases: defaults -> config.toml [models] -> MODEL_ALIASES
    let ghost defaults_map = default_aliases.map();
    let mut aliases = default_aliases;
    let ghost file_map = models_map(cfg_models);
    assert(file_map == file_models(cfg_in));
    if let Some(models) = &cfg_models {
        aliases.insert_all(models);
    } else {
        assert(aliases.map().union_prefer_right(Map::empty()) =~= aliases.map());
    }
    assert(aliases.map() == defaults_map.union_prefer_right(file_map));
    if let Some(env_aliases) = nonblank_env(&env.model_aliases) {
        match parse_json_string_map(env_aliases.as_str()) {
            Ok(parsed) => {
                aliases.insert_all(&parsed);
            },
            Err(detail) => {
                return Err(ConfigError::InvalidModelAliases { detail, export_credentials });
            },
        }
    } else {
        assert(aliases.map().union_prefer_right(Map::empty()) =~= aliases.map());
    }

    Ok(
        ResolvedConfig {
            vertex: VertexConfig { project, location, gateway_key, aliases },
            port,
            export_credentials,
        },
    )
}

/// Precedence of the port: the CLI flag wins over `BIND_ADDR`, which wins
/// over the config file, which wins over the default 8787; a `BIND_ADDR`
/// whose last piece is not a port number is passed over.
pub proof fn law_port_precedence(cli_port: Option<u16>, bind_addr: Option<Seq<char>>, file_port: Option<u16>)
    ensures
        cli_port matches Some(p) ==> resolved_port(cli_port, bind_addr, file_port) == p,
        cli_port is None ==> (bind_addr matches Some(a) ==> (parsed_u16(after_last_colon(a)) matches Some(q)
            ==> resolved_port(cli_port, bind_addr, file_port) == q)),
        cli_port is None ==> ((bind_addr is None || parsed_u16(after_last_colon(bind_addr->0)) is None)
            ==> (file_port matches Some(f) ==> resolved_port(cli_port, bind_addr, file_port) == f)),
        cli_port is None && file_port is None ==> ((bind_addr is None || parsed_u16(after_last_colon(bind_addr->0)) is None)
            ==> resolved_port(cli_port, bind_addr, file_port) == DEFAULT_PORT),
{
}

/// Precedence of the project, location and gateway key: a non-blank
/// environment variable wins over the file, the file over the default; the
/// gateway key from the environment wins even when it is empty.
pub proof fn law_environment_over_file(
    env_value: Option<Seq<char>>,
    file_value: Option<Seq<char>>,
)
    ensures
        nonblank_value(env_value) matches Some(e) ==> resolved_project(env_value, file_value) == Some(e)
            && resolved_location(env_value, file_value) == e,
        nonblank_value(env_value) is None ==> resolved_project(env_value, file_value) == file_value,
        nonblank_value(env_value) is None ==> (file_value matches Some(f) ==> resolved_location(env_value, file_value) == f),
        nonblank_value(env_value) is None && file_value is None ==> resolved_location(env_value, file_value) == "global"@,
        env_value matches Some(e) ==> resolved_gateway_key(env_value, file_value) == e,
        env_value is None ==> (file_value matches Some(f) ==> resolved_gateway_key(env_value, file_value) == f),
        env_value is None && file_value is None ==> resolved_gateway_key(env_value, file_value) == Seq::<char>::empty(),
{
}

/// Precedence of model aliases: `MODEL_ALIASES` wins over the config file's
/// `[models]`, which wins over the built-in aliases; every alias of any of
/// the three is kept.
pub proof fn law_alias_precedence(
    defaults: Map<Seq<char>, Seq<char>>,
    file: Map<Seq<char>, Seq<char>>,
    env: Map<Seq<char>, Seq<char>>,
    alias: Seq<char>,
)
    ensures
        resolved_aliases(defaults, file, env).dom().contains(alias) <==> (env.dom().contains(alias)
            || file.dom().contains(alias) || defaults.dom().contains(alias)),
        env.dom().contains(alias) ==> resolved_aliases(defaults, file, env)[alias] == env[alias],
        !env.dom().contains(alias) && file.dom().contains(alias) ==> resolved_aliases(defaults, file, env)[alias]
            == file[alias],
        !env.dom().contains(alias) && !file.dom().contains(alias) && defaults.dom().contains(alias)
            ==> resolved_aliases(defaults, file, env)[alias] == defaults[alias],
{
}

/// The key file is published only when the environment names none, and the
/// environment's own value is never overridden.
pub proof fn law_environment_credentials_kept(env_creds: Option<Seq<char>>, file: Option<Seq<char>>)
    ensures
        nonblank_value(env_creds) is Some ==> credentials_to_export(env_creds, file) is None,
        nonblank_value(env_creds) is None ==> credentials_to_export(env_creds, file) == nonblank_value(file),
{
}

/// The config file's `[models]` table enters the alias table in full:
/// every alias of it, with the model name of its last entry, is looked up
/// as that name in the resolved aliases, unless `MODEL_ALIASES` names it.
pub proof fn law_config_models_enter_table(
    defaults: Map<Seq<char>, Seq<char>>,
    cfg: ConfigFile,
    env: Map<Seq<char>, Seq<char>>,
    i: int,
)
    requires
        cfg.models matches Some(pairs) && 0 <= i < pairs@.len() && (forall|j: int|
            i < j < pairs@.len() ==> #[trigger] pairs@[j].0@ != pairs@[i].0@) && !env.dom().contains(
            pairs@[i].0@,
        ),
    ensures
        ({
            let pairs = cfg.models->0;
            &&& resolved_aliases(defaults, file_models(Some(cfg)), env).dom().contains(pairs@[i].0@)
            &&& resolved_aliases(defaults, file_models(Some(cfg)), env)[pairs@[i].0@] == pairs@[i].1@
        }),
{
    let pairs = cfg.models->0;
    let s = text_pairs(pairs@);
    assert forall|j: int| i < j < s.len() implies #[trigger] s[j].0 != s[i].0 by {
        assert(s[j].0 == pairs@[j].0@);
        assert(pairs@[j].0@ != pairs@[i].0@);
    }
    lemma_pairs_map_last_wins(s, i);
}

} // verus!
