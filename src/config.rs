//! The process configuration, read from the environment.

use vstd::prelude::*;
use crate::json::{json_object, json_string_map, parse_string_map, string_map_json};
use crate::labels::pairs_view;

verus! {

/// Prefix of the environment variables handed on to the workflow generator.
pub const WORKFLOW_GENERATOR_PREFIX: &'static str = "WORKFLOW_GENERATOR_";

/// Default repository of the deploy image: none.
pub fn default_deploy_repository() -> (r: String)
    ensures
        r@.len() == 0,
{
    String::new()
}

/// Default port of the query server.
pub fn default_server_port() -> (r: u16)
    ensures
        r == 8888,
{
    8888
}

/// Default host of the query server.
pub fn default_server_host() -> (r: String)
    ensures
        r@ == "0.0.0.0"@,
{
    String::from_str("0.0.0.0")
}

/// By default the deploy job's file system is writable.
pub fn default_deploy_ro_fs() -> (r: bool)
    ensures
        !r,
{
    false
}

/// The configuration as the environment spells it.
#[derive(Clone, Debug)]
pub struct GordoEnvironmentConfig {
    pub deploy_image: String,
    pub deploy_repository: String,
    pub server_port: u16,
    pub server_host: String,
    pub docker_registry: String,
    pub default_deploy_environment: String,
    pub resources_labels: String,
    pub deploy_job_ro_fs: bool,
    pub argo_service_account: Option<String>,
    pub argo_version_number: Option<String>,
}

impl Default for GordoEnvironmentConfig {
    fn default() -> (r: GordoEnvironmentConfig)
        ensures
            r.deploy_image@ == "gordo-infrastructure/gordo-deploy"@,
            r.deploy_repository@.len() == 0,
            r.server_port == 8888,
            r.server_host@ == "0.0.0.0"@,
            r.docker_registry@ == "docker.io"@,
            r.default_deploy_environment@.len() == 0,
            r.resources_labels@.len() == 0,
            !r.deploy_job_ro_fs,
            r.argo_service_account is None,
            r.argo_version_number is None,
    {
        GordoEnvironmentConfig {
            deploy_image: String::from_str("gordo-infrastructure/gordo-deploy"),
            deploy_repository: String::new(),
            server_port: 8888,
            server_host: String::from_str("0.0.0.0"),
            docker_registry: String::from_str("docker.io"),
            default_deploy_environment: String::new(),
            resources_labels: String::new(),
            deploy_job_ro_fs: false,
            argo_service_account: None,
            argo_version_number: None,
        }
    }
}

/// The configuration of the controller.
#[derive(Clone, Debug)]
pub struct Config {
    pub deploy_image: String,
    pub deploy_repository: String,
    pub server_port: u16,
    pub server_host: String,
    pub docker_registry: String,
    pub default_deploy_environment: Option<Vec<(String, String)>>,
    /// Labels for the deploy job and its pods, in key order.
    pub resources_labels: Option<Vec<(String, String)>>,
    pub deploy_job_ro_fs: bool,
    pub argo_service_account: Option<String>,
    pub argo_version_number: Option<u8>,
    pub workflow_generator_envs: Vec<(String, String)>,
}

/// A configuration field that could not be read, and why.
#[derive(Debug)]
pub struct ConfigFieldError {
    pub field: String,
    pub message: String,
}

/// The value of a decimal number of at most 255, as `u8`'s `FromStr` reads it: an
/// optional `+`, then one or more digits.
pub open spec fn parsed_u8(s: Seq<char>) -> Option<u8> {
    let d = if s.len() > 0 && s[0] == '+' { s.drop_first() } else { s };
    if d.len() > 0 && (forall|i: int| 0 <= i < d.len() ==> '0' <= #[trigger] d[i] <= '9') && digits_value(d) < 256 {
        Some(digits_value(d) as u8)
    } else {
        None
    }
}

/// The number that decimal digits spell.
pub open spec fn digits_value(d: Seq<char>) -> nat
    decreases d.len(),
{
    if d.len() == 0 {
        0
    } else {
        digits_value(d.drop_last()) * 10 + ((d.last() as nat) - ('0' as nat)) as nat
    }
}

/// Relies on `str::parse::<u8>`: the number, or the parser's message.
#[verifier::external_body]
fn parse_u8(s: &str) -> (r: Result<u8, String>)
    ensures
        match r {
            Ok(n) => parsed_u8(s@) == Some(n),
            Err(_) => parsed_u8(s@) is None,
        },
{
    s.parse::<u8>().map_err(|e| e.to_string())
}

/// Whether `s` starts with `prefix`.
pub open spec fn has_prefix(s: Seq<char>, prefix: Seq<char>) -> bool {
    s.len() >= prefix.len() && s.subrange(0, prefix.len() as int) == prefix
}

fn starts_with(s: &String, prefix: &str) -> (r: bool)
    ensures
        r == has_prefix(s@, prefix@),
{
    let n = prefix.unicode_len();
    if s.as_str().unicode_len() < n {
        return false;
    }
    let head = String::from_str(s.as_str().substring_char(0, n));
    let p = String::from_str(prefix);
    head == p
}

/// The entries whose key starts, or does not start, with `prefix`, in their order.
pub open spec fn entries_with_prefix(envs: Seq<(Seq<char>, Seq<char>)>, prefix: Seq<char>, with: bool) -> Seq<(Seq<char>, Seq<char>)> {
    envs.filter(|e: (Seq<char>, Seq<char>)| has_prefix(e.0, prefix) == with)
}

/// Splits environment variables into those for the workflow generator (the first
/// list) and the others, each in their order.
pub fn split_workflow_generator_envs(envs: Vec<(String, String)>) -> (r: (Vec<(String, String)>, Vec<(String, String)>))
    ensures
        pairs_view(r.0@) == entries_with_prefix(pairs_view(envs@), WORKFLOW_GENERATOR_PREFIX@, true),
        pairs_view(r.1@) == entries_with_prefix(pairs_view(envs@), WORKFLOW_GENERATOR_PREFIX@, false),
{
    let ghost all = pairs_view(envs@);
    let ghost pw = |e: (Seq<char>, Seq<char>)| has_prefix(e.0, WORKFLOW_GENERATOR_PREFIX@) == true;
    let ghost po = |e: (Seq<char>, Seq<char>)| has_prefix(e.0, WORKFLOW_GENERATOR_PREFIX@) == false;
    let mut generator: Vec<(String, String)> = Vec::new();
    let mut other: Vec<(String, String)> = Vec::new();
    let mut i: usize = 0;
    while i < envs.len()
        invariant
            i <= envs@.len(),
            all == pairs_view(envs@),
            pw == (|e: (Seq<char>, Seq<char>)| has_prefix(e.0, WORKFLOW_GENERATOR_PREFIX@) == true),
            po == (|e: (Seq<char>, Seq<char>)| has_prefix(e.0, WORKFLOW_GENERATOR_PREFIX@) == false),
            pairs_view(generator@) == all.subrange(0, i as int).filter(pw),
            pairs_view(other@) == all.subrange(0, i as int).filter(po),
        decreases envs.len() - i,
    {
        let key = envs[i].0.clone();
        let value = envs[i].1.clone();
        let w = starts_with(&key, WORKFLOW_GENERATOR_PREFIX);
        proof {
            let s = all.subrange(0, i + 1);
            assert(s.drop_last() =~= all.subrange(0, i as int));
            assert(s.last() == (key@, value@));
            reveal(Seq::filter);
        }
        if w {
            generator.push((key, value));
        } else {
            other.push((key, value));
        }
        proof {
            let s = all.subrange(0, i + 1);
            assert(pairs_view(generator@) =~= s.filter(pw));
            assert(pairs_view(other@) =~= s.filter(po));
        }
        i = i + 1;
    }
    assert(all.subrange(0, all.len() as int) =~= all);
    (generator, other)
}

/// What a configuration field of JSON text holds: nothing where the text is empty,
/// else the entries of the object of strings it spells.
pub open spec fn json_field(text: Seq<char>) -> Option<Option<Seq<(Seq<char>, Seq<char>)>>> {
    if text.len() == 0 {
        Some(None)
    } else {
        match json_string_map(text) {
            Some(kv) => Some(Some(kv)),
            None => None,
        }
    }
}

/// Optional key-value pairs, with strings as sequences.
pub open spec fn opt_pairs_view(o: Option<Vec<(String, String)>>) -> Option<Seq<(Seq<char>, Seq<char>)>> {
    match o {
        Some(v) => Some(pairs_view(v@)),
        None => None,
    }
}

impl Config {
    /// Reads a field that holds a JSON object of strings, or nothing where it is empty.
    pub fn load_from_json(json_value: &str) -> (r: Result<Option<Vec<(String, String)>>, String>)
        ensures
            match r {
                Ok(o) => json_field(json_value@) == Some(opt_pairs_view(o)),
                Err(_) => json_field(json_value@) is None,
            },
    {
        if json_value.unicode_len() == 0 {
            return Ok(None);
        }
        match parse_string_map(json_value) {
            Ok(kv) => Ok(Some(kv)),
            Err(e) => Err(e),
        }
    }

    /// The resource labels as a JSON object, or empty text where there are none.
    pub fn get_resources_labels_json(&self) -> (r: Result<String, String>)
        ensures
            r is Ok,
            r->Ok_0@ == match self.resources_labels {
                Some(l) => json_object(pairs_view(l@)),
                None => Seq::empty(),
            },
    {
        match &self.resources_labels {
            Some(labels) => Ok(string_map_json(labels)),
            None => Ok(String::new()),
        }
    }

    /// The configuration from its environment spelling and the variables for the
    /// workflow generator: the JSON fields and the argo version are read, and the
    /// first that cannot be is named in the error.
    pub fn from_environment(env: GordoEnvironmentConfig, workflow_generator_envs: Vec<(String, String)>) -> (r: Result<Config, ConfigFieldError>)
        ensures
            match r {
                Ok(c) => {
                    &&& c.deploy_image == env.deploy_image
                    &&& c.deploy_repository == env.deploy_repository
                    &&& c.server_port == env.server_port
                    &&& c.server_host == env.server_host
                    &&& c.docker_registry == env.docker_registry
                    &&& c.deploy_job_ro_fs == env.deploy_job_ro_fs
                    &&& c.argo_service_account == env.argo_service_account
                    &&& c.workflow_generator_envs == workflow_generator_envs
                    &&& json_field(env.default_deploy_environment@) == Some(opt_pairs_view(c.default_deploy_environment))
                    &&& json_field(env.resources_labels@) == Some(opt_pairs_view(c.resources_labels))
                    &&& c.argo_version_number == match env.argo_version_number {
                        Some(v) => parsed_u8(v@),
                        None => None,
                    }
                    &&& (env.argo_version_number is Some ==> c.argo_version_number is Some)
                },
                Err(e) => {
                    ||| (json_field(env.default_deploy_environment@) is None && e.field@ == "DEFAULT_DEPLOY_ENVIRONMENT"@)
                    ||| (json_field(env.default_deploy_environment@) is Some && json_field(env.resources_labels@) is None && e.field@ == "RESOURCES_LABELS"@)
                    ||| (json_field(env.default_deploy_environment@) is Some && json_field(env.resources_labels@) is Some
                        && env.argo_version_number is Some && parsed_u8(env.argo_version_number->0@) is None
                        && e.field@ == "ARGO_VERSION_NUMBER"@)
                },
            },
    {
        let default_deploy_environment = match Config::load_from_json(env.default_deploy_environment.as_str()) {
            Ok(v) => v,
            Err(message) => {
                return Err(ConfigFieldError { field: String::from_str("DEFAULT_DEPLOY_ENVIRONMENT"), message });
            },
        };
        let resources_labels = match Config::load_from_json(env.resources_labels.as_str()) {
            Ok(v) => v,
            Err(message) => {
                return Err(ConfigFieldError { field: String::from_str("RESOURCES_LABELS"), message });
            },
        };
        let argo_version_number = match &env.argo_version_number {
            Some(v) => match parse_u8(v.as_str()) {
                Ok(n) => Some(n),
                Err(message) => {
                    return Err(ConfigFieldError { field: String::from_str("ARGO_VERSION_NUMBER"), message });
                },
            },
            None => None,
        };
        Ok(Config {
            deploy_image: env.deploy_image,
            deploy_repository: env.deploy_repository,
            server_port: env.server_port,
            server_host: env.server_host,
            docker_registry: env.docker_registry,
            default_deploy_environment,
            resources_labels,
            deploy_job_ro_fs: env.deploy_job_ro_fs,
            argo_service_account: env.argo_service_account,
            argo_version_number,
            workflow_generator_envs,
        })
    }
}

} // verus!
