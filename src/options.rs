use vstd::prelude::*;

use crate::plan::BuildPlan;

verus! {

/// The failures of detection, planning and building. Each outside failure
/// carries its cause's message.
#[derive(Clone, Debug)]
pub enum PlanError {
    /// Provider detection failed.
    Detection(String),
    /// A caller-supplied serialized plan did not parse.
    PlanParse(String),
    /// Detection succeeded but the plan could not be finalized.
    PlanGeneration(String),
    /// An environment entry is not `NAME` or `NAME=VALUE`.
    InvalidEnvironment(String),
    /// The image executor failed.
    BuildExecution(String),
    /// The plan has no start command and one is required.
    NoStartCommand,
}

/// Image build options as a caller gives them; every field may be left unset.
pub struct BuildOptions {
    pub name: String,
    pub out_dir: Option<String>,
    pub print_dockerfile: Option<bool>,
    pub tags: Option<Vec<String>>,
    pub labels: Option<Vec<String>>,
    pub quiet: Option<bool>,
    pub cache_key: Option<String>,
    pub no_cache: Option<bool>,
    pub inline_cache: Option<bool>,
    pub cache_from: Option<String>,
    pub platform: Option<Vec<String>>,
    pub current_dir: Option<bool>,
    pub no_error_without_start: Option<bool>,
    pub incremental_cache_image: Option<String>,
    pub cpu_quota: Option<String>,
    pub memory: Option<String>,
    pub verbose: Option<bool>,
    pub docker_host: Option<String>,
    pub docker_tls_verify: Option<String>,
}

/// Image build options with every default applied.
pub struct BuildSettings {
    pub name: String,
    pub out_dir: Option<String>,
    pub print_dockerfile: bool,
    pub tags: Vec<String>,
    pub labels: Vec<String>,
    pub quiet: bool,
    pub cache_key: Option<String>,
    pub no_cache: bool,
    pub inline_cache: bool,
    pub cache_from: Option<String>,
    pub platform: Vec<String>,
    pub current_dir: bool,
    pub no_error_without_start: bool,
    pub incremental_cache_image: Option<String>,
    pub cpu_quota: Option<String>,
    pub memory: Option<String>,
    pub verbose: bool,
    pub docker_host: Option<String>,
    pub docker_tls_verify: Option<String>,
}

pub open spec fn flag_or(o: Option<bool>, d: bool) -> bool {
    match o {
        Some(b) => b,
        None => d,
    }
}

pub open spec fn list_or_empty(o: Option<Vec<String>>) -> Seq<Seq<char>> {
    match o {
        Some(v) => v.deep_view(),
        None => Seq::empty(),
    }
}

fn unwrap_flag(o: Option<bool>, d: bool) -> (r: bool)
    ensures
        r == flag_or(o, d),
{
    match o {
        Some(b) => b,
        None => d,
    }
}

fn unwrap_list(o: Option<Vec<String>>) -> (r: Vec<String>)
    ensures
        r.deep_view() == list_or_empty(o),
{
    match o {
        Some(v) => v,
        None => {
            let v: Vec<String> = Vec::new();
            assert(v.deep_view() =~= Seq::<Seq<char>>::empty());
            v
        },
    }
}

impl BuildOptions {
    /// Options for an image named `name`, with every other field unset.
    pub fn named(name: String) -> (r: BuildOptions)
        ensures
            r.name@ == name@,
            r.out_dir.is_none(),
            r.print_dockerfile.is_none(),
            r.tags.is_none(),
            r.labels.is_none(),
            r.quiet.is_none(),
            r.cache_key.is_none(),
            r.no_cache.is_none(),
            r.inline_cache.is_none(),
            r.cache_from.is_none(),
            r.platform.is_none(),
            r.current_dir.is_none(),
            r.no_error_without_start.is_none(),
            r.incremental_cache_image.is_none(),
            r.cpu_quota.is_none(),
            r.memory.is_none(),
            r.verbose.is_none(),
            r.docker_host.is_none(),
            r.docker_tls_verify.is_none(),
    {
        BuildOptions {
            name,
            out_dir: None,
            print_dockerfile: None,
            tags: None,
            labels: None,
            quiet: None,
            cache_key: None,
            no_cache: None,
            inline_cache: None,
            cache_from: None,
            platform: None,
            current_dir: None,
            no_error_without_start: None,
            incremental_cache_image: None,
            cpu_quota: None,
            memory: None,
            verbose: None,
            docker_host: None,
            docker_tls_verify: None,
        }
    }

    /// Applies the defaults. Verbose output wins over `quiet`: quiet is on
    /// only when verbose is off, and then unless explicitly turned off. The
    /// cache options are forwarded as given; the executor lets `no_cache`
    /// take precedence over them.
    pub fn resolve(self) -> (r: BuildSettings)
        ensures
            r.name == self.name,
            r.out_dir == self.out_dir,
            r.print_dockerfile == flag_or(self.print_dockerfile, false),
            r.tags.deep_view() == list_or_empty(self.tags),
            r.labels.deep_view() == list_or_empty(self.labels),
            r.verbose == flag_or(self.verbose, false),
            r.quiet == (!r.verbose && flag_or(self.quiet, true)),
            r.cache_key == self.cache_key,
            r.no_cache == flag_or(self.no_cache, false),
            r.inline_cache == flag_or(self.inline_cache, true),
            r.cache_from == self.cache_from,
            r.platform.deep_view() == list_or_empty(self.platform),
            r.current_dir == flag_or(self.current_dir, true),
            r.no_error_without_start == flag_or(self.no_error_without_start, false),
            r.incremental_cache_image == self.incremental_cache_image,
            r.cpu_quota == self.cpu_quota,
            r.memory == self.memory,
            r.docker_host == self.docker_host,
            r.docker_tls_verify == self.docker_tls_verify,
    {
        let verbose = unwrap_flag(self.verbose, false);
        let no_cache = unwrap_flag(self.no_cache, false);
        let inline_cache = unwrap_flag(self.inline_cache, true);
        let cache_from = self.cache_from;
        BuildSettings {
            name: self.name,
            out_dir: self.out_dir,
            print_dockerfile: unwrap_flag(self.print_dockerfile, false),
            tags: unwrap_list(self.tags),
            labels: unwrap_list(self.labels),
            quiet: !verbose && unwrap_flag(self.quiet, true),
            cache_key: self.cache_key,
            no_cache,
            inline_cache,
            cache_from,
            platform: unwrap_list(self.platform),
            current_dir: unwrap_flag(self.current_dir, true),
            no_error_without_start: unwrap_flag(self.no_error_without_start, false),
            incremental_cache_image: self.incremental_cache_image,
            cpu_quota: self.cpu_quota,
            memory: self.memory,
            verbose,
            docker_host: self.docker_host,
            docker_tls_verify: self.docker_tls_verify,
        }
    }
}

/// Decides whether a plan may be built: a plan without a start command is
/// refused unless the settings tolerate that.
pub fn check_start(plan: &BuildPlan, settings: &BuildSettings) -> (r: Result<(), PlanError>)
    ensures
        r.is_err() <==> (plan@.start.is_none() && !settings.no_error_without_start),
        r.is_err() ==> r == Err::<(), PlanError>(PlanError::NoStartCommand),
{
    if plan.start_cmd().is_none() && !settings.no_error_without_start {
        Err(PlanError::NoStartCommand)
    } else {
        Ok(())
    }
}

} // verus!
