//! What the runner inside the machine is started with, and how its
//! registration URL is found.

use vstd::prelude::*;
use vstd::string::StringExecFns;
use crate::error::ConfigError;
use crate::json::{json_string_literal, quote, text_of};

verus! {

/// The host that runners register with when no other base is given.
pub const DEFAULT_GITHUB_URL: &'static str = "https://github.com/";

/// The inputs from which the registration URL is detected when none is given
/// outright. An absent entry and an empty organization or repository mean
/// the same.
#[derive(Debug, Clone)]
pub struct UrlEnvironment {
    /// Replaces the default base, as it stands.
    pub github_url: Option<String>,
    /// An organization, such as `acme`.
    pub runner_org: Option<String>,
    /// A repository with its owner, such as `acme/widgets`.
    pub runner_repo: Option<String>,
}

pub struct UrlEnvironmentView {
    pub github_url: Option<Seq<char>>,
    pub runner_org: Option<Seq<char>>,
    pub runner_repo: Option<Seq<char>>,
}

impl View for UrlEnvironment {
    type V = UrlEnvironmentView;

    open spec fn view(&self) -> UrlEnvironmentView {
        UrlEnvironmentView {
            github_url: self.github_url.deep_view(),
            runner_org: self.runner_org.deep_view(),
            runner_repo: self.runner_repo.deep_view(),
        }
    }
}

/// An identifier counts only when it is there and not empty.
pub open spec fn named(identifier: Option<Seq<char>>) -> bool {
    identifier matches Some(text) && text.len() > 0
}

/// The URL detected from the environment: the base followed by the one
/// identifier that is named.
pub open spec fn detected_url(env: UrlEnvironmentView) -> Result<Seq<char>, ConfigError> {
    let base = match env.github_url {
        Some(base) => base,
        None => DEFAULT_GITHUB_URL@,
    };
    if named(env.runner_org) && named(env.runner_repo) {
        Err(ConfigError::OrgAndRepoBothSet)
    } else if named(env.runner_org) {
        Ok(base + env.runner_org->0)
    } else if named(env.runner_repo) {
        Ok(base + env.runner_repo->0)
    } else {
        Err(ConfigError::OrgAndRepoBothUnset)
    }
}

/// The registration URL: the explicit one where there is one, else the
/// detected one.
pub open spec fn resolved_url(explicit: Option<Seq<char>>, env: UrlEnvironmentView) -> Result<
    Seq<char>,
    ConfigError,
> {
    match explicit {
        Some(url) => Ok(url),
        None => detected_url(env),
    }
}

/// The view of a URL or the error in its place.
pub open spec fn url_view(r: Result<String, ConfigError>) -> Result<Seq<char>, ConfigError> {
    match r {
        Ok(url) => Ok(url@),
        Err(e) => Err(e),
    }
}

fn is_named(identifier: &Option<String>) -> (r: bool)
    ensures
        r == named(identifier.deep_view()),
{
    match identifier {
        Some(text) => !text.as_str().is_empty(),
        None => false,
    }
}

/// Finds the registration URL. An explicit URL wins over the environment.
/// Without one, exactly one of organization and repository has to be named.
pub fn resolve_url(explicit: &Option<String>, env: &UrlEnvironment) -> (r: Result<
    String,
    ConfigError,
>)
    ensures
        url_view(r) == resolved_url(explicit.deep_view(), env@),
{
    if let Some(url) = explicit {
        return Ok(url.clone());
    }
    let org = is_named(&env.runner_org);
    let repo = is_named(&env.runner_repo);
    if org && repo {
        return Err(ConfigError::OrgAndRepoBothSet);
    }
    if !org && !repo {
        return Err(ConfigError::OrgAndRepoBothUnset);
    }
    let mut url = match &env.github_url {
        Some(base) => base.clone(),
        None => String::from_str(DEFAULT_GITHUB_URL),
    };
    if org {
        match &env.runner_org {
            Some(text) => url.append(text.as_str()),
            None => {},
        }
    } else {
        match &env.runner_repo {
            Some(text) => url.append(text.as_str()),
            None => {},
        }
    }
    Ok(url)
}

/// The settings of one run, as they stand once the command line and the
/// environment have been read.
#[derive(Debug, Clone)]
pub struct Opts {
    /// The namespace to operate in.
    pub namespace: Option<String>,
    /// The name of the runner, which is also the name of the instance.
    pub name: String,
    /// The opaque just-in-time runner configuration. Where it is given, the
    /// settings of the legacy path are ignored.
    pub jitconfig: Option<String>,
    /// The runner registration token.
    pub token: Option<String>,
    /// The URL of an organization or repository to register the runner in.
    pub url: Option<String>,
    /// Whether the runner should be ephemeral.
    pub ephemeral: bool,
    /// Runner groups to attach to the runner.
    pub groups: String,
    /// Labels to attach to the runner.
    pub labels: String,
    /// The name of the virtual machine that serves as the template.
    pub vm_template: String,
}

pub struct OptsView {
    pub namespace: Option<Seq<char>>,
    pub name: Seq<char>,
    pub jitconfig: Option<Seq<char>>,
    pub token: Option<Seq<char>>,
    pub url: Option<Seq<char>>,
    pub ephemeral: bool,
    pub groups: Seq<char>,
    pub labels: Seq<char>,
    pub vm_template: Seq<char>,
}

impl View for Opts {
    type V = OptsView;

    open spec fn view(&self) -> OptsView {
        OptsView {
            namespace: self.namespace.deep_view(),
            name: self.name@,
            jitconfig: self.jitconfig.deep_view(),
            token: self.token.deep_view(),
            url: self.url.deep_view(),
            ephemeral: self.ephemeral,
            groups: self.groups@,
            labels: self.labels@,
            vm_template: self.vm_template@,
        }
    }
}

/// The just-in-time configuration: the runner is started with this value in
/// `ACTIONS_RUNNER_INPUT_JITCONFIG`.
#[derive(Debug, Clone)]
pub struct JitRunnerInfo {
    /// An encoded structure that the runner recognizes.
    pub jitconfig: String,
}

/// The legacy configuration: the runner registers itself with these.
#[derive(Debug, Clone)]
pub struct LegacyRunnerInfo {
    /// The name of the runner.
    pub name: String,
    /// The runner registration token.
    pub token: String,
    /// The URL of an organization or repository to register the runner in.
    pub url: String,
    /// Whether the runner should be ephemeral.
    pub ephemeral: bool,
    /// Runner groups to attach to the runner.
    pub groups: String,
    /// Labels to attach to the runner.
    pub labels: String,
}

/// The information passed to the machine. It reaches the instance as a
/// volume named `runner-info`, in the file `runner-info.json`.
#[derive(Debug, Clone)]
pub enum RunnerInfo {
    Jit(JitRunnerInfo),
    Legacy(LegacyRunnerInfo),
}

pub struct LegacyRunnerInfoView {
    pub name: Seq<char>,
    pub token: Seq<char>,
    pub url: Seq<char>,
    pub ephemeral: bool,
    pub groups: Seq<char>,
    pub labels: Seq<char>,
}

pub enum RunnerInfoView {
    Jit { jitconfig: Seq<char> },
    Legacy(LegacyRunnerInfoView),
}

impl View for JitRunnerInfo {
    type V = Seq<char>;

    open spec fn view(&self) -> Seq<char> {
        self.jitconfig@
    }
}

impl View for LegacyRunnerInfo {
    type V = LegacyRunnerInfoView;

    open spec fn view(&self) -> LegacyRunnerInfoView {
        LegacyRunnerInfoView {
            name: self.name@,
            token: self.token@,
            url: self.url@,
            ephemeral: self.ephemeral,
            groups: self.groups@,
            labels: self.labels@,
        }
    }
}

impl View for RunnerInfo {
    type V = RunnerInfoView;

    open spec fn view(&self) -> RunnerInfoView {
        match self {
            RunnerInfo::Jit(info) => RunnerInfoView::Jit { jitconfig: info@ },
            RunnerInfo::Legacy(info) => RunnerInfoView::Legacy(info@),
        }
    }
}

/// What the settings ask for. A just-in-time configuration is taken as it is
/// and nothing else is looked at. Otherwise the URL is resolved first, and
/// then the token has to be there.
pub open spec fn runner_info_of(opts: OptsView, env: UrlEnvironmentView) -> Result<
    RunnerInfoView,
    ConfigError,
> {
    match opts.jitconfig {
        Some(jitconfig) => Ok(RunnerInfoView::Jit { jitconfig }),
        None => match resolved_url(opts.url, env) {
            Err(e) => Err(e),
            Ok(url) => match opts.token {
                None => Err(ConfigError::TokenMissing),
                Some(token) => Ok(
                    RunnerInfoView::Legacy(
                        LegacyRunnerInfoView {
                            name: opts.name,
                            token,
                            url,
                            ephemeral: opts.ephemeral,
                            groups: opts.groups,
                            labels: opts.labels,
                        },
                    ),
                ),
            },
        },
    }
}

/// The view of a runner information or the error in its place.
pub open spec fn runner_info_view(r: Result<RunnerInfo, ConfigError>) -> Result<
    RunnerInfoView,
    ConfigError,
> {
    match r {
        Ok(info) => Ok(info@),
        Err(e) => Err(e),
    }
}

/// The payload of the just-in-time variant, given the JSON string literal of
/// its configuration.
pub open spec fn jit_payload(jitconfig: Seq<char>) -> Seq<char> {
    "{\"jitconfig\":"@ + jitconfig + "}"@
}

/// `true` or `false`, as JSON writes them.
pub open spec fn bool_literal(b: bool) -> Seq<char> {
    if b { "true"@ } else { "false"@ }
}

/// The payload of the legacy variant, given the JSON string literals of its
/// strings.
pub open spec fn legacy_payload(
    name: Seq<char>,
    token: Seq<char>,
    url: Seq<char>,
    ephemeral: bool,
    groups: Seq<char>,
    labels: Seq<char>,
) -> Seq<char> {
    "{\"name\":"@ + name + ",\"token\":"@ + token + ",\"url\":"@ + url + ",\"ephemeral\":"@
        + bool_literal(ephemeral) + ",\"groups\":"@ + groups + ",\"labels\":"@ + labels + "}"@
}

impl RunnerInfoView {
    /// The compact JSON object that carries this information, where every
    /// string of it has a JSON string literal, and nothing where one has
    /// none.
    pub open spec fn payload(self) -> Option<Seq<char>> {
        match self {
            RunnerInfoView::Jit { jitconfig } => match json_string_literal(jitconfig) {
                Some(jitconfig) => Some(jit_payload(jitconfig)),
                None => None,
            },
            RunnerInfoView::Legacy(info) => {
                let name = json_string_literal(info.name);
                let token = json_string_literal(info.token);
                let url = json_string_literal(info.url);
                let groups = json_string_literal(info.groups);
                let labels = json_string_literal(info.labels);
                if name is Some && token is Some && url is Some && groups is Some
                    && labels is Some {
                    Some(
                        legacy_payload(
                            name->0,
                            token->0,
                            url->0,
                            info.ephemeral,
                            groups->0,
                            labels->0,
                        ),
                    )
                } else {
                    None
                }
            },
        }
    }
}

/// Frames the just-in-time payload around the JSON string literal of the
/// configuration.
pub fn render_jit(jitconfig: &str) -> (r: String)
    ensures
        r@ == jit_payload(jitconfig@),
{
    let mut out = String::from_str("{\"jitconfig\":");
    out.append(jitconfig);
    out.append("}");
    out
}

/// Frames the legacy payload around the JSON string literals of its strings.
pub fn render_legacy(
    name: &str,
    token: &str,
    url: &str,
    ephemeral: bool,
    groups: &str,
    labels: &str,
) -> (r: String)
    ensures
        r@ == legacy_payload(name@, token@, url@, ephemeral, groups@, labels@),
{
    let mut out = String::from_str("{\"name\":");
    out.append(name);
    out.append(",\"token\":");
    out.append(token);
    out.append(",\"url\":");
    out.append(url);
    out.append(",\"ephemeral\":");
    if ephemeral {
        out.append("true");
    } else {
        out.append("false");
    }
    out.append(",\"groups\":");
    out.append(groups);
    out.append(",\"labels\":");
    out.append(labels);
    out.append("}");
    out
}

impl RunnerInfo {
    /// Builds the runner information from the settings of the run.
    pub fn from_opts(opts: &Opts, env: &UrlEnvironment) -> (r: Result<RunnerInfo, ConfigError>)
        ensures
            runner_info_view(r) == runner_info_of(opts@, env@),
    {
        if let Some(jitconfig) = &opts.jitconfig {
            return Ok(RunnerInfo::Jit(JitRunnerInfo { jitconfig: jitconfig.clone() }));
        }
        let url = match resolve_url(&opts.url, env) {
            Ok(url) => url,
            Err(e) => {
                return Err(e);
            },
        };
        let token = match &opts.token {
            Some(token) => token.clone(),
            None => {
                return Err(ConfigError::TokenMissing);
            },
        };
        Ok(
            RunnerInfo::Legacy(
                LegacyRunnerInfo {
                    name: opts.name.clone(),
                    token,
                    url,
                    ephemeral: opts.ephemeral,
                    groups: opts.groups.clone(),
                    labels: opts.labels.clone(),
                },
            ),
        )
    }

    /// Serializes the information as a compact JSON object. The strings are
    /// quoted by `serde_json`, in the order of the fields. Where it quotes
    /// them all, the result is the object framed around the literals; where
    /// it fails on one, its first error is handed on as it came.
    pub fn to_json(&self) -> (r: Result<String, serde_json::Error>)
        ensures
            text_of(r) == self@.payload(),
    {
        match self {
            RunnerInfo::Jit(info) => {
                let jitconfig = quote(info.jitconfig.as_str())?;
                Ok(render_jit(jitconfig.as_str()))
            },
            RunnerInfo::Legacy(info) => {
                let name = quote(info.name.as_str())?;
                let token = quote(info.token.as_str())?;
                let url = quote(info.url.as_str())?;
                let groups = quote(info.groups.as_str())?;
                let labels = quote(info.labels.as_str())?;
                Ok(
                    render_legacy(
                        name.as_str(),
                        token.as_str(),
                        url.as_str(),
                        info.ephemeral,
                        groups.as_str(),
                        labels.as_str(),
                    ),
                )
            },
        }
    }
}

} // verus!
