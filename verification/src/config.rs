//! The watchdog's configuration: where each setting came from, how the
//! sources are merged, and what makes the result valid.

use vstd::prelude::*;
use vstd::string::*;
use crate::address::{
    address_is_valid, check_targets, first_rejected, lemma_first_rejected, rejection, RejectedTarget,
};
use crate::cli::Cli;
use crate::text::{bool_str, bool_text, decimal, decimal_string, join, joined, trim, trimmed};

verus! {

/// The environment variable that may name the configuration file.
pub const ENV_CONFIG_PATH: &'static str = "PINGDOWN_CONFIG";

/// The configuration file read when only `read_json` asks for one.
pub const DEFAULT_CONFIG_PATH: &'static str = "./config.json";

pub const DEFAULT_NORMAL_SECS: u64 = 60;

pub const DEFAULT_EMERGENCY_SECS: u64 = 20;

pub const DEFAULT_EMERGENCY_RETRIES: u32 = 3;

/// The settings the monitoring loop runs on. Intervals are in seconds.
#[derive(Debug, Clone, PartialEq, Eq)]
pub struct MonitorConfig {
    pub targets: Vec<String>,
    pub strict: bool,
    pub normal_interval: u64,
    pub emergency_interval: u64,
    pub emergency_retries: u32,
    pub quiet: bool,
    pub status_only: bool,
    pub progress: bool,
    pub verbose: u8,
}

/// A `MonitorConfig` as plain values.
pub struct MonitorConfigView {
    pub targets: Seq<Seq<char>>,
    pub strict: bool,
    pub normal_interval: u64,
    pub emergency_interval: u64,
    pub emergency_retries: u32,
    pub quiet: bool,
    pub status_only: bool,
    pub progress: bool,
    pub verbose: u8,
}

impl View for MonitorConfig {
    type V = MonitorConfigView;

    open spec fn view(&self) -> MonitorConfigView {
        MonitorConfigView {
            targets: self.targets.deep_view(),
            strict: self.strict,
            normal_interval: self.normal_interval,
            emergency_interval: self.emergency_interval,
            emergency_retries: self.emergency_retries,
            quiet: self.quiet,
            status_only: self.status_only,
            progress: self.progress,
            verbose: self.verbose,
        }
    }
}

impl MonitorConfigView {
    /// What every configuration that `build` hands out satisfies: there is a
    /// target, each target is a valid address, both intervals are positive
    /// and at least one retry is allowed.
    pub open spec fn valid(self) -> bool {
        &&& self.targets.len() > 0
        &&& forall|i: int| 0 <= i < self.targets.len() ==> address_is_valid(#[trigger] self.targets[i])
        &&& self.normal_interval > 0
        &&& self.emergency_interval > 0
        &&& self.emergency_retries >= 1
    }
}

impl MonitorConfig {
    pub fn normal_interval_secs(&self) -> (secs: u64)
        ensures
            secs == self.normal_interval,
    {
        self.normal_interval
    }

    pub fn emergency_interval_secs(&self) -> (secs: u64)
        ensures
            secs == self.emergency_interval,
    {
        self.emergency_interval
    }

    pub fn emergency_retry_attempts(&self) -> (attempts: u32)
        ensures
            attempts == self.emergency_retries,
    {
        self.emergency_retries
    }
}

/// The settings a configuration file may hold. A field that the file leaves
/// out is `None`.
#[derive(Debug)]
pub struct FileConfig {
    pub targets: Option<Vec<String>>,
    pub strict: Option<bool>,
    pub normal_secs: Option<u64>,
    pub emergency_secs: Option<u64>,
    pub emergency_retries: Option<u32>,
    pub quiet: Option<bool>,
    pub status_only: Option<bool>,
    pub progress: Option<bool>,
    pub verbose: Option<u8>,
}

impl FileConfig {
    /// What a file that sets nothing amounts to.
    pub open spec fn unset(self) -> bool {
        &&& self.targets is None
        &&& self.strict is None
        &&& self.normal_secs is None
        &&& self.emergency_secs is None
        &&& self.emergency_retries is None
        &&& self.quiet is None
        &&& self.status_only is None
        &&& self.progress is None
        &&& self.verbose is None
    }
}

impl Default for FileConfig {
    /// A file that sets nothing.
    fn default() -> (file: Self)
        ensures
            file.unset(),
    {
        FileConfig {
            targets: None,
            strict: None,
            normal_secs: None,
            emergency_secs: None,
            emergency_retries: None,
            quiet: None,
            status_only: None,
            progress: None,
            verbose: None,
        }
    }
}

/// Why no configuration could be built.
#[derive(Debug)]
pub enum ConfigError {
    /// The configuration file could not be read.
    Io { path: String, message: String },
    /// The configuration file is not what a configuration looks like.
    Parse { path: String, message: String },
    /// A setting has a value the watchdog cannot run on.
    Validation { field_path: String, message: String },
}

/// A `ConfigError` as plain values.
pub enum ConfigErrorView {
    Io { path: Seq<char>, message: Seq<char> },
    Parse { path: Seq<char>, message: Seq<char> },
    Validation { field_path: Seq<char>, message: Seq<char> },
}

impl View for ConfigError {
    type V = ConfigErrorView;

    open spec fn view(&self) -> ConfigErrorView {
        match self {
            ConfigError::Io { path, message } => ConfigErrorView::Io {
                path: path@,
                message: message@,
            },
            ConfigError::Parse { path, message } => ConfigErrorView::Parse {
                path: path@,
                message: message@,
            },
            ConfigError::Validation { field_path, message } => ConfigErrorView::Validation {
                field_path: field_path@,
                message: message@,
            },
        }
    }
}

impl ConfigErrorView {
    /// The error as one line of text.
    pub open spec fn text(self) -> Seq<char> {
        match self {
            ConfigErrorView::Io { path, message } => "failed to read configuration at '"@ + path
                + "': "@ + message,
            ConfigErrorView::Parse { path, message } => "failed to parse configuration at '"@
                + path + "': "@ + message,
            ConfigErrorView::Validation { field_path, message } => "invalid configuration for '"@
                + field_path + "': "@ + message,
        }
    }
}

impl ConfigError {
    pub fn io(path: &str, message: String) -> (e: ConfigError)
        ensures
            e@ == (ConfigErrorView::Io { path: path@, message: message@ }),
    {
        ConfigError::Io { path: String::from_str(path), message }
    }

    pub fn parse(path: &str, message: String) -> (e: ConfigError)
        ensures
            e@ == (ConfigErrorView::Parse { path: path@, message: message@ }),
    {
        ConfigError::Parse { path: String::from_str(path), message }
    }

    pub fn validation(field_path: String, message: String) -> (e: ConfigError)
        ensures
            e@ == (ConfigErrorView::Validation { field_path: field_path@, message: message@ }),
    {
        ConfigError::Validation { field_path, message }
    }

    /// The error as one line of text.
    pub fn to_string(&self) -> (line: String)
        ensures
            line@ == self@.text(),
    {
        match self {
            ConfigError::Io { path, message } => {
                let mut line = String::from_str("failed to read configuration at '");
                line.append(path.as_str());
                line.append("': ");
                line.append(message.as_str());
                line
            },
            ConfigError::Parse { path, message } => {
                let mut line = String::from_str("failed to parse configuration at '");
                line.append(path.as_str());
                line.append("': ");
                line.append(message.as_str());
                line
            },
            ConfigError::Validation { field_path, message } => {
                let mut line = String::from_str("invalid configuration for '");
                line.append(field_path.as_str());
                line.append("': ");
                line.append(message.as_str());
                line
            },
        }
    }
}

/// A value together with the place it was read from.
#[derive(Debug)]
pub struct FieldValue<T> {
    pub value: T,
    pub path: String,
}

/// A `FieldValue` as plain values.
pub struct Sourced<V> {
    pub value: V,
    pub path: Seq<char>,
}

impl<T: DeepView> DeepView for FieldValue<T> {
    type V = Sourced<T::V>;

    open spec fn deep_view(&self) -> Sourced<T::V> {
        Sourced { value: self.value.deep_view(), path: self.path@ }
    }
}

impl<T> FieldValue<T> {
    pub fn new(value: T, path: String) -> (field: Self)
        ensures
            field.value == value,
            field.path == path,
    {
        FieldValue { value, path }
    }
}

/// Collects each setting with its source. A source merged later replaces what
/// an earlier one set, so the file is merged before the command line.
#[derive(Debug)]
pub struct MonitorConfigBuilder {
    pub targets: Option<FieldValue<Vec<String>>>,
    pub strict: Option<FieldValue<bool>>,
    pub normal_secs: Option<FieldValue<u64>>,
    pub emergency_secs: Option<FieldValue<u64>>,
    pub emergency_retries: Option<FieldValue<u32>>,
    pub quiet: Option<FieldValue<bool>>,
    pub status_only: Option<FieldValue<bool>>,
    pub progress: Option<FieldValue<bool>>,
    pub verbose: Option<FieldValue<u8>>,
}

/// A `MonitorConfigBuilder` as plain values.
pub struct BuilderView {
    pub targets: Option<Sourced<Seq<Seq<char>>>>,
    pub strict: Option<Sourced<bool>>,
    pub normal_secs: Option<Sourced<u64>>,
    pub emergency_secs: Option<Sourced<u64>>,
    pub emergency_retries: Option<Sourced<u32>>,
    pub quiet: Option<Sourced<bool>>,
    pub status_only: Option<Sourced<bool>>,
    pub progress: Option<Sourced<bool>>,
    pub verbose: Option<Sourced<u8>>,
}

impl View for MonitorConfigBuilder {
    type V = BuilderView;

    open spec fn view(&self) -> BuilderView {
        BuilderView {
            targets: self.targets.deep_view(),
            strict: self.strict.deep_view(),
            normal_secs: self.normal_secs.deep_view(),
            emergency_secs: self.emergency_secs.deep_view(),
            emergency_retries: self.emergency_retries.deep_view(),
            quiet: self.quiet.deep_view(),
            status_only: self.status_only.deep_view(),
            progress: self.progress.deep_view(),
            verbose: self.verbose.deep_view(),
        }
    }
}

/// The source label of a setting read from a file: the file's path, a colon
/// and the setting's key.
pub open spec fn file_source(path: Seq<char>, key: Seq<char>) -> Seq<char> {
    path + ":"@ + key
}

/// A setting after one more source: the source's value where it has one,
/// what was there before where it has none.
pub open spec fn overlay<V>(base: Option<Sourced<V>>, value: Option<V>, path: Seq<char>) -> Option<
    Sourced<V>,
> {
    match value {
        Some(v) => Some(Sourced { value: v, path }),
        None => base,
    }
}

/// A flag of the command line: it is a source only where it is set.
pub open spec fn raised(flag: bool) -> Option<bool> {
    if flag {
        Some(true)
    } else {
        None
    }
}

impl BuilderView {
    /// No setting has a source yet.
    pub open spec fn empty() -> BuilderView {
        BuilderView {
            targets: None,
            strict: None,
            normal_secs: None,
            emergency_secs: None,
            emergency_retries: None,
            quiet: None,
            status_only: None,
            progress: None,
            verbose: None,
        }
    }

    /// The settings after a configuration file read from `path`.
    pub open spec fn with_file(self, cfg: FileConfig, path: Seq<char>) -> BuilderView {
        BuilderView {
            targets: overlay(self.targets, cfg.targets.deep_view(), file_source(path, "address"@)),
            strict: overlay(self.strict, cfg.strict, file_source(path, "strict"@)),
            normal_secs: overlay(
                self.normal_secs,
                cfg.normal_secs,
                file_source(path, "secs-for-normal-loop"@),
            ),
            emergency_secs: overlay(
                self.emergency_secs,
                cfg.emergency_secs,
                file_source(path, "secs-for-emergency-loop"@),
            ),
            emergency_retries: overlay(
                self.emergency_retries,
                cfg.emergency_retries,
                file_source(path, "times-for-emergency-loop"@),
            ),
            quiet: overlay(self.quiet, cfg.quiet, file_source(path, "quiet"@)),
            status_only: overlay(self.status_only, cfg.status_only, file_source(path, "status-only"@)),
            progress: overlay(self.progress, cfg.progress, file_source(path, "progress"@)),
            verbose: overlay(self.verbose, cfg.verbose, file_source(path, "verbose"@)),
        }
    }

    /// The settings after the command line. An empty target list, a flag that
    /// is not set and a verbosity of zero leave the setting as it was.
    pub open spec fn with_cli(self, cli: Cli) -> BuilderView {
        BuilderView {
            targets: overlay(
                self.targets,
                if cli.targets@.len() > 0 {
                    Some(cli.targets.deep_view())
                } else {
                    None
                },
                "cli.targets"@,
            ),
            strict: overlay(self.strict, raised(cli.strict), "cli --strict/-s"@),
            normal_secs: overlay(self.normal_secs, cli.normal_interval, "cli --normal/-n"@),
            emergency_secs: overlay(
                self.emergency_secs,
                cli.emergency_interval,
                "cli --emergency/-e"@,
            ),
            emergency_retries: overlay(
                self.emergency_retries,
                cli.emergency_retries,
                "cli --tries/-t"@,
            ),
            quiet: overlay(self.quiet, raised(cli.quiet), "cli --quiet/-q"@),
            status_only: overlay(self.status_only, raised(cli.status_only), "cli --status-only"@),
            progress: overlay(self.progress, raised(cli.progress), "cli --progress"@),
            verbose: overlay(
                self.verbose,
                if cli.verbose > 0 {
                    Some(cli.verbose)
                } else {
                    None
                },
                "cli --verbose/-v"@,
            ),
        }
    }
}

impl Default for MonitorConfigBuilder {
    /// A builder in which no setting has a source yet.
    fn default() -> (builder: Self)
        ensures
            builder@ == BuilderView::empty(),
    {
        MonitorConfigBuilder::new()
    }
}

/// A file that sets nothing leaves every setting as it was.
pub proof fn lemma_unset_file_changes_nothing(settings: BuilderView, cfg: FileConfig, path: Seq<char>)
    requires
        cfg.unset(),
    ensures
        settings.with_file(cfg, path) == settings,
{
}

/// The command line takes precedence: whatever a file set before, a setting
/// that the command line gives resolves to the command line's value.
pub proof fn lemma_cli_takes_precedence(settings: BuilderView, cli: Cli)
    ensures
        cli.targets@.len() > 0 ==> settings.with_cli(cli).targets == Some(
            Sourced { value: cli.targets.deep_view(), path: "cli.targets"@ },
        ),
        cli.strict ==> value_or(settings.with_cli(cli).strict, false),
        cli.normal_interval matches Some(secs) ==> value_or(
            settings.with_cli(cli).normal_secs,
            DEFAULT_NORMAL_SECS,
        ) == secs,
        cli.emergency_interval matches Some(secs) ==> value_or(
            settings.with_cli(cli).emergency_secs,
            DEFAULT_EMERGENCY_SECS,
        ) == secs,
        cli.emergency_retries matches Some(tries) ==> value_or(
            settings.with_cli(cli).emergency_retries,
            DEFAULT_EMERGENCY_RETRIES,
        ) == tries,
        cli.quiet ==> value_or(settings.with_cli(cli).quiet, false),
        cli.status_only ==> value_or(settings.with_cli(cli).status_only, false),
        cli.progress ==> value_or(settings.with_cli(cli).progress, false),
        cli.verbose > 0 ==> value_or(settings.with_cli(cli).verbose, 0u8) == cli.verbose,
{
}

/// A copy of a list of strings.
fn clone_strings(list: &Vec<String>) -> (copy: Vec<String>)
    ensures
        copy.deep_view() == list.deep_view(),
{
    let mut copy: Vec<String> = Vec::new();
    let mut i: usize = 0;
    while i < list.len()
        invariant
            i <= list@.len(),
            copy@.len() == i,
            forall|j: int| 0 <= j < i ==> copy@[j]@ == list@[j]@,
        decreases list@.len() - i,
    {
        copy.push(list[i].clone());
        i += 1;
    }
    assert(copy.deep_view() =~= list.deep_view());
    copy
}

/// The source label of the setting `key` of the file at `path`.
fn file_field(path: &str, key: &str) -> (label: String)
    ensures
        label@ == file_source(path@, key@),
{
    let mut label = String::from_str(path);
    label.append(":");
    label.append(key);
    label
}

impl MonitorConfigBuilder {
    /// A builder in which no setting has a source yet.
    pub fn new() -> (builder: Self)
        ensures
            builder@ == BuilderView::empty(),
    {
        MonitorConfigBuilder {
            targets: None,
            strict: None,
            normal_secs: None,
            emergency_secs: None,
            emergency_retries: None,
            quiet: None,
            status_only: None,
            progress: None,
            verbose: None,
        }
    }

    /// Takes over every setting that the file at `path` holds.
    pub fn merge_file(&mut self, cfg: FileConfig, path: &str)
        ensures
            final(self)@ == old(self)@.with_file(cfg, path@),
    {
        if let Some(targets) = cfg.targets {
            self.targets = Some(FieldValue::new(targets, file_field(path, "address")));
        }
        if let Some(strict) = cfg.strict {
            self.strict = Some(FieldValue::new(strict, file_field(path, "strict")));
        }
        if let Some(value) = cfg.normal_secs {
            self.normal_secs = Some(
                FieldValue::new(value, file_field(path, "secs-for-normal-loop")),
            );
        }
        if let Some(value) = cfg.emergency_secs {
            self.emergency_secs = Some(
                FieldValue::new(value, file_field(path, "secs-for-emergency-loop")),
            );
        }
        if let Some(value) = cfg.emergency_retries {
            self.emergency_retries = Some(
                FieldValue::new(value, file_field(path, "times-for-emergency-loop")),
            );
        }
        if let Some(value) = cfg.quiet {
            self.quiet = Some(FieldValue::new(value, file_field(path, "quiet")));
        }
        if let Some(value) = cfg.status_only {
            self.status_only = Some(FieldValue::new(value, file_field(path, "status-only")));
        }
        if let Some(value) = cfg.progress {
            self.progress = Some(FieldValue::new(value, file_field(path, "progress")));
        }
        if let Some(value) = cfg.verbose {
            self.verbose = Some(FieldValue::new(value, file_field(path, "verbose")));
        }
    }

    /// Takes over every setting that the command line holds.
    pub fn merge_cli(&mut self, cli: &Cli)
        ensures
            final(self)@ == old(self)@.with_cli(*cli),
    {
        if cli.targets.len() > 0 {
            self.targets = Some(
                FieldValue::new(clone_strings(&cli.targets), String::from_str("cli.targets")),
            );
        }
        if cli.strict {
            self.strict = Some(FieldValue::new(true, String::from_str("cli --strict/-s")));
        }
        if let Some(value) = cli.normal_interval {
            self.normal_secs = Some(FieldValue::new(value, String::from_str("cli --normal/-n")));
        }
        if let Some(value) = cli.emergency_interval {
            self.emergency_secs = Some(
                FieldValue::new(value, String::from_str("cli --emergency/-e")),
            );
        }
        if let Some(value) = cli.emergency_retries {
            self.emergency_retries = Some(
                FieldValue::new(value, String::from_str("cli --tries/-t")),
            );
        }
        if cli.quiet {
            self.quiet = Some(FieldValue::new(true, String::from_str("cli --quiet/-q")));
        }
        if cli.status_only {
            self.status_only = Some(FieldValue::new(true, String::from_str("cli --status-only")));
        }
        if cli.progress {
            self.progress = Some(FieldValue::new(true, String::from_str("cli --progress")));
        }
        if cli.verbose > 0 {
            self.verbose = Some(
                FieldValue::new(cli.verbose, String::from_str("cli --verbose/-v")),
            );
        }
    }
}

/// What a setting resolves to: the value of its source, or the default.
pub open spec fn value_or<V>(field: Option<Sourced<V>>, default: V) -> V {
    match field {
        Some(sourced) => sourced.value,
        None => default,
    }
}

/// Where a setting's value came from: its source, or the label of the
/// default.
pub open spec fn source_or<V>(field: Option<Sourced<V>>, label: Seq<char>) -> Seq<char> {
    match field {
        Some(sourced) => sourced.path,
        None => label,
    }
}

/// A validation error as plain values.
pub open spec fn invalid(field_path: Seq<char>, message: Seq<char>) -> ConfigErrorView {
    ConfigErrorView::Validation { field_path, message }
}

/// The outcome of a build as plain values.
pub open spec fn outcome_view(result: Result<MonitorConfig, ConfigError>) -> Result<
    MonitorConfigView,
    ConfigErrorView,
> {
    match result {
        Ok(config) => Ok(config@),
        Err(error) => Err(error@),
    }
}

impl BuilderView {
    /// The configuration that the settings amount to, or the first reason
    /// why they amount to none. `rejected` is the first target that is not a
    /// valid address, if there is one. The checks come in this order: there
    /// are targets, the list is not empty, no target is rejected, the normal
    /// interval is positive, the emergency interval is positive, at least one
    /// retry is allowed. Each error names the source of the offending value.
    pub open spec fn finish(self, rejected: Option<(int, Seq<char>)>) -> Result<
        MonitorConfigView,
        ConfigErrorView,
    > {
        let normal = value_or(self.normal_secs, DEFAULT_NORMAL_SECS);
        let emergency = value_or(self.emergency_secs, DEFAULT_EMERGENCY_SECS);
        let retries = value_or(self.emergency_retries, DEFAULT_EMERGENCY_RETRIES);
        if self.targets is None {
            Err(
                invalid(
                    "cli.targets|config.address"@,
                    "at least one target must be provided via CLI or configuration file"@,
                ),
            )
        } else if self.targets->0.value.len() == 0 {
            Err(invalid(self.targets->0.path, "the targets list cannot be empty"@))
        } else if let Some((index, target)) = rejected {
            Err(
                invalid(
                    self.targets->0.path + "["@ + decimal(index as nat) + "]"@,
                    "'"@ + target + "' is not a valid host, IP, or URL"@,
                ),
            )
        } else if normal == 0 {
            Err(
                invalid(
                    source_or(self.normal_secs, "defaults.normal_interval"@),
                    "normal interval must be greater than zero seconds"@,
                ),
            )
        } else if emergency == 0 {
            Err(
                invalid(
                    source_or(self.emergency_secs, "defaults.emergency_interval"@),
                    "emergency interval must be greater than zero seconds"@,
                ),
            )
        } else if retries == 0 {
            Err(
                invalid(
                    source_or(self.emergency_retries, "defaults.emergency_retries"@),
                    "emergency retry attempts must be at least 1"@,
                ),
            )
        } else {
            Ok(
                MonitorConfigView {
                    targets: self.targets->0.value,
                    strict: value_or(self.strict, false),
                    normal_interval: normal,
                    emergency_interval: emergency,
                    emergency_retries: retries,
                    quiet: value_or(self.quiet, false),
                    status_only: value_or(self.status_only, false),
                    progress: value_or(self.progress, false),
                    verbose: value_or(self.verbose, 0u8),
                },
            )
        }
    }

    /// The first target that is not a valid address, if the settings hold
    /// targets and one of them is not.
    pub open spec fn rejected(self) -> Option<(int, Seq<char>)> {
        match self.targets {
            Some(sourced) => first_rejected(sourced.value),
            None => None,
        }
    }

    /// The configuration that the settings amount to, or the first reason
    /// why they amount to none.
    pub open spec fn outcome(self) -> Result<MonitorConfigView, ConfigErrorView> {
        self.finish(self.rejected())
    }
}

/// Whatever the settings are, a build that succeeds hands out a valid
/// configuration.
pub proof fn lemma_built_config_is_valid(settings: BuilderView)
    ensures
        settings.outcome() matches Ok(config) ==> config.valid(),
{
    if let Some(sourced) = settings.targets {
        lemma_first_rejected(sourced.value);
    }
}

impl MonitorConfigBuilder {
    /// Builds the configuration, given the verdict on the targets' addresses:
    /// `rejected` is the first target found invalid, `None` where all were
    /// accepted.
    pub fn build_checked(self, rejected: Option<RejectedTarget>) -> (result: Result<
        MonitorConfig,
        ConfigError,
    >)
        ensures
            outcome_view(result) == self@.finish(rejection(rejected)),
    {
        let MonitorConfigBuilder {
            targets,
            strict,
            normal_secs,
            emergency_secs,
            emergency_retries,
            quiet,
            status_only,
            progress,
            verbose,
        } = self;
        let (targets, targets_path) = match targets {
            Some(field) => (field.value, field.path),
            None => {
                return Err(
                    ConfigError::validation(
                        String::from_str("cli.targets|config.address"),
                        String::from_str(
                            "at least one target must be provided via CLI or configuration file",
                        ),
                    ),
                );
            },
        };
        if targets.len() == 0 {
            return Err(
                ConfigError::validation(
                    targets_path,
                    String::from_str("the targets list cannot be empty"),
                ),
            );
        }
        if let Some(bad) = rejected {
            let mut field_path = targets_path;
            field_path.append("[");
            field_path.append(decimal_string(bad.index as u64).as_str());
            field_path.append("]");
            let mut message = String::from_str("'");
            message.append(bad.target.as_str());
            message.append("' is not a valid host, IP, or URL");
            return Err(ConfigError::validation(field_path, message));
        }
        let (normal, normal_path) = match normal_secs {
            Some(field) => (field.value, Some(field.path)),
            None => (DEFAULT_NORMAL_SECS, None),
        };
        if normal == 0 {
            let field_path = match normal_path {
                Some(path) => path,
                None => String::from_str("defaults.normal_interval"),
            };
            return Err(
                ConfigError::validation(
                    field_path,
                    String::from_str("normal interval must be greater than zero seconds"),
                ),
            );
        }
        let (emergency, emergency_path) = match emergency_secs {
            Some(field) => (field.value, Some(field.path)),
            None => (DEFAULT_EMERGENCY_SECS, None),
        };
        if emergency == 0 {
            let field_path = match emergency_path {
                Some(path) => path,
                None => String::from_str("defaults.emergency_interval"),
            };
            return Err(
                ConfigError::validation(
                    field_path,
                    String::from_str("emergency interval must be greater than zero seconds"),
                ),
            );
        }
        let (retries, retries_path) = match emergency_retries {
            Some(field) => (field.value, Some(field.path)),
            None => (DEFAULT_EMERGENCY_RETRIES, None),
        };
        if retries == 0 {
            let field_path = match retries_path {
                Some(path) => path,
                None => String::from_str("defaults.emergency_retries"),
            };
            return Err(
                ConfigError::validation(
                    field_path,
                    String::from_str("emergency retry attempts must be at least 1"),
                ),
            );
        }
        let strict = match strict {
            Some(field) => field.value,
            None => false,
        };
        let quiet = match quiet {
            Some(field) => field.value,
            None => false,
        };
        let status_only = match status_only {
            Some(field) => field.value,
            None => false,
        };
        let progress = match progress {
            Some(field) => field.value,
            None => false,
        };
        let verbose = match verbose {
            Some(field) => field.value,
            None => 0,
        };
        Ok(
            MonitorConfig {
                targets,
                strict,
                normal_interval: normal,
                emergency_interval: emergency,
                emergency_retries: retries,
                quiet,
                status_only,
                progress,
                verbose,
            },
        )
    }

    /// Validates the settings and builds the configuration.
    pub fn build(self) -> (result: Result<MonitorConfig, ConfigError>)
        ensures
            outcome_view(result) == self@.outcome(),
            result matches Ok(config) ==> config@.valid(),
    {
        let rejected = match &self.targets {
            Some(field) => check_targets(&field.value),
            None => None,
        };
        proof {
            lemma_built_config_is_valid(self@);
        }
        self.build_checked(rejected)
    }
}

/// Reads the configuration file at a path. The watchdog itself reads JSON
/// from disk; a test may hand out settings it made up.
pub trait ConfigLoader {
    fn load(&self, path: &str) -> Result<FileConfig, ConfigError>;
}

/// Which configuration file is read, if any: the one the command line names,
/// else the default one where the command line asks for it, else the one the
/// environment names. `env_value` is what `ENV_CONFIG_PATH` holds; white space
/// around it does not count, and a blank value names no file.
pub open spec fn resolved_path(cli: Cli, env_value: Option<Seq<char>>) -> Option<Seq<char>> {
    if let Some(path) = cli.config {
        Some(path@)
    } else if cli.read_json {
        Some(DEFAULT_CONFIG_PATH@)
    } else if let Some(value) = env_value {
        if trimmed(value).len() > 0 {
            Some(trimmed(value))
        } else {
            None
        }
    } else {
        None
    }
}

/// Decides which configuration file is read, if any.
pub fn resolve_config_path(cli: &Cli, env_value: &Option<String>) -> (path: Option<String>)
    ensures
        path.deep_view() == resolved_path(*cli, env_value.deep_view()),
{
    if let Some(path) = &cli.config {
        return Some(path.clone());
    }
    if cli.read_json {
        return Some(String::from_str(DEFAULT_CONFIG_PATH));
    }
    if let Some(value) = env_value {
        let inner = trim(value.as_str());
        if inner.unicode_len() > 0 {
            return Some(String::from_str(inner));
        }
    }
    None
}

/// The settings that a command line and a configuration file amount to. The
/// file, where one was read, is given by its path and its contents; the
/// command line is merged after it and so takes precedence.
pub open spec fn merged(cli: Cli, file: Option<(Seq<char>, FileConfig)>) -> BuilderView {
    match file {
        Some((path, cfg)) => BuilderView::empty().with_file(cfg, path).with_cli(cli),
        None => BuilderView::empty().with_cli(cli),
    }
}

/// A file that was read, as its path in plain characters and its contents.
pub open spec fn loaded(file: Option<(String, FileConfig)>) -> Option<(Seq<char>, FileConfig)> {
    match file {
        Some((path, cfg)) => Some((path@, cfg)),
        None => None,
    }
}

/// Builds the configuration from the command line and from the configuration
/// file that was read, if one was.
pub fn build_monitor_config(cli: &Cli, file: Option<(String, FileConfig)>) -> (result: Result<
    MonitorConfig,
    ConfigError,
>)
    ensures
        outcome_view(result) == merged(*cli, loaded(file)).outcome(),
        result matches Ok(config) ==> config@.valid(),
{
    let mut builder = MonitorConfigBuilder::new();
    if let Some((path, cfg)) = file {
        builder.merge_file(cfg, path.as_str());
    }
    builder.merge_cli(cli);
    builder.build()
}

/// `result` is what the command line and the file at `path` with the
/// contents `cfg` amount to.
pub open spec fn built_from(
    result: Result<MonitorConfig, ConfigError>,
    cli: Cli,
    path: Seq<char>,
    cfg: FileConfig,
) -> bool {
    outcome_view(result) == merged(cli, Some((path, cfg))).outcome()
}

/// Builds the configuration, reading the configuration file through `loader`
/// where one is named. Where none is named the loader is not asked. Where the
/// loader fails, its error is handed on; where it succeeds, the result is
/// what `build_monitor_config` gives for the settings it loaded.
pub fn build_monitor_config_with_loader(
    cli: &Cli,
    env_value: &Option<String>,
    loader: &dyn ConfigLoader,
) -> (result: Result<MonitorConfig, ConfigError>)
    ensures
        resolved_path(*cli, env_value.deep_view()) is None ==> outcome_view(result) == merged(
            *cli,
            None,
        ).outcome(),
        resolved_path(*cli, env_value.deep_view()) matches Some(path) ==> (result is Err) || (
        exists|cfg: FileConfig| built_from(result, *cli, path, cfg)),
        result matches Ok(config) ==> config@.valid(),
{
    let resolved = resolve_config_path(cli, env_value);
    let ghost wanted = resolved_path(*cli, env_value.deep_view());
    assert(resolved.deep_view() == wanted);
    match resolved {
        Some(path) => {
            assert(wanted == Some(path@));
            match loader.load(path.as_str()) {
                Ok(cfg) => {
                    let ghost contents = cfg;
                    let result = build_monitor_config(cli, Some((path, cfg)));
                    assert(built_from(result, *cli, wanted->0, contents));
                    result
                },
                Err(error) => Err(error),
            }
        },
        None => {
            assert(wanted is None);
            build_monitor_config(cli, None)
        },
    }
}

/// What the command line's targets alone amount to: an error where there is
/// none or where one is not a valid address, as `build` would report it.
pub open spec fn cli_targets_checked(cli: Cli) -> Result<(), ConfigErrorView> {
    if cli.targets@.len() == 0 {
        Err(
            invalid(
                "cli.targets|config.address"@,
                "at least one target must be provided via CLI or configuration file"@,
            ),
        )
    } else if let Some((index, target)) = first_rejected(cli.targets.deep_view()) {
        Err(
            invalid(
                "cli.targets"@ + "["@ + decimal(index as nat) + "]"@,
                "'"@ + target + "' is not a valid host, IP, or URL"@,
            ),
        )
    } else {
        Ok(())
    }
}

/// Checks that the command line names at least one target and that each is a
/// valid address.
pub fn check_cli(cli: &Cli) -> (result: Result<(), ConfigError>)
    ensures
        match result {
            Ok(_) => cli_targets_checked(*cli) is Ok,
            Err(error) => cli_targets_checked(*cli) == Err::<(), ConfigErrorView>(error@),
        },
{
    if cli.targets.len() == 0 {
        return Err(
            ConfigError::validation(
                String::from_str("cli.targets|config.address"),
                String::from_str(
                    "at least one target must be provided via CLI or configuration file",
                ),
            ),
        );
    }
    match check_targets(&cli.targets) {
        Some(bad) => {
            let mut field_path = String::from_str("cli.targets");
            field_path.append("[");
            field_path.append(decimal_string(bad.index as u64).as_str());
            field_path.append("]");
            let mut message = String::from_str("'");
            message.append(bad.target.as_str());
            message.append("' is not a valid host, IP, or URL");
            Err(ConfigError::validation(field_path, message))
        },
        None => Ok(()),
    }
}

impl MonitorConfigView {
    /// The configuration as the lines shown when monitoring starts.
    pub open spec fn summary(self) -> Seq<Seq<char>> {
        seq![
            "[CONFIG] Effective configuration"@,
            "  targets     : "@ + joined(self.targets, ", "@),
            "  strict      : "@ + bool_text(self.strict),
            "  normal      : "@ + decimal(self.normal_interval as nat) + "s"@,
            "  emergency   : "@ + decimal(self.emergency_interval as nat) + "s x"@ + decimal(
                self.emergency_retries as nat,
            ),
            "  verbose     : "@ + decimal(self.verbose as nat),
            "  quiet       : "@ + bool_text(self.quiet),
            "  status-only : "@ + bool_text(self.status_only),
            "  progress    : "@ + bool_text(self.progress),
            "[INIT] Initializing monitoring process..."@,
        ]
    }
}

/// A line made of a label and a value.
fn labelled(label: &str, value: &str) -> (line: String)
    ensures
        line@ == label@ + value@,
{
    let mut line = String::from_str(label);
    line.append(value);
    line
}

/// Settings that can be shown to the user, line by line.
pub trait OutputInfo {
    fn output_info(&self) -> Vec<String>;
}

impl OutputInfo for MonitorConfig {
    /// The lines shown when monitoring starts.
    fn output_info(&self) -> (lines: Vec<String>)
        ensures
            lines.deep_view() == self@.summary(),
    {
        let mut lines: Vec<String> = Vec::new();
        lines.push(String::from_str("[CONFIG] Effective configuration"));
        lines.push(labelled("  targets     : ", join(&self.targets, ", ").as_str()));
        lines.push(labelled("  strict      : ", bool_str(self.strict)));
        let mut normal = labelled(
            "  normal      : ",
            decimal_string(self.normal_interval).as_str(),
        );
        normal.append("s");
        lines.push(normal);
        let mut emergency = labelled(
            "  emergency   : ",
            decimal_string(self.emergency_interval).as_str(),
        );
        emergency.append("s x");
        emergency.append(decimal_string(self.emergency_retries as u64).as_str());
        lines.push(emergency);
        lines.push(labelled("  verbose     : ", decimal_string(self.verbose as u64).as_str()));
        lines.push(labelled("  quiet       : ", bool_str(self.quiet)));
        lines.push(labelled("  status-only : ", bool_str(self.status_only)));
        lines.push(labelled("  progress    : ", bool_str(self.progress)));
        lines.push(String::from_str("[INIT] Initializing monitoring process..."));
        assert(lines.deep_view() =~= self@.summary());
        lines
    }
}

} // verus!
