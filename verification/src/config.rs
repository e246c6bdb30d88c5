use crate::config_loader::{app_settings, to_app_config, DorisConfig};
use crate::error::{CliError, ErrorView};
use crate::text::{
    concat, concat3, join_path, opt_text, parse_u64, path_join, same_text, to_lowercase,
    unicode_lowercase, unsigned_of,
};
use vstd::prelude::*;

verus! {

/// Settings of the console itself.
#[derive(Debug)]
pub struct Config {
    pub jdk_path: String,
    pub output_dir: String,
    pub timeout_seconds: u64,
    pub no_progress_animation: bool,
}

/// What a `Config` holds, as plain values.
pub struct ConfigView {
    pub jdk_path: Seq<char>,
    pub output_dir: Seq<char>,
    pub timeout_seconds: u64,
    pub no_progress_animation: bool,
}

impl View for Config {
    type V = ConfigView;

    open spec fn view(&self) -> ConfigView {
        ConfigView {
            jdk_path: self.jdk_path@,
            output_dir: self.output_dir@,
            timeout_seconds: self.timeout_seconds,
            no_progress_animation: self.no_progress_animation,
        }
    }
}

impl Clone for Config {
    fn clone(&self) -> (r: Config)
        ensures
            r@ == self@,
    {
        Config {
            jdk_path: self.jdk_path.clone(),
            output_dir: self.output_dir.clone(),
            timeout_seconds: self.timeout_seconds,
            no_progress_animation: self.no_progress_animation,
        }
    }
}

/// The settings used where nothing else is known.
pub open spec fn default_config() -> ConfigView {
    ConfigView {
        jdk_path: "/opt/jdk"@,
        output_dir: "/opt/selectdb/information"@,
        timeout_seconds: 60,
        no_progress_animation: false,
    }
}

impl Default for Config {
    fn default() -> (r: Config)
        ensures
            r@ == default_config(),
    {
        Config {
            jdk_path: "/opt/jdk".to_owned(),
            output_dir: "/opt/selectdb/information".to_owned(),
            timeout_seconds: 60,
            no_progress_animation: false,
        }
    }
}

/// What the operator set in the environment of the console: each variable as it
/// was found, and nothing for one that is not set.
#[derive(Debug)]
pub struct EnvOverrides {
    /// `JDK_PATH`: where the JDK is installed.
    pub jdk_path: Option<String>,
    /// `OUTPUT_DIR`: where the tools write.
    pub output_dir: Option<String>,
    /// `CLOUD_CLI_TIMEOUT`: the timeout of a tool, in seconds.
    pub timeout: Option<String>,
    /// `CLOUD_CLI_NO_PROGRESS`: set to `1` or `true` to show no progress animation.
    pub no_progress: Option<String>,
}

/// What an `EnvOverrides` holds, as plain values.
pub struct EnvOverridesView {
    pub jdk_path: Option<Seq<char>>,
    pub output_dir: Option<Seq<char>>,
    pub timeout: Option<Seq<char>>,
    pub no_progress: Option<Seq<char>>,
}

impl View for EnvOverrides {
    type V = EnvOverridesView;

    open spec fn view(&self) -> EnvOverridesView {
        EnvOverridesView {
            jdk_path: opt_text(self.jdk_path),
            output_dir: opt_text(self.output_dir),
            timeout: opt_text(self.timeout),
            no_progress: opt_text(self.no_progress),
        }
    }
}

/// Whether a flag as written, and as written in lower case, switches the flag on.
pub open spec fn flag_on(raw: Seq<char>, lowered: Seq<char>) -> bool {
    raw == "1"@ || lowered == "true"@
}

/// Whether a flag as written, and as written in lower case, switches the flag on.
pub fn flag_is_set(raw: &str, lowered: &str) -> (b: bool)
    ensures
        b == flag_on(raw@, lowered@),
{
    same_text(raw, "1") || same_text(lowered, "true")
}

/// The settings with the operator's overrides applied: a directory that is set
/// replaces the one held; a timeout replaces the one held where it is a number;
/// and a flag that is set decides whether the progress animation is off. What
/// the operator did not set overrides nothing.
pub open spec fn overridden(held: ConfigView, env: EnvOverridesView) -> ConfigView {
    ConfigView {
        jdk_path: match env.jdk_path {
            Some(p) => p,
            None => held.jdk_path,
        },
        output_dir: match env.output_dir {
            Some(p) => p,
            None => held.output_dir,
        },
        timeout_seconds: match env.timeout {
            Some(t) => match unsigned_of(t, u64::MAX as nat) {
                Some(n) => n as u64,
                None => held.timeout_seconds,
            },
            None => held.timeout_seconds,
        },
        no_progress_animation: match env.no_progress {
            Some(v) => flag_on(v, unicode_lowercase(v)),
            None => held.no_progress_animation,
        },
    }
}

/// What is wrong with a timeout, if anything: it is neither zero nor above an hour.
pub open spec fn timeout_fault(seconds: u64) -> Option<ErrorView> {
    if seconds == 0 {
        Some(ErrorView::ConfigError("Timeout cannot be zero"@))
    } else if seconds > 3600 {
        Some(ErrorView::ConfigError("Timeout cannot exceed 3600 seconds (1 hour)"@))
    } else {
        None
    }
}

/// What the file system says of the directories that the settings name.
#[derive(Debug, Clone, Copy, PartialEq, Eq, Structural)]
pub struct PathProbe {
    /// The JDK directory exists.
    pub jdk_exists: bool,
    /// The heap dumper exists under the JDK directory.
    pub jmap_exists: bool,
    /// The thread dumper exists under the JDK directory.
    pub jstack_exists: bool,
    /// The output directory exists.
    pub output_dir_exists: bool,
}

/// What is wrong with the JDK directory, if anything.
pub open spec fn jdk_fault(held: ConfigView, probe: PathProbe) -> Option<ErrorView> {
    if !probe.jdk_exists {
        Some(
            ErrorView::ConfigError(
                "JDK path does not exist: "@ + held.jdk_path
                    + ". Set JDK_PATH environment variable or ensure default path exists."@,
            ),
        )
    } else if !probe.jmap_exists {
        Some(
            ErrorView::ConfigError(
                "jmap not found: "@ + path_join(held.jdk_path, "bin/jmap"@)
                    + ". Please verify JDK installation."@,
            ),
        )
    } else if !probe.jstack_exists {
        Some(
            ErrorView::ConfigError(
                "jstack not found: "@ + path_join(held.jdk_path, "bin/jstack"@)
                    + ". Please verify JDK installation."@,
            ),
        )
    } else {
        None
    }
}

/// What is wrong with the output directory, if anything: it exists and a file
/// could not be made in it. `write_fault` is the system's message from the try.
pub open spec fn output_dir_fault(
    held: ConfigView,
    probe: PathProbe,
    write_fault: Option<Seq<char>>,
) -> Option<ErrorView> {
    match write_fault {
        Some(e) => if probe.output_dir_exists {
            Some(
                ErrorView::ConfigError(
                    "Output directory is not writable: "@ + held.output_dir + ". Error: "@ + e,
                ),
            )
        } else {
            None
        },
        None => None,
    }
}

/// The first thing that is wrong with the settings: the JDK directory, then the
/// output directory, then the timeout.
pub open spec fn first_fault(held: ConfigView, probe: PathProbe, write_fault: Option<Seq<char>>)
    -> Option<ErrorView> {
    if jdk_fault(held, probe) is Some {
        jdk_fault(held, probe)
    } else if output_dir_fault(held, probe, write_fault) is Some {
        output_dir_fault(held, probe, write_fault)
    } else {
        timeout_fault(held.timeout_seconds)
    }
}

/// What a check holds where it failed.
pub open spec fn fault_of(r: Result<(), CliError>) -> Option<ErrorView> {
    match r {
        Ok(_) => None,
        Err(e) => Some(e@),
    }
}

impl Config {
    /// The settings to run with: those of the reconciled record, or the default
    /// ones where there is no record, with the operator's overrides applied.
    pub fn new(loaded: Option<DorisConfig>, env: &EnvOverrides) -> (r: Config)
        ensures
            r@ == overridden(
                match loaded {
                    Some(c) => app_settings(c@),
                    None => default_config(),
                },
                env@,
            ),
    {
        let mut config = match loaded {
            Some(c) => to_app_config(c),
            None => Config::default(),
        };
        config.load_from_env(env);
        config
    }

    /// Applies the operator's overrides.
    pub fn load_from_env(&mut self, env: &EnvOverrides)
        ensures
            final(self)@ == overridden(old(self)@, env@),
    {
        match &env.jdk_path {
            Some(p) => {
                self.jdk_path = p.clone();
            },
            None => {},
        }
        match &env.output_dir {
            Some(p) => {
                self.output_dir = p.clone();
            },
            None => {},
        }
        match &env.timeout {
            Some(t) => match parse_u64(t.as_str()) {
                Some(n) => {
                    self.timeout_seconds = n;
                },
                None => {},
            },
            None => {},
        }
        match &env.no_progress {
            Some(v) => {
                let lowered = to_lowercase(v.as_str());
                self.no_progress_animation = flag_is_set(v.as_str(), lowered.as_str());
            },
            None => {},
        }
    }

    /// The settings with another JDK directory.
    pub fn with_jdk_path(self, path: String) -> (r: Config)
        ensures
            r@ == (ConfigView { jdk_path: path@, ..self@ }),
    {
        let mut out = self;
        out.jdk_path = path;
        out
    }

    /// The settings with another output directory.
    pub fn with_output_dir(self, path: String) -> (r: Config)
        ensures
            r@ == (ConfigView { output_dir: path@, ..self@ }),
    {
        let mut out = self;
        out.output_dir = path;
        out
    }

    /// The settings with another timeout.
    pub fn with_timeout(self, seconds: u64) -> (r: Config)
        ensures
            r@ == (ConfigView { timeout_seconds: seconds, ..self@ }),
    {
        let mut out = self;
        out.timeout_seconds = seconds;
        out
    }

    /// The settings with the progress animation switched on or off.
    pub fn with_progress_animation(self, enable: bool) -> (r: Config)
        ensures
            r@ == (ConfigView { no_progress_animation: !enable, ..self@ }),
    {
        let mut out = self;
        out.no_progress_animation = !enable;
        out
    }

    /// Checks the settings against the file system: the JDK directory, then the
    /// output directory, then the timeout. `write_fault` is the system's message
    /// where a file could not be made in the output directory.
    pub fn validate(&self, probe: PathProbe, write_fault: Option<&str>) -> (r: Result<
        (),
        CliError,
    >)
        ensures
            fault_of(r) == first_fault(self@, probe, crate::text::opt_str(write_fault)),
    {
        match self.validate_jdk_path(probe) {
            Err(e) => {
                return Err(e);
            },
            Ok(_) => {},
        }
        match self.validate_output_dir(probe, write_fault) {
            Err(e) => {
                return Err(e);
            },
            Ok(_) => {},
        }
        self.validate_timeout()
    }

    /// Checks that the JDK directory and its two tools exist.
    pub fn validate_jdk_path(&self, probe: PathProbe) -> (r: Result<(), CliError>)
        ensures
            fault_of(r) == jdk_fault(self@, probe),
    {
        if !probe.jdk_exists {
            return Err(
                CliError::ConfigError(
                    concat3(
                        "JDK path does not exist: ",
                        self.jdk_path.as_str(),
                        ". Set JDK_PATH environment variable or ensure default path exists.",
                    ),
                ),
            );
        }
        if !probe.jmap_exists {
            let jmap = self.get_jmap_path();
            return Err(
                CliError::ConfigError(
                    concat3("jmap not found: ", jmap.as_str(), ". Please verify JDK installation."),
                ),
            );
        }
        if !probe.jstack_exists {
            let jstack = self.get_jstack_path();
            return Err(
                CliError::ConfigError(
                    concat3(
                        "jstack not found: ",
                        jstack.as_str(),
                        ". Please verify JDK installation.",
                    ),
                ),
            );
        }
        Ok(())
    }

    /// Checks that an output directory that exists can be written to.
    pub fn validate_output_dir(&self, probe: PathProbe, write_fault: Option<&str>) -> (r: Result<
        (),
        CliError,
    >)
        ensures
            fault_of(r) == output_dir_fault(self@, probe, crate::text::opt_str(write_fault)),
    {
        match write_fault {
            Some(e) => {
                if probe.output_dir_exists {
                    let head = concat3(
                        "Output directory is not writable: ",
                        self.output_dir.as_str(),
                        ". Error: ",
                    );
                    Err(CliError::ConfigError(concat(head.as_str(), e)))
                } else {
                    Ok(())
                }
            },
            None => Ok(()),
        }
    }

    /// Checks that the timeout is neither zero nor above an hour.
    pub fn validate_timeout(&self) -> (r: Result<(), CliError>)
        ensures
            fault_of(r) == timeout_fault(self.timeout_seconds),
    {
        if self.timeout_seconds == 0 {
            return Err(CliError::ConfigError("Timeout cannot be zero".to_owned()));
        }
        if self.timeout_seconds > 3600 {
            return Err(
                CliError::ConfigError("Timeout cannot exceed 3600 seconds (1 hour)".to_owned()),
            );
        }
        Ok(())
    }

    /// What is said where the output directory cannot be made; `reason` is the
    /// system's message.
    pub fn ensure_output_dir(&self, created: Result<(), String>) -> (r: Result<(), CliError>)
        ensures
            match created {
                Ok(_) => r is Ok,
                Err(reason) => r is Err && r->Err_0@ == ErrorView::ConfigError(
                    "Failed to create output directory: "@ + self.output_dir@ + ". Error: "@
                        + reason@,
                ),
            },
    {
        match created {
            Ok(_) => Ok(()),
            Err(reason) => {
                let head = concat3(
                    "Failed to create output directory: ",
                    self.output_dir.as_str(),
                    ". Error: ",
                );
                Err(CliError::ConfigError(concat(head.as_str(), reason.as_str())))
            },
        }
    }

    /// Where the heap dumper is.
    pub fn get_jmap_path(&self) -> (r: String)
        ensures
            r@ == path_join(self.jdk_path@, "bin/jmap"@),
    {
        join_path(self.jdk_path.as_str(), "bin/jmap")
    }

    /// Where the thread dumper is.
    pub fn get_jstack_path(&self) -> (r: String)
        ensures
            r@ == path_join(self.jdk_path@, "bin/jstack"@),
    {
        join_path(self.jdk_path.as_str(), "bin/jstack")
    }

    /// The timeout in milliseconds.
    pub fn get_timeout_millis(&self) -> (r: u64)
        requires
            self.timeout_seconds * 1000 <= u64::MAX,
        ensures
            r == self.timeout_seconds * 1000,
    {
        self.timeout_seconds * 1000
    }
}

} // verus!
