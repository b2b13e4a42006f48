//! The plugin lifecycle: sizing the runtime supervisor from the startup
//! configuration, and the write-once initialization guard.
//!
//! The host calls the init entry point once; a second attempt is a startup
//! failure, never a silent overwrite. The supervisor's worker count is fixed
//! at construction: the configured `threads` when it is positive, the
//! implementation default when it is 0.

use vstd::prelude::*;

use crate::config::{
    config_init_parse, json_object_accepts, keys_of_text, spec_config_of, uints_of_text,
    ConfigError, ConfigInit,
};

verus! {

/// The sizing record of the process's one task executor: how many workers it
/// was constructed with. The executor itself lives outside the library; this
/// type fixes and reports its worker count.
#[derive(Debug, PartialEq, Eq, Structural, Clone, Copy)]
pub struct Supervisor {
    pub workers: usize,
}

impl Supervisor {
    /// Size the supervisor from the configured thread count: exactly
    /// `requested` workers when `requested > 0`, the implementation default
    /// when `requested == 0`.
    pub fn new(requested: usize, default_workers: usize) -> (r: Supervisor)
        requires
            default_workers > 0,
        ensures
            requested > 0 ==> r.workers == requested,
            requested == 0 ==> r.workers == default_workers,
            r.workers > 0,
    {
        if requested == 0 {
            Supervisor { workers: default_workers }
        } else {
            Supervisor { workers: requested }
        }
    }

    /// Report the worker count the supervisor was constructed with.
    pub fn worker_count(&self) -> (n: usize)
        ensures
            n == self.workers,
    {
        self.workers
    }
}

/// The process-wide state of the plugin: uninitialized, or initialized once
/// with its configuration and supervisor sizing.
#[derive(Debug, PartialEq, Eq, Structural, Clone, Copy)]
pub enum PluginState {
    Uninitialized,
    Ready { config: ConfigInit, supervisor: Supervisor },
}

/// Why plugin initialization failed; any of these makes the host refuse to
/// load the plugin.
#[derive(Debug, PartialEq, Eq, Structural, Clone, Copy)]
pub enum InitError {
    /// The init entry point was called a second time.
    AlreadyInitialized,
    /// The host could not supply a configuration text.
    ConfigUnavailable,
    /// The configuration text was rejected.
    ConfigRejected { error: ConfigError },
    /// The task executor could not be constructed.
    RuntimeBuildFailed,
}

impl InitError {
    /// The critical diagnostic logged when initialization fails; any such
    /// failure makes the host refuse to load the plugin.
    pub fn diagnostic(&self) -> (r: &'static str)
        ensures
            (self is ConfigUnavailable || self is ConfigRejected) ==> r@
                == "grpc-deliver: Failed to parse config"@,
            self is RuntimeBuildFailed ==> r@ == "grpc-deliver: Failed to create runtime"@,
            self is AlreadyInitialized ==> r@
                == "grpc-deliver: Failed to store config globally"@,
    {
        match self {
            InitError::ConfigUnavailable | InitError::ConfigRejected { .. } => {
                "grpc-deliver: Failed to parse config"
            },
            InitError::RuntimeBuildFailed => "grpc-deliver: Failed to create runtime",
            InitError::AlreadyInitialized => "grpc-deliver: Failed to store config globally",
        }
    }
}

/// What installing into a lifecycle state yields: the state afterwards, and
/// whether the attempt succeeded. Only the first attempt writes.
pub open spec fn spec_install(
    state: PluginState,
    config: ConfigInit,
    supervisor: Supervisor,
) -> (PluginState, bool) {
    match state {
        PluginState::Ready { .. } => (state, false),
        PluginState::Uninitialized => (PluginState::Ready { config, supervisor }, true),
    }
}

impl PluginState {
    /// Whether the plugin has been initialized.
    pub fn is_ready(&self) -> (b: bool)
        ensures
            b == (self is Ready),
    {
        match self {
            PluginState::Ready { .. } => true,
            PluginState::Uninitialized => false,
        }
    }

    /// Decide the first phase of initialization: refuse a second attempt,
    /// require a configuration text, and parse it — on a first attempt with a
    /// JSON-object text, the result is the parsed configuration, or its parse
    /// error carried as [`InitError::ConfigRejected`]. `config_json` is
    /// `None` when the host could not supply the text.
    pub fn plan_init(&self, config_json: Option<&str>) -> (r: Result<ConfigInit, InitError>)
        ensures
            self is Ready ==> r == Err::<ConfigInit, InitError>(InitError::AlreadyInitialized),
            self is Uninitialized && config_json is None ==> r == Err::<ConfigInit, InitError>(
                InitError::ConfigUnavailable,
            ),
            self is Uninitialized && (config_json matches Some(s) && !json_object_accepts(s@))
                ==> r == Err::<ConfigInit, InitError>(
                InitError::ConfigRejected { error: ConfigError::NotAnObject },
            ),
            self is Uninitialized ==> (config_json matches Some(s) ==> (json_object_accepts(s@)
                ==> r == (match spec_config_of(keys_of_text(s@), uints_of_text(s@)) {
                Ok(c) => Ok::<ConfigInit, InitError>(c),
                Err(e) => Err::<ConfigInit, InitError>(InitError::ConfigRejected { error: e }),
            }))),
            r is Ok ==> self is Uninitialized && config_json is Some,
    {
        if self.is_ready() {
            return Err(InitError::AlreadyInitialized);
        }
        match config_json {
            None => Err(InitError::ConfigUnavailable),
            Some(s) => match config_init_parse(s) {
                Ok(config) => Ok(config),
                Err(error) => Err(InitError::ConfigRejected { error }),
            },
        }
    }

    /// Complete initialization: store the configuration and the supervisor
    /// sizing, once. A second attempt fails and leaves the stored state
    /// exactly as it was.
    pub fn install(self, config: ConfigInit, supervisor: Supervisor) -> (r: (PluginState, bool))
        ensures
            r == spec_install(self, config, supervisor),
            self is Ready ==> r == (self, false),
            self is Uninitialized ==> r == (
                PluginState::Ready { config, supervisor },
                true,
            ),
    {
        match self {
            PluginState::Ready { .. } => (self, false),
            PluginState::Uninitialized => (PluginState::Ready { config, supervisor }, true),
        }
    }
}

/// Law: initialization is write-once. The first install succeeds and stores
/// exactly what it was given; whatever a later attempt tries to install, the
/// stored configuration and supervisor are unchanged and the attempt reports
/// failure.
pub proof fn lemma_write_once(
    config: ConfigInit,
    supervisor: Supervisor,
    later_config: ConfigInit,
    later_supervisor: Supervisor,
)
    ensures
        ({
            let first = spec_install(PluginState::Uninitialized, config, supervisor);
            let second = spec_install(first.0, later_config, later_supervisor);
            &&& first.0 == (PluginState::Ready { config, supervisor })
            &&& first.1 == true
            &&& second.0 == first.0
            &&& second.1 == false
        }),
{
}


} // verus!
