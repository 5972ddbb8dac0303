//! Top-level action dispatch. One closed tagged-variant type carries, per
//! action, exactly the fields that action needs; dispatch selects exactly
//! one flow per invocation by exhaustive matching. The two config-dump
//! flags short-circuit every action; they print a default configuration
//! and nothing else.

use vstd::prelude::*;
use crate::config::{TaggerConfig, AutotaggerOverrides, ResolveWarning, resolve, resolved,
    is_default_config, spec_resolve_warnings};

verus! {

/// One requested action, with the fields it needs.
#[derive(Clone, Debug, PartialEq)]
pub enum Actions {
    /// Tag a file set, with configuration resolved from defaults, an
    /// optional config file, and CLI overrides.
    Autotagger { overrides: AutotaggerOverrides },
    /// Run audio-features analysis over a file set.
    Audiofeatures {
        path: String,
        config: String,
        client_id: String,
        client_secret: String,
        no_subfolders: bool,
    },
    /// Query information about a URL without downloading. The confidence
    /// threshold is carried as the query expects it rendered.
    QueryUrl { url: String, confidence: String },
    /// Download songs through the external download script.
    SongDownloader {
        url: String,
        output: String,
        confidence: String,
        enable_auto_tag: bool,
        auto_tag_config: Option<String>,
        enable_audio_features: bool,
        client_id: Option<String>,
        client_secret: Option<String>,
    },
    /// Drive the OAuth authorization flow and cache the token.
    AuthorizeSpotify { client_id: String, client_secret: String, expose: bool, prompt: bool },
    /// Compute and optionally apply a rename mapping.
    Renamer {
        path: String,
        output: Option<String>,
        template: String,
        copy: bool,
        no_subfolders: bool,
        preview: bool,
        overwrite: bool,
        separator: String,
        keep_subfolders: bool,
    },
    /// Start server mode.
    Server { expose: bool, path: Option<String>, browser: bool },
}

impl Actions {
    /// Resolves the canonical tagger configuration for the autotagger
    /// action: the file-loaded configuration, when one was supplied and
    /// parsed, fully replaces the built-in default as the base, and the
    /// CLI overrides are applied on top, field by field.
    pub fn get_at_config(&self, file_config: Option<TaggerConfig>) -> (r: (
        TaggerConfig,
        Vec<ResolveWarning>,
    ))
        requires
            self is Autotagger,
        ensures
            *self matches Actions::Autotagger { overrides } ==> {
                &&& file_config matches Some(base) ==> resolved(base, overrides, r.0)
                &&& file_config is None ==> exists|base: TaggerConfig|
                    is_default_config(base) && resolved(base, overrides, r.0)
                &&& r.1.deep_view() == spec_resolve_warnings(overrides)
            },
    {
        match self {
            Actions::Autotagger { overrides } => {
                let base = match file_config {
                    Some(c) => c,
                    None => TaggerConfig::custom_default(),
                };
                let ghost b = base;
                let r = resolve(base, overrides);
                proof {
                    if file_config is None {
                        assert(is_default_config(b) && resolved(b, *overrides, r.0));
                    }
                }
                r
            },
            _ => vstd::pervasive::unreached(),
        }
    }
}

/// What one invocation does, decided before any other work.
#[derive(Clone, Copy, Debug, PartialEq, Eq, Structural)]
pub enum DispatchDecision {
    /// Print the default autotagger configuration and exit at once,
    /// without logging setup or any action.
    PrintAutotaggerDefault,
    /// Print the default audio-features configuration and exit at once.
    PrintAudiofeaturesDefault,
    /// No action was requested: point at the help text and exit.
    NoAction,
    /// Run the requested action.
    RunAction,
}

/// The parsed command line: the optional action and the two config-dump
/// flags.
#[derive(Clone, Debug, PartialEq)]
pub struct Cli {
    pub action: Option<Actions>,
    pub autotagger_config: bool,
    pub audiofeatures_config: bool,
}

/// Which way one invocation goes: the config-dump flags win over any
/// action, the autotagger dump first; otherwise a missing action is
/// reported; otherwise the action runs.
pub open spec fn spec_dispatch(cli: Cli) -> DispatchDecision {
    if cli.autotagger_config {
        DispatchDecision::PrintAutotaggerDefault
    } else if cli.audiofeatures_config {
        DispatchDecision::PrintAudiofeaturesDefault
    } else if cli.action is None {
        DispatchDecision::NoAction
    } else {
        DispatchDecision::RunAction
    }
}

/// Decides what this invocation does.
pub fn dispatch(cli: &Cli) -> (r: DispatchDecision)
    ensures
        r == spec_dispatch(*cli),
{
    if cli.autotagger_config {
        DispatchDecision::PrintAutotaggerDefault
    } else if cli.audiofeatures_config {
        DispatchDecision::PrintAudiofeaturesDefault
    } else if cli.action.is_none() {
        DispatchDecision::NoAction
    } else {
        DispatchDecision::RunAction
    }
}

/// The audio-features subfolder setting: the CLI exclusion flag, when
/// present, forces subfolder inclusion off; it never forces it on.
pub fn apply_subfolder_override(base_include: bool, no_subfolders: bool) -> (r: bool)
    ensures
        r == (base_include && !no_subfolders),
{
    if no_subfolders {
        false
    } else {
        base_include
    }
}

/// The whole seconds a delegated run took, from its start and end
/// timestamps in milliseconds; a clock that moved backwards reports zero.
pub fn elapsed_seconds(start_ms: u64, end_ms: u64) -> (r: u64)
    ensures
        end_ms >= start_ms ==> r == (end_ms - start_ms) / 1000,
        end_ms < start_ms ==> r == 0,
{
    end_ms.saturating_sub(start_ms) / 1000
}

} // verus!
