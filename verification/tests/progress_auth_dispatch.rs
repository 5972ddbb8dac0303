use onetagger_cli::progress::{ProgressEvent, ProgressStatus, monitor, summarize};
use onetagger_cli::auth::{AuthMode, AuthState, AuthEvent, AuthAction, AuthError, RedirectWait,
    auth_step, bind_address, extract_auth_code, redirect_wait};
use onetagger_cli::dispatch::{Actions, Cli, DispatchDecision, dispatch, apply_subfolder_override,
    elapsed_seconds};
use onetagger_cli::config::AutotaggerOverrides;

fn event(path: &str, status: ProgressStatus) -> ProgressEvent {
    ProgressEvent {
        path: String::from(path),
        status,
    }
}

#[test]
fn monitor_drains_five_events_in_arrival_order() {
    let (tx, rx) = std::sync::mpsc::channel();
    let sent = vec![
        event("a", ProgressStatus::Done),
        event("b", ProgressStatus::Skipped),
        event("c", ProgressStatus::Done),
        event("d", ProgressStatus::Failed),
        event("e", ProgressStatus::Done),
    ];
    for e in &sent {
        tx.send(e.clone()).unwrap();
    }
    drop(tx);
    let report = monitor(&rx);
    assert_eq!(report.events, sent);
    assert_eq!(report.summary.done, 3);
    assert_eq!(report.summary.skipped, 1);
    assert_eq!(report.summary.failed, 1);
}

#[test]
fn monitor_of_closed_empty_channel_returns_nothing() {
    let (tx, rx) = std::sync::mpsc::channel::<ProgressEvent>();
    drop(tx);
    let report = monitor(&rx);
    assert!(report.events.is_empty());
    assert_eq!(report.summary.done, 0);
}

#[test]
fn summarize_counts_each_status() {
    let events = vec![
        event("a", ProgressStatus::Done),
        event("b", ProgressStatus::Done),
        event("c", ProgressStatus::Failed),
    ];
    let s = summarize(&events);
    assert_eq!((s.done, s.skipped, s.failed), (2, 0, 1));
}

#[test]
fn auth_happy_path_reaches_cached_and_terminates() {
    let url = String::from("https://accounts.example/authorize?x=1");
    let (s1, a1) = auth_step(AuthState::Start, AuthEvent::UrlReady(Some(url.clone())));
    assert_eq!(s1, AuthState::UrlShown);
    assert_eq!(a1, AuthAction::ShowUrl(url));
    let (s2, a2) = auth_step(s1, AuthEvent::UrlDisplayed);
    assert_eq!(s2, AuthState::AwaitingRedirect);
    assert_eq!(a2, AuthAction::AwaitRedirect);
    let redirect = String::from("http://127.0.0.1/callback?code=abc");
    let (s3, a3) = auth_step(s2, AuthEvent::RedirectReceived(Some(redirect.clone())));
    assert_eq!(s3, AuthState::Exchanging);
    assert_eq!(a3, AuthAction::Exchange(redirect));
    let (s4, a4) = auth_step(s3, AuthEvent::ExchangeFinished(true));
    assert_eq!(s4, AuthState::Cached);
    assert_eq!(a4, AuthAction::PersistAndTerminate);
}

#[test]
fn auth_code_is_extracted_from_redirect_url() {
    assert_eq!(
        extract_auth_code("http://127.0.0.1/callback?code=abc&state=1"),
        Some(String::from("abc"))
    );
    assert_eq!(
        extract_auth_code("http://127.0.0.1/callback?state=1&code=xyz"),
        Some(String::from("xyz"))
    );
    assert_eq!(extract_auth_code("http://127.0.0.1/callback?xcode=1"), None);
    assert_eq!(extract_auth_code("http://127.0.0.1/callback"), None);
    assert_eq!(
        extract_auth_code("http://h/cb?code="),
        Some(String::new())
    );
}

#[test]
fn auth_listener_timeout_aborts_with_timeout() {
    let (s, a) = auth_step(AuthState::AwaitingRedirect, AuthEvent::ListenerTimedOut);
    assert_eq!(s, AuthState::Failed);
    assert_eq!(a, AuthAction::Abort(AuthError::Timeout));
}

#[test]
fn auth_failed_exchange_aborts() {
    let (s, a) = auth_step(AuthState::Exchanging, AuthEvent::ExchangeFinished(false));
    assert_eq!(s, AuthState::Failed);
    assert_eq!(a, AuthAction::Abort(AuthError::ExchangeFailed));
}

#[test]
fn listener_binds_all_interfaces_only_when_exposed() {
    assert_eq!(bind_address(true), "0.0.0.0");
    assert_eq!(bind_address(false), "127.0.0.1");
    assert_eq!(redirect_wait(&AuthMode::Prompt), RedirectWait::ConsolePrompt);
    assert_eq!(
        redirect_wait(&AuthMode::Server { expose: false }),
        RedirectWait::Listener {
            bind: String::from("127.0.0.1")
        }
    );
}

#[test]
fn config_dump_flags_win_over_actions() {
    let cli = Cli {
        action: None,
        autotagger_config: true,
        audiofeatures_config: true,
    };
    assert_eq!(dispatch(&cli), DispatchDecision::PrintAutotaggerDefault);
    let cli2 = Cli {
        action: None,
        autotagger_config: false,
        audiofeatures_config: true,
    };
    assert_eq!(dispatch(&cli2), DispatchDecision::PrintAudiofeaturesDefault);
    let cli3 = Cli {
        action: None,
        autotagger_config: false,
        audiofeatures_config: false,
    };
    assert_eq!(dispatch(&cli3), DispatchDecision::NoAction);
}

#[test]
fn subfolder_override_is_asymmetric() {
    assert!(!apply_subfolder_override(true, true));
    assert!(apply_subfolder_override(true, false));
    assert!(!apply_subfolder_override(false, false));
}

#[test]
fn elapsed_seconds_is_whole_seconds_and_never_negative() {
    assert_eq!(elapsed_seconds(1000, 5500), 4);
    assert_eq!(elapsed_seconds(5500, 1000), 0);
}

#[test]
fn requested_action_runs_when_no_dump_flag_is_set() {
    let cli = Cli {
        action: Some(Actions::Autotagger {
            overrides: AutotaggerOverrides::none(),
        }),
        autotagger_config: false,
        audiofeatures_config: false,
    };
    assert_eq!(dispatch(&cli), DispatchDecision::RunAction);
}
