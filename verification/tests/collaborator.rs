use socp_tui::api::{ApiClient, Failure};
use socp_tui::config::{
    config_location, load_config, Config, ConfigError, ConfigFile, DEFAULT_API_URL,
};
use socp_tui::events::{next_event, translate, Event, Polled, TerminalInput, DEFAULT_TICK_RATE_MS};
use socp_tui::keys::{KeyCode, KeyEvent, KeyModifiers, MouseEvent, MouseEventKind};
use socp_tui::model::{AlertSeverity, DeploymentStatus, SiteStatus};
use socp_tui::time::Timestamp;

fn client() -> ApiClient {
    ApiClient::new("https://[::1]:8443").expect("client")
}

const NOW: Timestamp = Timestamp { secs: 1_700_000_000, nanos: 250 };

fn at(delta: i64) -> Option<Timestamp> {
    Some(Timestamp { secs: 1_700_000_000 + delta, nanos: 250 })
}

#[test]
fn client_keeps_the_endpoint_without_trailing_slashes() {
    assert_eq!(ApiClient::new("https://cp.example.com").expect("client").base_url(), "https://cp.example.com");
    assert_eq!(ApiClient::new("https://cp.example.com/").expect("client").base_url(), "https://cp.example.com");
    assert_eq!(ApiClient::new("https://cp.example.com///").expect("client").base_url(), "https://cp.example.com");
    assert_eq!(ApiClient::new("https://cp.example.com/api/").expect("client").base_url(), "https://cp.example.com/api");
    assert_eq!(ApiClient::new("/").expect("client").base_url(), "");
    assert_eq!(ApiClient::new("").expect("client").base_url(), "");
    assert_eq!(ApiClient::new("/a/b").expect("client").base_url(), "/a/b");
}

#[test]
fn client_from_a_failed_build_is_an_error() {
    let error = reqwest::Client::builder()
        .user_agent("bad\nagent")
        .build()
        .expect_err("a header value with a line break is refused");
    let text = error.to_string();
    let result = ApiClient::from_built("https://cp.example.com/", Err(error));
    match result {
        Ok(_) => panic!("a client came out of a failed build"),
        Err(e) => assert_eq!(e.source.to_string(), text),
    }
}

#[test]
fn client_from_a_built_client_is_ok() {
    let built = reqwest::Client::builder().build();
    assert!(built.is_ok());
    let made = ApiClient::from_built("https://cp.example.com//", built).expect("client");
    assert_eq!(made.base_url(), "https://cp.example.com");
}

#[test]
fn sites_are_the_fixed_fleet() {
    let sites = client().get_sites(NOW).expect("sites");
    assert_eq!(sites.len(), 3);

    assert_eq!(sites[0].id, "site-1");
    assert_eq!(sites[0].domain, "example.com");
    assert_eq!(sites[0].status, SiteStatus::Healthy);
    assert_eq!(sites[0].last_sync, at(0));
    assert_eq!(sites[0].config_hash.as_deref(), Some("sha256:abc123"));
    assert_eq!(sites[0].response_time_ms, Some(145));
    assert_eq!(sites[0].ssl_expires, at(60 * 86_400));
    assert_eq!(sites[0].tags, vec!["production", "wordpress"]);
    assert_eq!(sites[0].environment, "production");

    assert_eq!(sites[1].id, "site-2");
    assert_eq!(sites[1].domain, "blog.example.com");
    assert_eq!(sites[1].status, SiteStatus::Warning);
    assert_eq!(sites[1].last_sync, at(-2 * 3_600));
    assert_eq!(sites[1].config_hash.as_deref(), Some("sha256:def456"));
    assert_eq!(sites[1].response_time_ms, Some(523));
    assert_eq!(sites[1].ssl_expires, at(15 * 86_400));
    assert_eq!(sites[1].tags, vec!["production", "wordpress"]);
    assert_eq!(sites[1].environment, "production");

    assert_eq!(sites[2].id, "site-3");
    assert_eq!(sites[2].domain, "staging.example.com");
    assert_eq!(sites[2].status, SiteStatus::Drifted);
    assert_eq!(sites[2].last_sync, at(-86_400));
    assert_eq!(sites[2].config_hash.as_deref(), Some("sha256:ghi789"));
    assert_eq!(sites[2].response_time_ms, Some(89));
    assert_eq!(sites[2].ssl_expires, at(90 * 86_400));
    assert_eq!(sites[2].tags, vec!["staging"]);
    assert_eq!(sites[2].environment, "staging");
}

#[test]
fn site_identifiers_are_unique() {
    let sites = client().get_sites(NOW).expect("sites");
    for i in 0..sites.len() {
        for j in 0..i {
            assert_ne!(sites[i].id, sites[j].id);
        }
    }
}

#[test]
fn alerts_are_the_fixed_alerts() {
    let alerts = client().get_alerts(NOW).expect("alerts");
    assert_eq!(alerts.len(), 2);
    assert_eq!(alerts[0].id, "alert-1");
    assert_eq!(alerts[0].site_id, "site-2");
    assert_eq!(alerts[0].severity, AlertSeverity::Warning);
    assert_eq!(alerts[0].message, "SSL certificate expires in 15 days");
    assert_eq!(Some(alerts[0].timestamp), at(0));
    assert!(!alerts[0].acknowledged);
    assert_eq!(alerts[1].id, "alert-2");
    assert_eq!(alerts[1].site_id, "site-2");
    assert_eq!(alerts[1].severity, AlertSeverity::Warning);
    assert_eq!(alerts[1].message, "Response time > 500ms");
    assert_eq!(Some(alerts[1].timestamp), at(-3_600));
    assert!(!alerts[1].acknowledged);
}

#[test]
fn alerts_are_about_known_sites() {
    let fleet = client();
    let sites = fleet.get_sites(NOW).expect("sites");
    for alert in fleet.get_alerts(NOW).expect("alerts") {
        assert!(sites.iter().any(|s| s.id == alert.site_id));
    }
    for deployment in fleet.get_pending_deployments(NOW).expect("deployments") {
        for target in &deployment.sites {
            assert!(sites.iter().any(|s| &s.id == target));
        }
    }
}

#[test]
fn pending_deployments_are_the_fixed_deployment() {
    let deployments = client().get_pending_deployments(NOW).expect("deployments");
    assert_eq!(deployments.len(), 1);
    assert_eq!(deployments[0].id, "deploy-1");
    assert_eq!(deployments[0].sites, vec!["site-1", "site-2"]);
    assert_eq!(deployments[0].change_type, "security-headers-update");
    assert_eq!(deployments[0].scheduled, at(6 * 3_600));
    assert_eq!(deployments[0].status, DeploymentStatus::Pending);
}

#[test]
fn fixed_answers_saturate_at_the_end_of_time() {
    let end = Timestamp { secs: i64::MAX - 10, nanos: 0 };
    let sites = client().get_sites(end).expect("sites");
    assert_eq!(sites[0].ssl_expires, Some(Timestamp { secs: i64::MAX, nanos: 0 }));
    assert_eq!(sites[1].last_sync, Some(Timestamp { secs: i64::MAX - 10 - 7_200, nanos: 0 }));
}

#[test]
fn sync_is_acknowledged() {
    assert!(client().sync_site("site-1").is_ok());
    assert!(client().sync_site("").is_ok());
}

#[test]
fn config_diff_names_the_site() {
    let expected = |site_id: &str| {
        format!(
            "--- a/sites/{}/config.ncl\n+++ b/sites/{}/config.ncl\n@@ -15,7 +15,7 @@\n   security = {{\n     headers = {{\n-      x_frame_options = 'SAMEORIGIN,\n+      x_frame_options = 'DENY,\n       content_security_policy = \"default-src 'self'\",\n     }},\n   }},\n",
            site_id, site_id
        )
    };
    assert_eq!(client().get_config_diff("site-1").expect("diff"), expected("site-1"));
    assert_eq!(client().get_config_diff("").expect("diff"), expected(""));
    assert!(client().get_config_diff("site-9").expect("diff").starts_with("--- a/sites/site-9/config.ncl\n+++ b/sites/site-9/config.ncl\n"));
}

#[test]
fn failures_carry_their_reason() {
    let failure = Failure { reason: "timeout".to_string() };
    assert_eq!(failure.clone().reason, "timeout");
}

#[test]
fn config_defaults_set_nothing() {
    let config = Config::default();
    assert_eq!(config.api_url, None);
    assert_eq!(config.refresh_interval_secs, None);
    assert_eq!(config.theme, None);
}

#[test]
fn config_falls_back_to_defaults() {
    for found in [ConfigFile::Missing, ConfigFile::Malformed] {
        let config = load_config(found).expect("defaults");
        assert_eq!(config.api_url, None);
        assert_eq!(config.refresh_interval_secs, None);
        assert_eq!(config.theme, None);
    }
}

#[test]
fn config_is_what_the_file_holds() {
    let parsed = Config {
        api_url: Some("https://cp.example.com".to_string()),
        refresh_interval_secs: Some(30),
        theme: Some("dark".to_string()),
    };
    let config = load_config(ConfigFile::Parsed(parsed)).expect("configuration");
    assert_eq!(config.api_url.as_deref(), Some("https://cp.example.com"));
    assert_eq!(config.refresh_interval_secs, Some(30));
    assert_eq!(config.theme.as_deref(), Some("dark"));
}

#[test]
fn config_that_cannot_be_read_is_an_error() {
    match load_config(ConfigFile::Unreadable("permission denied".to_string())) {
        Err(ConfigError::Unreadable(reason)) => assert_eq!(reason, "permission denied"),
        Ok(config) => panic!("unexpected configuration {:?}", config),
    }
}

#[test]
fn config_location_prefers_the_named_file() {
    assert_eq!(
        config_location(Some("a.toml".to_string()), Some("b.toml".to_string())).as_deref(),
        Some("a.toml")
    );
    assert_eq!(config_location(None, Some("b.toml".to_string())).as_deref(), Some("b.toml"));
    assert_eq!(config_location(Some("a.toml".to_string()), None).as_deref(), Some("a.toml"));
    assert_eq!(config_location(None, None), None);
}

#[test]
fn api_url_precedence() {
    let set = Config {
        api_url: Some("https://from-file".to_string()),
        refresh_interval_secs: None,
        theme: None,
    };
    let unset = Config::default();
    assert_eq!(set.resolve_api_url(Some("https://from-cli".to_string())), "https://from-cli");
    assert_eq!(set.resolve_api_url(None), "https://from-file");
    assert_eq!(unset.resolve_api_url(Some("https://from-cli".to_string())), "https://from-cli");
    assert_eq!(unset.resolve_api_url(None), "https://[::1]:8443");
    assert_eq!(DEFAULT_API_URL, "https://[::1]:8443");
}

#[test]
fn input_becomes_events() {
    let key = KeyEvent::new(KeyCode::Char('x'), KeyModifiers::none());
    let mouse = MouseEvent {
        kind: MouseEventKind::ScrollDown,
        column: 1,
        row: 2,
        modifiers: KeyModifiers::control(),
    };
    assert_eq!(translate(TerminalInput::Key(key)), Some(Event::Key(key)));
    assert_eq!(translate(TerminalInput::Mouse(mouse)), Some(Event::Mouse(mouse)));
    assert_eq!(translate(TerminalInput::Resize(80, 24)), Some(Event::Resize(80, 24)));
    assert_eq!(translate(TerminalInput::Other), None);
}

#[test]
fn waits_become_events() {
    let key = KeyEvent::new(KeyCode::Enter, KeyModifiers::none());
    assert_eq!(next_event(Polled::Idle), Some(Event::Tick));
    assert_eq!(next_event(Polled::Unreadable), None);
    assert_eq!(next_event(Polled::Input(TerminalInput::Key(key))), Some(Event::Key(key)));
    assert_eq!(next_event(Polled::Input(TerminalInput::Resize(1, 2))), Some(Event::Resize(1, 2)));
    assert_eq!(next_event(Polled::Input(TerminalInput::Other)), None);
    assert_eq!(DEFAULT_TICK_RATE_MS, 250);
}

#[test]
fn key_helpers() {
    let none = KeyModifiers::none();
    assert!(!none.shift && !none.control && !none.alt && !none.super_key && !none.hyper && !none.meta);
    let control = KeyModifiers::control();
    assert!(control.control && !control.shift && !control.alt);
    assert!(KeyEvent::new(KeyCode::Char('q'), control).is_quit_chord());
    assert!(KeyEvent::new(KeyCode::Char('c'), control).is_quit_chord());
    assert!(!KeyEvent::new(KeyCode::Char('q'), none).is_quit_chord());
    assert!(!KeyEvent::new(KeyCode::Char('x'), control).is_quit_chord());
    assert!(!KeyEvent::new(KeyCode::Esc, control).is_quit_chord());
    let both = KeyModifiers { shift: true, ..control };
    assert!(KeyEvent::new(KeyCode::Char('q'), both).is_quit_chord());
    assert!(KeyEvent::new(KeyCode::Up, none).is_up());
    assert!(KeyEvent::new(KeyCode::Char('k'), none).is_up());
    assert!(!KeyEvent::new(KeyCode::Char('j'), none).is_up());
    assert!(KeyEvent::new(KeyCode::Down, none).is_down());
    assert!(KeyEvent::new(KeyCode::Char('j'), none).is_down());
    assert!(!KeyEvent::new(KeyCode::Char('k'), none).is_down());
    assert!(!KeyEvent::new(KeyCode::Enter, none).is_down());
}

#[test]
fn deployment_lifecycle_runs_one_way() {
    let all = [
        DeploymentStatus::Pending,
        DeploymentStatus::InProgress,
        DeploymentStatus::Completed,
        DeploymentStatus::Failed,
        DeploymentStatus::RolledBack,
    ];
    let steps = [
        (DeploymentStatus::Pending, DeploymentStatus::InProgress),
        (DeploymentStatus::InProgress, DeploymentStatus::Completed),
        (DeploymentStatus::InProgress, DeploymentStatus::Failed),
        (DeploymentStatus::Failed, DeploymentStatus::RolledBack),
    ];
    for from in all {
        for to in all {
            assert_eq!(from.can_become(to), steps.contains(&(from, to)), "{:?} -> {:?}", from, to);
        }
    }
}
