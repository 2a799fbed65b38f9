use socp_tui::api::ApiClient;
use socp_tui::app::App;
use socp_tui::model::{
    count_sites_with_status, count_unacknowledged_alerts, Alert, AlertSeverity, Deployment,
    DeploymentStatus, Site, SiteStatus,
};
use socp_tui::render::{
    alerts, attention, attention_sites, deployments, margin_percent, overview, site_detail,
    site_row, site_rows, status_bar, status_color, status_icon, tab_index, tab_titles, Color,
    ATTENTION_LIMIT, EXPIRY_PATTERN, LAST_SYNC_PATTERN, POPUP_PERCENT,
};
use socp_tui::screen::View;
use socp_tui::text::{decimal, join, text_or_else};
use socp_tui::time::{Timestamp, SECS_PER_DAY, SECS_PER_HOUR};

fn client() -> ApiClient {
    ApiClient::new("https://[::1]:8443").expect("client")
}

fn site(id: &str, domain: &str, status: SiteStatus) -> Site {
    Site {
        id: id.to_string(),
        domain: domain.to_string(),
        status,
        last_sync: None,
        config_hash: None,
        response_time_ms: None,
        ssl_expires: None,
        tags: vec![],
        environment: "production".to_string(),
    }
}

fn full_site() -> Site {
    Site {
        id: "site-1".to_string(),
        domain: "example.com".to_string(),
        status: SiteStatus::Healthy,
        last_sync: Some(Timestamp { secs: 1_431_648_000, nanos: 0 }),
        config_hash: Some("sha256:abc123".to_string()),
        response_time_ms: Some(145),
        ssl_expires: Some(Timestamp { secs: 1_431_648_000 + 60 * 86_400, nanos: 0 }),
        tags: vec!["production".to_string(), "wordpress".to_string()],
        environment: "production".to_string(),
    }
}

fn three_sites() -> Vec<Site> {
    vec![
        site("site-1", "example.com", SiteStatus::Healthy),
        site("site-2", "blog.example.com", SiteStatus::Warning),
        site("site-3", "staging.example.com", SiteStatus::Drifted),
    ]
}

fn alert(severity: AlertSeverity, message: &str, acknowledged: bool) -> Alert {
    Alert {
        id: "alert".to_string(),
        site_id: "site-2".to_string(),
        severity,
        message: message.to_string(),
        timestamp: Timestamp { secs: 0, nanos: 0 },
        acknowledged,
    }
}

fn deployment(id: &str, change_type: &str, status: DeploymentStatus) -> Deployment {
    Deployment {
        id: id.to_string(),
        sites: vec![],
        change_type: change_type.to_string(),
        scheduled: None,
        status,
    }
}

fn app(sites: Vec<Site>, alerts: Vec<Alert>, deployments: Vec<Deployment>) -> App {
    App::new(client(), Ok(sites), Ok(alerts), Ok(deployments))
}

#[test]
fn three_sites_one_healthy_two_need_attention() {
    let state = app(three_sites(), vec![], vec![]);
    assert_eq!(state.healthy_sites(), 1);
    let listed = attention_sites(&state.sites);
    assert_eq!(listed.len(), 2);
    assert_eq!(listed[0].status, SiteStatus::Warning);
    assert_eq!(listed[0].id, "site-2");
    assert_eq!(listed[1].status, SiteStatus::Drifted);
    assert_eq!(listed[1].id, "site-3");
}

#[test]
fn attention_lists_at_most_ten_sites_in_order() {
    let mut sites = Vec::new();
    for i in 0..25 {
        let status = if i % 2 == 0 { SiteStatus::Critical } else { SiteStatus::Healthy };
        sites.push(site(&format!("site-{}", i), &format!("s{}.example.com", i), status));
    }
    let listed = attention_sites(&sites);
    assert_eq!(listed.len(), ATTENTION_LIMIT);
    assert_eq!(ATTENTION_LIMIT, 10);
    for (k, shown) in listed.iter().enumerate() {
        assert_eq!(shown.id, format!("site-{}", 2 * k));
    }
}

#[test]
fn attention_text_lists_domain_and_status() {
    assert_eq!(
        attention(&three_sites()),
        "\n  blog.example.com - Warning\n  staging.example.com - Drifted"
    );
}

#[test]
fn attention_text_when_all_are_healthy() {
    assert_eq!(attention(&vec![]), "\n\n  All sites healthy!");
    assert_eq!(
        attention(&vec![site("a", "a.example.com", SiteStatus::Healthy)]),
        "\n\n  All sites healthy!"
    );
}

#[test]
fn attention_text_names_every_status() {
    let sites = vec![
        site("a", "a", SiteStatus::Critical),
        site("b", "b", SiteStatus::Unknown),
        site("c", "c", SiteStatus::Syncing),
    ];
    assert_eq!(attention(&sites), "\n  a - Critical\n  b - Unknown\n  c - Syncing");
}

#[test]
fn overview_counts() {
    let state = app(
        three_sites(),
        vec![
            alert(AlertSeverity::Warning, "a", false),
            alert(AlertSeverity::Info, "b", true),
            alert(AlertSeverity::Critical, "c", false),
        ],
        vec![deployment("deploy-1", "x", DeploymentStatus::Pending)],
    );
    assert_eq!(
        overview(&state),
        "\n  Sites:  3 total\n  \x1b[32m\u{25cf}\x1b[0m Healthy: 1   \x1b[33m\u{25cf}\x1b[0m Warning: 1   \x1b[31m\u{25cf}\x1b[0m Critical: 0\n\n  Pending: 1 deployments   Alerts: 2"
    );
}

#[test]
fn overview_of_an_empty_fleet() {
    let state = app(vec![], vec![], vec![]);
    assert_eq!(
        overview(&state),
        "\n  Sites:  0 total\n  \x1b[32m\u{25cf}\x1b[0m Healthy: 0   \x1b[33m\u{25cf}\x1b[0m Warning: 0   \x1b[31m\u{25cf}\x1b[0m Critical: 0\n\n  Pending: 0 deployments   Alerts: 0"
    );
}

#[test]
fn tabs() {
    assert_eq!(tab_titles(), vec!["Dashboard", "Sites", "Deployments", "Alerts", "Logs", "Help"]);
    assert_eq!(tab_index(View::Dashboard), 0);
    assert_eq!(tab_index(View::SiteList), 1);
    assert_eq!(tab_index(View::SiteDetail), 1);
    assert_eq!(tab_index(View::Secrets), 1);
    assert_eq!(tab_index(View::Deployments), 2);
    assert_eq!(tab_index(View::Alerts), 3);
    assert_eq!(tab_index(View::Logs), 4);
    assert_eq!(tab_index(View::Help), 5);
}

#[test]
fn status_bar_shows_message_or_ready() {
    let mut state = app(vec![], vec![], vec![]);
    assert_eq!(status_bar(&state), " Connected to control plane ");
    state.status_message = None;
    assert_eq!(status_bar(&state), " Ready ");
    state.status_message = Some(String::new());
    assert_eq!(status_bar(&state), "  ");
}

#[test]
fn status_colors_and_icons() {
    assert_eq!(status_color(SiteStatus::Healthy), Color::Green);
    assert_eq!(status_color(SiteStatus::Warning), Color::Yellow);
    assert_eq!(status_color(SiteStatus::Critical), Color::Red);
    assert_eq!(status_color(SiteStatus::Drifted), Color::Magenta);
    assert_eq!(status_color(SiteStatus::Syncing), Color::Cyan);
    assert_eq!(status_color(SiteStatus::Unknown), Color::Gray);
    assert_eq!(status_icon(SiteStatus::Healthy), "\u{25cf}");
    assert_eq!(status_icon(SiteStatus::Warning), "\u{25d0}");
    assert_eq!(status_icon(SiteStatus::Critical), "\u{25cb}");
    assert_eq!(status_icon(SiteStatus::Drifted), "\u{25d1}");
    assert_eq!(status_icon(SiteStatus::Syncing), "\u{25cc}");
    assert_eq!(status_icon(SiteStatus::Unknown), "?");
}

#[test]
fn status_names() {
    assert_eq!(SiteStatus::Healthy.name(), format!("{:?}", SiteStatus::Healthy));
    assert_eq!(SiteStatus::Warning.name(), format!("{:?}", SiteStatus::Warning));
    assert_eq!(SiteStatus::Critical.name(), format!("{:?}", SiteStatus::Critical));
    assert_eq!(SiteStatus::Unknown.name(), format!("{:?}", SiteStatus::Unknown));
    assert_eq!(SiteStatus::Drifted.name(), format!("{:?}", SiteStatus::Drifted));
    assert_eq!(SiteStatus::Syncing.name(), format!("{:?}", SiteStatus::Syncing));
    assert_eq!(AlertSeverity::Info.name(), format!("{:?}", AlertSeverity::Info));
    assert_eq!(AlertSeverity::Warning.name(), format!("{:?}", AlertSeverity::Warning));
    assert_eq!(AlertSeverity::Critical.name(), format!("{:?}", AlertSeverity::Critical));
    assert_eq!(DeploymentStatus::Pending.name(), format!("{:?}", DeploymentStatus::Pending));
    assert_eq!(DeploymentStatus::InProgress.name(), format!("{:?}", DeploymentStatus::InProgress));
    assert_eq!(DeploymentStatus::Completed.name(), format!("{:?}", DeploymentStatus::Completed));
    assert_eq!(DeploymentStatus::Failed.name(), format!("{:?}", DeploymentStatus::Failed));
    assert_eq!(DeploymentStatus::RolledBack.name(), format!("{:?}", DeploymentStatus::RolledBack));
}

#[test]
fn site_row_of_a_full_site() {
    let row = site_row(&full_site(), true);
    assert_eq!(row.color, Color::Green);
    assert_eq!(row.icon, "\u{25cf}");
    assert_eq!(row.domain, "example.com");
    assert_eq!(row.environment, "production");
    assert_eq!(row.last_sync, "2015-05-15 00:00");
    assert_eq!(row.response, "145ms");
    assert!(row.selected);
}

#[test]
fn site_row_of_a_bare_site() {
    let row = site_row(&site("x", "x.example.com", SiteStatus::Unknown), false);
    assert_eq!(row.color, Color::Gray);
    assert_eq!(row.icon, "?");
    assert_eq!(row.last_sync, "Never");
    assert_eq!(row.response, "-");
    assert!(!row.selected);
}

#[test]
fn site_row_of_an_instant_outside_the_calendar() {
    let mut shown = full_site();
    shown.last_sync = Some(Timestamp { secs: i64::MAX, nanos: 0 });
    assert_eq!(site_row(&shown, false).last_sync, "Invalid");
    shown.last_sync = Some(Timestamp { secs: 0, nanos: 2_000_000_000 });
    assert_eq!(site_row(&shown, false).last_sync, "Invalid");
}

#[test]
fn site_rows_mark_the_selected_site() {
    let mut state = app(three_sites(), vec![], vec![]);
    state.selected_site = 1;
    let rows = site_rows(&state);
    assert_eq!(rows.len(), 3);
    assert_eq!(rows[0].domain, "example.com");
    assert_eq!(rows[1].domain, "blog.example.com");
    assert_eq!(rows[2].domain, "staging.example.com");
    assert_eq!(rows[1].color, Color::Yellow);
    assert_eq!(rows[2].icon, "\u{25d1}");
    assert!(!rows[0].selected);
    assert!(rows[1].selected);
    assert!(!rows[2].selected);
    assert!(site_rows(&app(vec![], vec![], vec![])).is_empty());
}

#[test]
fn site_detail_of_a_full_site() {
    let state = app(vec![full_site()], vec![], vec![]);
    let panel = site_detail(&state);
    assert_eq!(panel.title, " example.com ");
    assert_eq!(
        panel.body,
        "\n  Domain:      example.com\n  Status:      Healthy\n  Environment: production\n  Tags:        production, wordpress\n\n  Last Sync:   2015-05-15 00:00:00 UTC\n  Config Hash: sha256:abc123\n\n  Response:    145ms\n  SSL Expires: 2015-07-14\n\n  [s] Sync  [c] Config Diff  [b] Back\n"
    );
}

#[test]
fn site_detail_of_a_bare_site() {
    let state = app(vec![site("x", "x.example.com", SiteStatus::Syncing)], vec![], vec![]);
    let panel = site_detail(&state);
    assert_eq!(panel.title, " x.example.com ");
    assert_eq!(
        panel.body,
        "\n  Domain:      x.example.com\n  Status:      Syncing\n  Environment: production\n  Tags:        \n\n  Last Sync:   Never\n  Config Hash: N/A\n\n  Response:    N/A\n  SSL Expires: N/A\n\n  [s] Sync  [c] Config Diff  [b] Back\n"
    );
}

#[test]
fn site_detail_without_a_selected_site() {
    let state = app(vec![], vec![], vec![]);
    let panel = site_detail(&state);
    assert_eq!(panel.title, " Site Detail ");
    assert_eq!(panel.body, "No site selected");
    let mut state = app(three_sites(), vec![], vec![]);
    state.selected_site = 7;
    assert_eq!(site_detail(&state).body, "No site selected");
}

#[test]
fn deployments_screen() {
    let state = app(vec![], vec![], vec![]);
    assert_eq!(deployments(&state), "\n\n  No pending deployments");
    let state = app(
        vec![],
        vec![],
        vec![
            deployment("deploy-1", "security-headers-update", DeploymentStatus::Pending),
            deployment("deploy-2", "tls-rotation", DeploymentStatus::InProgress),
            deployment("deploy-3", "rollback", DeploymentStatus::RolledBack),
        ],
    );
    assert_eq!(
        deployments(&state),
        "\n  deploy-1 - security-headers-update - Pending\n  deploy-2 - tls-rotation - InProgress\n  deploy-3 - rollback - RolledBack"
    );
}

#[test]
fn alerts_screen() {
    let state = app(vec![], vec![], vec![]);
    assert_eq!(alerts(&state), "\n\n  No alerts");
    let state = app(
        vec![],
        vec![
            alert(AlertSeverity::Warning, "SSL certificate expires in 15 days", false),
            alert(AlertSeverity::Critical, "Site down", true),
            alert(AlertSeverity::Info, "Deployed", false),
        ],
        vec![],
    );
    assert_eq!(
        alerts(&state),
        "\n  [ ] Warning - site-2 - SSL certificate expires in 15 days\n  [\u{2713}] Critical - site-2 - Site down\n  [ ] Info - site-2 - Deployed"
    );
}

#[test]
fn popup_margins() {
    assert_eq!(POPUP_PERCENT, 80);
    assert_eq!(margin_percent(POPUP_PERCENT), 10);
    assert_eq!(margin_percent(0), 50);
    assert_eq!(margin_percent(100), 0);
    assert_eq!(margin_percent(99), 0);
    assert_eq!(margin_percent(55), 22);
}

#[test]
fn decimal_digits() {
    assert_eq!(decimal(0), "0");
    assert_eq!(decimal(7), "7");
    assert_eq!(decimal(10), "10");
    assert_eq!(decimal(145), "145");
    assert_eq!(decimal(1_234_567_890), "1234567890");
    assert_eq!(decimal(u64::MAX), "18446744073709551615");
    for n in [9u64, 99, 100, 101, 999, 1000, 65_535, 4_294_967_295] {
        assert_eq!(decimal(n), n.to_string());
    }
}

#[test]
fn join_with_separator() {
    assert_eq!(join(&vec![], ", "), "");
    assert_eq!(join(&vec!["a".to_string()], ", "), "a");
    assert_eq!(join(&vec!["a".to_string(), "b".to_string(), "c".to_string()], ", "), "a, b, c");
    assert_eq!(join(&vec![String::new(), String::new()], "-"), "-");
}

#[test]
fn text_or_fallback() {
    assert_eq!(text_or_else(Some("x".to_string()), "y"), "x");
    assert_eq!(text_or_else(None, "y"), "y");
}

#[test]
fn counting_helpers() {
    let sites = three_sites();
    assert_eq!(count_sites_with_status(&sites, SiteStatus::Healthy), 1);
    assert_eq!(count_sites_with_status(&sites, SiteStatus::Drifted), 1);
    assert_eq!(count_sites_with_status(&sites, SiteStatus::Critical), 0);
    assert_eq!(count_sites_with_status(&vec![], SiteStatus::Healthy), 0);
    let alerts = vec![
        alert(AlertSeverity::Info, "a", false),
        alert(AlertSeverity::Info, "b", true),
    ];
    assert_eq!(count_unacknowledged_alerts(&alerts), 1);
    assert_eq!(count_unacknowledged_alerts(&vec![]), 0);
}

#[test]
fn timestamps_format_and_display() {
    let t = Timestamp { secs: 1_431_648_000, nanos: 0 };
    assert_eq!(t.format(LAST_SYNC_PATTERN).as_deref(), Some("2015-05-15 00:00"));
    assert_eq!(t.format(EXPIRY_PATTERN).as_deref(), Some("2015-05-15"));
    assert_eq!(t.format("%d/%m/%Y %H:%M").as_deref(), Some("15/05/2015 00:00"));
    assert_eq!(t.display().as_deref(), Some("2015-05-15 00:00:00 UTC"));
    let later = Timestamp { secs: 1_643_723_400, nanos: 123_456_789 };
    assert_eq!(later.format(LAST_SYNC_PATTERN).as_deref(), Some("2022-02-01 13:50"));
    assert_eq!(later.display().as_deref(), Some("2022-02-01 13:50:00.123456789 UTC"));
    let before_epoch = Timestamp { secs: -1, nanos: 0 };
    assert_eq!(before_epoch.format(LAST_SYNC_PATTERN).as_deref(), Some("1969-12-31 23:59"));
}

#[test]
fn timestamps_outside_the_calendar_have_no_text() {
    assert_eq!(Timestamp { secs: i64::MAX, nanos: 0 }.format(EXPIRY_PATTERN), None);
    assert_eq!(Timestamp { secs: i64::MIN, nanos: 0 }.display(), None);
    assert_eq!(Timestamp { secs: 0, nanos: 2_000_000_000 }.display(), None);
}

#[test]
fn timestamps_with_a_bad_pattern_have_no_text() {
    let t = Timestamp { secs: 1_431_648_000, nanos: 0 };
    assert_eq!(t.format("%Q"), None);
}

#[test]
fn timestamps_shift_and_saturate() {
    let t = Timestamp { secs: 1_000, nanos: 5 };
    assert_eq!(t.plus_secs(60), Timestamp { secs: 1_060, nanos: 5 });
    assert_eq!(t.plus_secs(-2 * SECS_PER_HOUR), Timestamp { secs: -6_200, nanos: 5 });
    assert_eq!(t.plus_secs(SECS_PER_DAY), Timestamp { secs: 87_400, nanos: 5 });
    assert_eq!(t.plus_secs(0), t);
    assert_eq!(t.plus_secs(i64::MAX), Timestamp { secs: i64::MAX, nanos: 5 });
    let early = Timestamp { secs: -1_000, nanos: 0 };
    assert_eq!(early.plus_secs(i64::MIN), Timestamp { secs: i64::MIN, nanos: 0 });
    assert_eq!(SECS_PER_HOUR, 3_600);
    assert_eq!(SECS_PER_DAY, 86_400);
}
