//! What each screen shows, as text. Where the text goes on the terminal is
//! up to whoever draws it.

use vstd::prelude::*;
use crate::app::{App, AppView};
use crate::model::{
    count_unacknowledged, count_with_status, site_views, AlertView, DeploymentView, Site,
    SiteStatus, SiteView,
};
use crate::screen;
use crate::text::{decimal, decimal_text, join, joined, text_or, texts};
use crate::time::{displayed_utc, formatted_utc, Timestamp};

verus! {

/// How many sites the dashboard lists at most as needing attention.
pub const ATTENTION_LIMIT: usize = 10;

/// The pattern for the time of a site's last sync in the list of sites.
pub const LAST_SYNC_PATTERN: &'static str = "%Y-%m-%d %H:%M";

/// The pattern for the day a site's certificate expires.
pub const EXPIRY_PATTERN: &'static str = "%Y-%m-%d";

/// The titles of the tabs in the header, from left to right.
pub open spec fn tab_titles_text() -> Seq<Seq<char>> {
    seq!["Dashboard"@, "Sites"@, "Deployments"@, "Alerts"@, "Logs"@, "Help"@]
}

/// The position of the tab that is lit while `view` is showing. The list of
/// sites and a site's detail share the tab of the sites, and so does the
/// screen of the secrets.
pub open spec fn spec_tab_index(view: screen::View) -> nat {
    match view {
        screen::View::Dashboard => 0,
        screen::View::SiteList | screen::View::SiteDetail | screen::View::Secrets => 1,
        screen::View::Deployments => 2,
        screen::View::Alerts => 3,
        screen::View::Logs => 4,
        screen::View::Help => 5,
    }
}

/// The titles of the tabs in the header, from left to right.
pub fn tab_titles() -> (titles: Vec<&'static str>)
    ensures
        titles@.map_values(|t: &'static str| t@) == tab_titles_text(),
{
    let mut titles: Vec<&'static str> = Vec::new();
    titles.push("Dashboard");
    titles.push("Sites");
    titles.push("Deployments");
    titles.push("Alerts");
    titles.push("Logs");
    titles.push("Help");
    assert(titles@.map_values(|t: &'static str| t@) =~= tab_titles_text());
    titles
}

/// The position of the tab that is lit while `view` is showing.
pub fn tab_index(view: screen::View) -> (index: usize)
    ensures
        index == spec_tab_index(view),
        index < tab_titles_text().len(),
{
    match view {
        screen::View::Dashboard => 0,
        screen::View::SiteList | screen::View::SiteDetail | screen::View::Secrets => 1,
        screen::View::Deployments => 2,
        screen::View::Alerts => 3,
        screen::View::Logs => 4,
        screen::View::Help => 5,
    }
}

/// The status bar: the status message between two blanks, or `Ready` when
/// there is no message.
pub open spec fn status_bar_text(s: AppView) -> Seq<char> {
    " "@ + text_or(s.status_message, "Ready"@) + " "@
}

/// The status bar.
pub fn status_bar(app: &App) -> (text: String)
    ensures
        text@ == status_bar_text(app@),
{
    let mut text = " ".to_owned();
    match &app.status_message {
        Some(message) => text.append(message.as_str()),
        None => text.append("Ready"),
    }
    text.append(" ");
    text
}

/// The overview box of the dashboard: how many sites there are, how many of
/// them are healthy, in a warning state and critical, how many deployments
/// are pending and how many alerts are unacknowledged.
pub open spec fn overview_text(s: AppView) -> Seq<char> {
    "\n  Sites:  "@ + decimal_text(s.sites.len()) + " total\n  \x1b[32m\u{25cf}\x1b[0m Healthy: "@
        + decimal_text(count_with_status(s.sites, SiteStatus::Healthy))
        + "   \x1b[33m\u{25cf}\x1b[0m Warning: "@ + decimal_text(
        count_with_status(s.sites, SiteStatus::Warning),
    ) + "   \x1b[31m\u{25cf}\x1b[0m Critical: "@ + decimal_text(
        count_with_status(s.sites, SiteStatus::Critical),
    ) + "\n\n  Pending: "@ + decimal_text(s.pending_deployments.len())
        + " deployments   Alerts: "@ + decimal_text(count_unacknowledged(s.alerts))
}

/// The overview box of the dashboard.
pub fn overview(app: &App) -> (text: String)
    ensures
        text@ == overview_text(app@),
{
    let mut text = "\n  Sites:  ".to_owned();
    text.append(decimal(app.sites.len() as u64).as_str());
    text.append(" total\n  \x1b[32m\u{25cf}\x1b[0m Healthy: ");
    text.append(decimal(app.healthy_sites() as u64).as_str());
    text.append("   \x1b[33m\u{25cf}\x1b[0m Warning: ");
    text.append(decimal(app.warning_sites() as u64).as_str());
    text.append("   \x1b[31m\u{25cf}\x1b[0m Critical: ");
    text.append(decimal(app.critical_sites() as u64).as_str());
    text.append("\n\n  Pending: ");
    text.append(decimal(app.pending_deployments.len() as u64).as_str());
    text.append(" deployments   Alerts: ");
    text.append(decimal(app.unacknowledged_alerts() as u64).as_str());
    text
}

/// The test "is not healthy" on a site.
pub open spec fn is_unhealthy() -> spec_fn(SiteView) -> bool {
    |s: SiteView| s.status != SiteStatus::Healthy
}

/// The first `limit` items of `items`, or all of them if there are fewer.
pub open spec fn at_most<T>(items: Seq<T>, limit: nat) -> Seq<T> {
    if items.len() <= limit {
        items
    } else {
        items.take(limit as int)
    }
}

/// The sites that need attention: those that are not healthy, in the order
/// of the list, and no more than [`ATTENTION_LIMIT`] of them.
pub open spec fn needs_attention(sites: Seq<SiteView>) -> Seq<SiteView> {
    at_most(sites.filter(is_unhealthy()), ATTENTION_LIMIT as nat)
}

/// The sites behind a list of references, as mathematical values.
pub open spec fn ref_views(sites: Seq<&Site>) -> Seq<SiteView> {
    sites.map_values(|s: &Site| s@)
}

/// The sites that need attention.
pub fn attention_sites<'a>(sites: &'a Vec<Site>) -> (listed: Vec<&'a Site>)
    ensures
        ref_views(listed@) == needs_attention(site_views(sites@)),
{
    let mut listed: Vec<&'a Site> = Vec::new();
    let mut i: usize = 0;
    proof {
        assert(site_views(sites@.take(0)) =~= Seq::empty());
        Seq::<SiteView>::empty().lemma_filter_len(is_unhealthy());
        assert(ref_views(listed@) =~= needs_attention(site_views(sites@.take(0))));
    }
    while i < sites.len()
        invariant
            i <= sites.len(),
            ref_views(listed@) == needs_attention(site_views(sites@.take(i as int))),
        decreases sites.len() - i,
    {
        proof {
            let seen = site_views(sites@.take(i as int));
            let site = sites@[i as int]@;
            assert(site_views(sites@.take(i + 1)) =~= seen.push(site));
            seen.lemma_filter_push(site, is_unhealthy());
            let found = seen.filter(is_unhealthy());
            if is_unhealthy()(site) {
                if found.len() < ATTENTION_LIMIT {
                    assert(ref_views(listed@.push(&sites@[i as int])) =~= found.push(site));
                } else {
                    assert(found.push(site).take(ATTENTION_LIMIT as int) =~= at_most(
                        found,
                        ATTENTION_LIMIT as nat,
                    ));
                }
            }
        }
        if sites[i].status != SiteStatus::Healthy && listed.len() < ATTENTION_LIMIT {
            listed.push(&sites[i]);
        }
        i += 1;
    }
    assert(sites@.take(sites.len() as int) =~= sites@);
    listed
}

/// The line of the attention box for one site: its domain and its status.
pub open spec fn attention_line(site: SiteView) -> Seq<char> {
    "  "@ + site.domain + " - "@ + site.status.spec_name()
}

/// The lines of the attention box, one for each site of `listed`.
pub open spec fn attention_lines(listed: Seq<SiteView>) -> Seq<Seq<char>> {
    listed.map_values(|s: SiteView| attention_line(s))
}

/// The attention box of the dashboard: a line for every site that needs
/// attention, or the word that all are healthy.
pub open spec fn attention_text(sites: Seq<SiteView>) -> Seq<char> {
    let listed = needs_attention(sites);
    "\n"@ + if listed.len() == 0 {
        "\n  All sites healthy!"@
    } else {
        joined(attention_lines(listed), "\n"@)
    }
}

/// The attention box of the dashboard.
pub fn attention(sites: &Vec<Site>) -> (text: String)
    ensures
        text@ == attention_text(site_views(sites@)),
{
    let listed = attention_sites(sites);
    let mut text = "\n".to_owned();
    if listed.len() == 0 {
        text.append("\n  All sites healthy!");
    } else {
        let mut lines: Vec<String> = Vec::new();
        let mut i: usize = 0;
        assert(attention_lines(ref_views(listed@).take(0)) =~= texts(lines@));
        while i < listed.len()
            invariant
                i <= listed.len(),
                texts(lines@) == attention_lines(ref_views(listed@).take(i as int)),
            decreases listed.len() - i,
        {
            let mut line = "  ".to_owned();
            line.append(listed[i].domain.as_str());
            line.append(" - ");
            line.append(listed[i].status.name());
            proof {
                let site = listed@[i as int]@;
                let before = ref_views(listed@).take(i as int);
                assert(line@ =~= attention_line(site));
                assert(ref_views(listed@).take(i + 1) =~= before.push(site));
                assert(attention_lines(before.push(site)) =~= attention_lines(before).push(
                    attention_line(site),
                ));
                assert(texts(lines@.push(line)) =~= texts(lines@).push(line@));
            }
            lines.push(line);
            i += 1;
        }
        assert(ref_views(listed@).take(listed.len() as int) =~= ref_views(listed@));
        text.append(join(&lines, "\n").as_str());
    }
    text
}

/// A colour of the terminal's palette.
#[derive(Debug, Clone, Copy, PartialEq, Eq, Structural)]
pub enum Color {
    Green,
    Yellow,
    Red,
    Magenta,
    Cyan,
    Gray,
}

/// The colour that a status is shown in.
pub open spec fn spec_status_color(status: SiteStatus) -> Color {
    match status {
        SiteStatus::Healthy => Color::Green,
        SiteStatus::Warning => Color::Yellow,
        SiteStatus::Critical => Color::Red,
        SiteStatus::Drifted => Color::Magenta,
        SiteStatus::Syncing => Color::Cyan,
        SiteStatus::Unknown => Color::Gray,
    }
}

/// The sign that stands for a status in the list of sites.
pub open spec fn status_icon_text(status: SiteStatus) -> Seq<char> {
    match status {
        SiteStatus::Healthy => "\u{25cf}"@,
        SiteStatus::Warning => "\u{25d0}"@,
        SiteStatus::Critical => "\u{25cb}"@,
        SiteStatus::Drifted => "\u{25d1}"@,
        SiteStatus::Syncing => "\u{25cc}"@,
        SiteStatus::Unknown => "?"@,
    }
}

/// The colour that a status is shown in.
#[verifier::when_used_as_spec(spec_status_color)]
pub fn status_color(status: SiteStatus) -> (color: Color)
    ensures
        color == spec_status_color(status),
{
    match status {
        SiteStatus::Healthy => Color::Green,
        SiteStatus::Warning => Color::Yellow,
        SiteStatus::Critical => Color::Red,
        SiteStatus::Drifted => Color::Magenta,
        SiteStatus::Syncing => Color::Cyan,
        SiteStatus::Unknown => Color::Gray,
    }
}

/// The sign that stands for a status in the list of sites.
pub fn status_icon(status: SiteStatus) -> (icon: &'static str)
    ensures
        icon@ == status_icon_text(status),
{
    match status {
        SiteStatus::Healthy => "\u{25cf}",
        SiteStatus::Warning => "\u{25d0}",
        SiteStatus::Critical => "\u{25cb}",
        SiteStatus::Drifted => "\u{25d1}",
        SiteStatus::Syncing => "\u{25cc}",
        SiteStatus::Unknown => "?",
    }
}

/// One line of the list of sites.
#[derive(Debug, Clone)]
pub struct SiteRow {
    pub color: Color,
    pub icon: &'static str,
    pub domain: String,
    pub environment: String,
    pub last_sync: String,
    pub response: String,
    /// Whether this is the line of the selected site.
    pub selected: bool,
}

/// A line of the list of sites as a mathematical value.
pub struct SiteRowView {
    pub color: Color,
    pub icon: Seq<char>,
    pub domain: Seq<char>,
    pub environment: Seq<char>,
    pub last_sync: Seq<char>,
    pub response: Seq<char>,
    pub selected: bool,
}

impl View for SiteRow {
    type V = SiteRowView;

    open spec fn view(&self) -> SiteRowView {
        SiteRowView {
            color: self.color,
            icon: self.icon@,
            domain: self.domain@,
            environment: self.environment@,
            last_sync: self.last_sync@,
            response: self.response@,
            selected: self.selected,
        }
    }
}

/// The lines of a list as mathematical values, in order.
pub open spec fn row_views(rows: Seq<SiteRow>) -> Seq<SiteRowView> {
    rows.map_values(|r: SiteRow| r@)
}

/// An instant written after `pattern`: `absent` where there is no instant,
/// and `Invalid` where there is one that the calendar cannot express.
pub open spec fn instant_text(
    instant: Option<Timestamp>,
    pattern: Seq<char>,
    absent: Seq<char>,
) -> Seq<char> {
    match instant {
        Some(t) => text_or(formatted_utc(t.secs as int, t.nanos as int, pattern), "Invalid"@),
        None => absent,
    }
}

/// An instant written in full: `Never` where there is no instant, and
/// `Invalid` where there is one that the calendar cannot express.
pub open spec fn full_instant_text(instant: Option<Timestamp>) -> Seq<char> {
    match instant {
        Some(t) => text_or(displayed_utc(t.secs as int, t.nanos as int), "Invalid"@),
        None => "Never"@,
    }
}

/// A response time in milliseconds, or `absent` where none was measured.
pub open spec fn response_text(millis: Option<u32>, absent: Seq<char>) -> Seq<char> {
    match millis {
        Some(ms) => decimal_text(ms as nat) + "ms"@,
        None => absent,
    }
}

/// The line of the list of sites for `site`.
pub open spec fn row_of(site: SiteView, selected: bool) -> SiteRowView {
    SiteRowView {
        color: spec_status_color(site.status),
        icon: status_icon_text(site.status),
        domain: site.domain,
        environment: site.environment,
        last_sync: instant_text(site.last_sync, LAST_SYNC_PATTERN@, "Never"@),
        response: response_text(site.response_time_ms, "-"@),
        selected,
    }
}

/// The lines of the list of sites: one for each site, in order, and the one
/// of the selected site marked.
pub open spec fn rows_of(s: AppView) -> Seq<SiteRowView> {
    Seq::new(s.sites.len(), |i: int| row_of(s.sites[i], i == s.selected_site))
}

/// An instant written after `pattern`.
fn instant_cell(instant: Option<Timestamp>, pattern: &str, absent: &str) -> (text: String)
    ensures
        text@ == instant_text(instant, pattern@, absent@),
{
    match instant {
        Some(t) => match t.format(pattern) {
            Some(text) => text,
            None => "Invalid".to_owned(),
        },
        None => absent.to_owned(),
    }
}

/// An instant written in full.
fn full_instant_cell(instant: Option<Timestamp>) -> (text: String)
    ensures
        text@ == full_instant_text(instant),
{
    match instant {
        Some(t) => match t.display() {
            Some(text) => text,
            None => "Invalid".to_owned(),
        },
        None => "Never".to_owned(),
    }
}

/// A response time in milliseconds.
fn response_cell(millis: Option<u32>, absent: &str) -> (text: String)
    ensures
        text@ == response_text(millis, absent@),
{
    match millis {
        Some(ms) => {
            let mut text = decimal(ms as u64);
            text.append("ms");
            text
        },
        None => absent.to_owned(),
    }
}

/// The line of the list of sites for `site`.
pub fn site_row(site: &Site, selected: bool) -> (row: SiteRow)
    ensures
        row@ == row_of(site@, selected),
{
    SiteRow {
        color: status_color(site.status),
        icon: status_icon(site.status),
        domain: site.domain.clone(),
        environment: site.environment.clone(),
        last_sync: instant_cell(site.last_sync, LAST_SYNC_PATTERN, "Never"),
        response: response_cell(site.response_time_ms, "-"),
        selected,
    }
}

/// The lines of the list of sites.
pub fn site_rows(app: &App) -> (rows: Vec<SiteRow>)
    ensures
        row_views(rows@) == rows_of(app@),
{
    let mut rows: Vec<SiteRow> = Vec::new();
    let mut i: usize = 0;
    while i < app.sites.len()
        invariant
            i <= app.sites.len(),
            rows.len() == i,
            forall|j: int| 0 <= j < i ==> (#[trigger] rows@[j])@ == rows_of(app@)[j],
        decreases app.sites.len() - i,
    {
        let row = site_row(&app.sites[i], i == app.selected_site);
        rows.push(row);
        i += 1;
    }
    assert(row_views(rows@) =~= rows_of(app@));
    rows
}

/// A box with a title on its border and text inside.
#[derive(Debug, Clone)]
pub struct Panel {
    pub title: String,
    pub body: String,
}

/// A box as a mathematical value.
pub struct PanelView {
    pub title: Seq<char>,
    pub body: Seq<char>,
}

impl View for Panel {
    type V = PanelView;

    open spec fn view(&self) -> PanelView {
        PanelView { title: self.title@, body: self.body@ }
    }
}

/// What the detail screen says of `site`.
pub open spec fn detail_body_text(site: SiteView) -> Seq<char> {
    "\n  Domain:      "@ + site.domain + "\n  Status:      "@ + site.status.spec_name()
        + "\n  Environment: "@ + site.environment + "\n  Tags:        "@ + joined(site.tags, ", "@)
        + "\n\n  Last Sync:   "@ + full_instant_text(site.last_sync) + "\n  Config Hash: "@
        + text_or(site.config_hash, "N/A"@) + "\n\n  Response:    "@ + response_text(
        site.response_time_ms,
        "N/A"@,
    ) + "\n  SSL Expires: "@ + instant_text(site.ssl_expires, EXPIRY_PATTERN@, "N/A"@)
        + "\n\n  [s] Sync  [c] Config Diff  [b] Back\n"@
}

/// The detail screen: the selected site under its domain as the title, or a
/// note that no site is selected.
pub open spec fn detail_panel(s: AppView) -> PanelView {
    match s.selected() {
        Some(site) => PanelView {
            title: " "@ + site.domain + " "@,
            body: detail_body_text(site),
        },
        None => PanelView { title: " Site Detail "@, body: "No site selected"@ },
    }
}

/// What the detail screen says of `site`.
fn detail_body(site: &Site) -> (text: String)
    ensures
        text@ == detail_body_text(site@),
{
    let mut text = "\n  Domain:      ".to_owned();
    text.append(site.domain.as_str());
    text.append("\n  Status:      ");
    text.append(site.status.name());
    text.append("\n  Environment: ");
    text.append(site.environment.as_str());
    text.append("\n  Tags:        ");
    text.append(join(&site.tags, ", ").as_str());
    text.append("\n\n  Last Sync:   ");
    text.append(full_instant_cell(site.last_sync).as_str());
    text.append("\n  Config Hash: ");
    match &site.config_hash {
        Some(hash) => text.append(hash.as_str()),
        None => text.append("N/A"),
    }
    text.append("\n\n  Response:    ");
    text.append(response_cell(site.response_time_ms, "N/A").as_str());
    text.append("\n  SSL Expires: ");
    text.append(instant_cell(site.ssl_expires, EXPIRY_PATTERN, "N/A").as_str());
    text.append("\n\n  [s] Sync  [c] Config Diff  [b] Back\n");
    text
}

/// The detail screen.
pub fn site_detail(app: &App) -> (panel: Panel)
    ensures
        panel@ == detail_panel(app@),
{
    if app.selected_site < app.sites.len() {
        let site = &app.sites[app.selected_site];
        let mut title = " ".to_owned();
        title.append(site.domain.as_str());
        title.append(" ");
        Panel { title, body: detail_body(site) }
    } else {
        Panel { title: " Site Detail ".to_owned(), body: "No site selected".to_owned() }
    }
}

/// The line of the list of deployments for `deployment`: its identifier, the
/// kind of change and its status.
pub open spec fn deployment_line(deployment: DeploymentView) -> Seq<char> {
    "  "@ + deployment.id + " - "@ + deployment.change_type + " - "@
        + deployment.status.spec_name()
}

/// The lines of the list of deployments.
pub open spec fn deployment_lines(deployments: Seq<DeploymentView>) -> Seq<Seq<char>> {
    deployments.map_values(|d: DeploymentView| deployment_line(d))
}

/// The screen of the pending deployments: a line for each, or a note that
/// there is none.
pub open spec fn deployments_text(s: AppView) -> Seq<char> {
    "\n"@ + if s.pending_deployments.len() == 0 {
        "\n  No pending deployments"@
    } else {
        joined(deployment_lines(s.pending_deployments), "\n"@)
    }
}

/// The screen of the pending deployments.
pub fn deployments(app: &App) -> (text: String)
    ensures
        text@ == deployments_text(app@),
{
    let mut text = "\n".to_owned();
    if app.pending_deployments.len() == 0 {
        text.append("\n  No pending deployments");
    } else {
        let mut lines: Vec<String> = Vec::new();
        let mut i: usize = 0;
        assert(deployment_lines(app@.pending_deployments.take(0)) =~= texts(lines@));
        while i < app.pending_deployments.len()
            invariant
                i <= app.pending_deployments.len(),
                texts(lines@) == deployment_lines(app@.pending_deployments.take(i as int)),
            decreases app.pending_deployments.len() - i,
        {
            let deployment = &app.pending_deployments[i];
            let mut line = "  ".to_owned();
            line.append(deployment.id.as_str());
            line.append(" - ");
            line.append(deployment.change_type.as_str());
            line.append(" - ");
            line.append(deployment.status.name());
            proof {
                let shown = deployment@;
                let before = app@.pending_deployments.take(i as int);
                assert(line@ =~= deployment_line(shown));
                assert(app@.pending_deployments.take(i + 1) =~= before.push(shown));
                assert(deployment_lines(before.push(shown)) =~= deployment_lines(before).push(
                    deployment_line(shown),
                ));
                assert(texts(lines@.push(line)) =~= texts(lines@).push(line@));
            }
            lines.push(line);
            i += 1;
        }
        assert(app@.pending_deployments.take(app.pending_deployments.len() as int)
            =~= app@.pending_deployments);
        text.append(join(&lines, "\n").as_str());
    }
    text
}

/// The line of the list of alerts for `alert`: a tick if it is acknowledged,
/// its severity, the site it is about and its message.
pub open spec fn alert_line(alert: AlertView) -> Seq<char> {
    "  ["@ + (if alert.acknowledged {
        "\u{2713}"@
    } else {
        " "@
    }) + "] "@ + alert.severity.spec_name() + " - "@ + alert.site_id + " - "@ + alert.message
}

/// The lines of the list of alerts.
pub open spec fn alert_lines(alerts: Seq<AlertView>) -> Seq<Seq<char>> {
    alerts.map_values(|a: AlertView| alert_line(a))
}

/// The screen of the alerts: a line for each, or a note that there is none.
pub open spec fn alerts_text(s: AppView) -> Seq<char> {
    "\n"@ + if s.alerts.len() == 0 {
        "\n  No alerts"@
    } else {
        joined(alert_lines(s.alerts), "\n"@)
    }
}

/// The screen of the alerts.
pub fn alerts(app: &App) -> (text: String)
    ensures
        text@ == alerts_text(app@),
{
    let mut text = "\n".to_owned();
    if app.alerts.len() == 0 {
        text.append("\n  No alerts");
    } else {
        let mut lines: Vec<String> = Vec::new();
        let mut i: usize = 0;
        assert(alert_lines(app@.alerts.take(0)) =~= texts(lines@));
        while i < app.alerts.len()
            invariant
                i <= app.alerts.len(),
                texts(lines@) == alert_lines(app@.alerts.take(i as int)),
            decreases app.alerts.len() - i,
        {
            let alert = &app.alerts[i];
            let mut line = "  [".to_owned();
            if alert.acknowledged {
                line.append("\u{2713}");
            } else {
                line.append(" ");
            }
            line.append("] ");
            line.append(alert.severity.name());
            line.append(" - ");
            line.append(alert.site_id.as_str());
            line.append(" - ");
            line.append(alert.message.as_str());
            proof {
                let shown = alert@;
                let before = app@.alerts.take(i as int);
                assert(line@ =~= alert_line(shown));
                assert(app@.alerts.take(i + 1) =~= before.push(shown));
                assert(alert_lines(before.push(shown)) =~= alert_lines(before).push(
                    alert_line(shown),
                ));
                assert(texts(lines@.push(line)) =~= texts(lines@).push(line@));
            }
            lines.push(line);
            i += 1;
        }
        assert(app@.alerts.take(app.alerts.len() as int) =~= app@.alerts);
        text.append(join(&lines, "\n").as_str());
    }
    text
}

/// How much of the screen the popup takes, each way, in percent.
pub const POPUP_PERCENT: u16 = 80;

/// The share of the screen, in percent, that is left free on either side of
/// a box that takes `percent` of it and sits in the middle.
pub fn margin_percent(percent: u16) -> (margin: u16)
    requires
        percent <= 100,
    ensures
        margin == (100 - percent) / 2,
        margin + percent + margin <= 100,
{
    (100 - percent) / 2
}

} // verus!
