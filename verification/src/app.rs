//! Application state and the transition engine.
//!
//! The engine never talks to the control plane itself. A step takes the
//! state and an event and gives the next state and an [`Effect`]: what the
//! surrounding loop has to do before it hands the engine the next event or
//! the outcome of the call it was asked to make.

use vstd::prelude::*;
use crate::api::{ApiClient, Failure};
use crate::events::Event;
use crate::keys::{KeyCode, KeyEvent, MouseEvent};
use crate::model::{
    alert_views, count_sites_with_status, count_unacknowledged, count_unacknowledged_alerts,
    count_with_status, deployment_views, site_views, Alert, AlertView, Deployment,
    DeploymentView, Site, SiteStatus, SiteView,
};
use crate::screen;
use crate::text::opt_text;

verus! {

/// Something the user asked for on a screen whose actions the control plane
/// does not serve yet.
#[derive(Debug, Clone, Copy, PartialEq, Eq, Structural)]
pub enum Intent {
    ApproveDeployment,
    RejectDeployment,
    AcknowledgeAlert,
    DismissAlert,
}

/// What the loop around the engine has to do after a step.
#[derive(Debug, Clone)]
pub enum Effect {
    /// Nothing: draw the state and wait for the next event.
    Continue,
    /// Leave the loop.
    Quit,
    /// Ask the control plane for the sites and hand the outcome to
    /// [`App::sites_listed`].
    ListSites,
    /// Ask for the alerts and hand the outcome to [`App::alerts_listed`].
    ListAlerts,
    /// Ask for the pending deployments and hand the outcome to
    /// [`App::deployments_listed`].
    ListPendingDeployments,
    /// Ask for a sync of the site `site_id` and hand the outcome, with
    /// `domain` and `confirm` as they are here, to [`App::sync_finished`].
    SyncSite { site_id: String, domain: String, confirm: bool },
    /// Ask for the configuration diff of the site `site_id` and hand the
    /// outcome to [`App::config_diff_fetched`].
    GetConfigDiff { site_id: String },
    /// The user asked for this; nothing serves it yet.
    Intent(Intent),
}

/// An effect as a mathematical value.
pub enum EffectView {
    Continue,
    Quit,
    ListSites,
    ListAlerts,
    ListPendingDeployments,
    SyncSite { site_id: Seq<char>, domain: Seq<char>, confirm: bool },
    GetConfigDiff { site_id: Seq<char> },
    Intent(Intent),
}

impl View for Effect {
    type V = EffectView;

    open spec fn view(&self) -> EffectView {
        match *self {
            Effect::Continue => EffectView::Continue,
            Effect::Quit => EffectView::Quit,
            Effect::ListSites => EffectView::ListSites,
            Effect::ListAlerts => EffectView::ListAlerts,
            Effect::ListPendingDeployments => EffectView::ListPendingDeployments,
            Effect::SyncSite { site_id, domain, confirm } => EffectView::SyncSite {
                site_id: site_id@,
                domain: domain@,
                confirm,
            },
            Effect::GetConfigDiff { site_id } => EffectView::GetConfigDiff { site_id: site_id@ },
            Effect::Intent(intent) => EffectView::Intent(intent),
        }
    }
}

/// Application state.
pub struct App {
    pub running: bool,
    pub view: screen::View,
    pub sites: Vec<Site>,
    pub selected_site: usize,
    pub alerts: Vec<Alert>,
    pub pending_deployments: Vec<Deployment>,
    pub api_client: ApiClient,
    pub status_message: Option<String>,
    pub show_popup: bool,
    pub popup_content: String,
    pub scroll_offset: usize,
}

/// The application state as a mathematical value.
pub struct AppView {
    pub running: bool,
    pub view: screen::View,
    pub sites: Seq<SiteView>,
    pub selected_site: nat,
    pub alerts: Seq<AlertView>,
    pub pending_deployments: Seq<DeploymentView>,
    pub base_url: Seq<char>,
    pub status_message: Option<Seq<char>>,
    pub show_popup: bool,
    pub popup_content: Seq<char>,
    pub scroll_offset: nat,
}

impl View for App {
    type V = AppView;

    open spec fn view(&self) -> AppView {
        AppView {
            running: self.running,
            view: self.view,
            sites: site_views(self.sites@),
            selected_site: self.selected_site as nat,
            alerts: alert_views(self.alerts@),
            pending_deployments: deployment_views(self.pending_deployments@),
            base_url: self.api_client.spec_base_url(),
            status_message: opt_text(self.status_message),
            show_popup: self.show_popup,
            popup_content: self.popup_content@,
            scroll_offset: self.scroll_offset as nat,
        }
    }
}

/// What a request for a list gave, as a mathematical value: the items, or
/// the reason for the failure.
pub open spec fn sites_outcome(outcome: Result<Vec<Site>, Failure>) -> Result<
    Seq<SiteView>,
    Seq<char>,
> {
    match outcome {
        Ok(sites) => Ok(site_views(sites@)),
        Err(failure) => Err(failure.reason@),
    }
}

/// See [`sites_outcome`].
pub open spec fn alerts_outcome(outcome: Result<Vec<Alert>, Failure>) -> Result<
    Seq<AlertView>,
    Seq<char>,
> {
    match outcome {
        Ok(alerts) => Ok(alert_views(alerts@)),
        Err(failure) => Err(failure.reason@),
    }
}

/// See [`sites_outcome`].
pub open spec fn deployments_outcome(outcome: Result<Vec<Deployment>, Failure>) -> Result<
    Seq<DeploymentView>,
    Seq<char>,
> {
    match outcome {
        Ok(deployments) => Ok(deployment_views(deployments@)),
        Err(failure) => Err(failure.reason@),
    }
}

/// What a sync request gave, as a mathematical value.
pub open spec fn sync_outcome(outcome: Result<(), Failure>) -> Result<(), Seq<char>> {
    match outcome {
        Ok(_) => Ok(()),
        Err(failure) => Err(failure.reason@),
    }
}

/// What a request for a configuration diff gave, as a mathematical value.
pub open spec fn diff_outcome(outcome: Result<String, Failure>) -> Result<Seq<char>, Seq<char>> {
    match outcome {
        Ok(diff) => Ok(diff@),
        Err(failure) => Err(failure.reason@),
    }
}

/// The items of a list that was asked for at startup; none if asking failed.
pub open spec fn loaded_or_empty<T>(outcome: Result<Seq<T>, Seq<char>>) -> Seq<T> {
    match outcome {
        Ok(items) => items,
        Err(_) => Seq::empty(),
    }
}

/// Status line while a refresh is under way.
pub open spec fn refreshing_text() -> Seq<char> {
    "Refreshing..."@
}

/// Status line after a refresh that went through.
pub open spec fn refreshed_text() -> Seq<char> {
    "Data refreshed"@
}

/// Status line after startup.
pub open spec fn connected_text() -> Seq<char> {
    "Connected to control plane"@
}

/// Status line while a sync of the site at `domain` is under way.
pub open spec fn syncing_text(domain: Seq<char>) -> Seq<char> {
    "Syncing "@ + domain + "..."@
}

/// Status line after the control plane accepted a sync of the site at `domain`.
pub open spec fn sync_initiated_text(domain: Seq<char>) -> Seq<char> {
    "Sync initiated for "@ + domain
}

/// Status line after a request failed for `reason`.
pub open spec fn error_text(reason: Seq<char>) -> Seq<char> {
    "Error: "@ + reason
}

/// The selection `selected` brought into a list of `len` sites: unchanged
/// when it names one of them, else the last of them, or 0 when there is none.
pub open spec fn clamp_selection(selected: nat, len: nat) -> nat {
    if len == 0 {
        0
    } else if selected >= len {
        (len - 1) as nat
    } else {
        selected
    }
}

/// The screen that a shortcut of the dashboard leads to.
pub open spec fn dashboard_target(code: KeyCode) -> Option<screen::View> {
    if code == KeyCode::Char('s') || code == KeyCode::Char('1') {
        Some(screen::View::SiteList)
    } else if code == KeyCode::Char('d') || code == KeyCode::Char('2') {
        Some(screen::View::Deployments)
    } else if code == KeyCode::Char('a') || code == KeyCode::Char('3') {
        Some(screen::View::Alerts)
    } else if code == KeyCode::Char('l') || code == KeyCode::Char('4') {
        Some(screen::View::Logs)
    } else if code == KeyCode::Char('?') || code == KeyCode::F(1) {
        Some(screen::View::Help)
    } else {
        None
    }
}

impl AppView {
    /// The selection names a site, or is 0 where there is none to name.
    pub open spec fn well_formed(self) -> bool {
        if self.sites.len() == 0 {
            self.selected_site == 0
        } else {
            self.selected_site < self.sites.len()
        }
    }

    /// The site that the selection names, if it names one.
    pub open spec fn selected(self) -> Option<SiteView> {
        if self.selected_site < self.sites.len() {
            Some(self.sites[self.selected_site as int])
        } else {
            None
        }
    }

    /// This state with `text` on the status line.
    pub open spec fn with_status(self, text: Seq<char>) -> AppView {
        AppView { status_message: Some(text), ..self }
    }

    /// This state showing `view`.
    pub open spec fn showing(self, view: screen::View) -> AppView {
        AppView { view, ..self }
    }

    /// The state right after startup, with what the three first requests gave.
    pub open spec fn initial(
        base_url: Seq<char>,
        sites: Result<Seq<SiteView>, Seq<char>>,
        alerts: Result<Seq<AlertView>, Seq<char>>,
        deployments: Result<Seq<DeploymentView>, Seq<char>>,
    ) -> AppView {
        AppView {
            running: true,
            view: screen::View::Dashboard,
            sites: loaded_or_empty(sites),
            selected_site: 0,
            alerts: loaded_or_empty(alerts),
            pending_deployments: loaded_or_empty(deployments),
            base_url,
            status_message: Some(connected_text()),
            show_popup: false,
            popup_content: Seq::empty(),
            scroll_offset: 0,
        }
    }

    /// A sync of the selected site: the status line announces it and the
    /// request goes out. Without a selected site nothing happens.
    pub open spec fn start_sync(self, confirm: bool) -> (AppView, EffectView) {
        match self.selected() {
            Some(site) => (
                self.with_status(syncing_text(site.domain)),
                EffectView::SyncSite { site_id: site.id, domain: site.domain, confirm },
            ),
            None => (self, EffectView::Continue),
        }
    }

    /// A key on the dashboard.
    pub open spec fn dashboard_key(self, key: KeyEvent) -> (AppView, EffectView) {
        if dashboard_target(key.code) is Some {
            (self.showing(dashboard_target(key.code)->Some_0), EffectView::Continue)
        } else if key.is_char('r') {
            (self.with_status(refreshing_text()), EffectView::ListSites)
        } else {
            (self, EffectView::Continue)
        }
    }

    /// A key on the list of sites.
    pub open spec fn site_list_key(self, key: KeyEvent) -> (AppView, EffectView) {
        if key.is_up() {
            if self.selected_site > 0 {
                (
                    AppView { selected_site: (self.selected_site - 1) as nat, ..self },
                    EffectView::Continue,
                )
            } else {
                (self, EffectView::Continue)
            }
        } else if key.is_down() {
            if self.selected_site + 1 < self.sites.len() {
                (
                    AppView { selected_site: self.selected_site + 1, ..self },
                    EffectView::Continue,
                )
            } else {
                (self, EffectView::Continue)
            }
        } else if key.code == KeyCode::Enter {
            (self.showing(screen::View::SiteDetail), EffectView::Continue)
        } else if key.is_char('s') {
            self.start_sync(true)
        } else {
            (self, EffectView::Continue)
        }
    }

    /// A key on the detail screen of the selected site.
    pub open spec fn site_detail_key(self, key: KeyEvent) -> (AppView, EffectView) {
        if key.code == KeyCode::Backspace || key.is_char('b') {
            (self.showing(screen::View::SiteList), EffectView::Continue)
        } else if key.is_char('s') {
            self.start_sync(false)
        } else if key.is_char('c') {
            match self.selected() {
                Some(site) => (self, EffectView::GetConfigDiff { site_id: site.id }),
                None => (self, EffectView::Continue),
            }
        } else if key.is_up() {
            (
                AppView {
                    scroll_offset: if self.scroll_offset > 0 {
                        (self.scroll_offset - 1) as nat
                    } else {
                        0
                    },
                    ..self
                },
                EffectView::Continue,
            )
        } else if key.is_down() {
            (
                AppView {
                    scroll_offset: if self.scroll_offset < usize::MAX {
                        self.scroll_offset + 1
                    } else {
                        self.scroll_offset
                    },
                    ..self
                },
                EffectView::Continue,
            )
        } else {
            (self, EffectView::Continue)
        }
    }

    /// A key on the list of pending deployments.
    pub open spec fn deployments_key(self, key: KeyEvent) -> (AppView, EffectView) {
        if key.is_char('a') {
            (self, EffectView::Intent(Intent::ApproveDeployment))
        } else if key.is_char('r') {
            (self, EffectView::Intent(Intent::RejectDeployment))
        } else {
            (self, EffectView::Continue)
        }
    }

    /// A key on the list of alerts.
    pub open spec fn alerts_key(self, key: KeyEvent) -> (AppView, EffectView) {
        if key.is_char('a') {
            (self, EffectView::Intent(Intent::AcknowledgeAlert))
        } else if key.is_char('d') {
            (self, EffectView::Intent(Intent::DismissAlert))
        } else {
            (self, EffectView::Continue)
        }
    }

    /// A key on the help screen.
    pub open spec fn help_key(self, key: KeyEvent) -> (AppView, EffectView) {
        if key.is_char('q') {
            (self.showing(screen::View::Dashboard), EffectView::Continue)
        } else {
            (self, EffectView::Continue)
        }
    }

    /// Escape: closes the popup if one is open; else goes back to the
    /// dashboard from any other screen; else, on the dashboard, quits.
    pub open spec fn escape(self) -> (AppView, EffectView) {
        if self.show_popup {
            (AppView { show_popup: false, ..self }, EffectView::Continue)
        } else if self.view != screen::View::Dashboard {
            (self.showing(screen::View::Dashboard), EffectView::Continue)
        } else {
            (self, EffectView::Quit)
        }
    }

    /// The step that a key event causes. The quit chords and escape are
    /// looked at first, on every screen; any other key goes to the screen
    /// that is showing. A key that means nothing there changes nothing.
    pub open spec fn on_key(self, key: KeyEvent) -> (AppView, EffectView) {
        if key.is_quit_chord() {
            (self, EffectView::Quit)
        } else if key.code == KeyCode::Esc {
            self.escape()
        } else {
            match self.view {
                screen::View::Dashboard => self.dashboard_key(key),
                screen::View::SiteList => self.site_list_key(key),
                screen::View::SiteDetail => self.site_detail_key(key),
                screen::View::Deployments => self.deployments_key(key),
                screen::View::Alerts => self.alerts_key(key),
                screen::View::Help => self.help_key(key),
                screen::View::Secrets | screen::View::Logs => (self, EffectView::Continue),
            }
        }
    }

    /// The step that any event causes: only keys change anything.
    pub open spec fn on_event(self, event: Event) -> (AppView, EffectView) {
        match event {
            Event::Key(key) => self.on_key(key),
            Event::Tick | Event::Mouse(_) | Event::Resize(_, _) => (self, EffectView::Continue),
        }
    }

    /// This state after a request failed for `reason`: the status line says
    /// so and nothing else changes.
    pub open spec fn failed(self, reason: Seq<char>) -> (AppView, EffectView) {
        (self.with_status(error_text(reason)), EffectView::Continue)
    }

    /// First stage of a refresh: the new sites replace the old ones, the
    /// selection is brought into the new list, and the alerts are asked for.
    pub open spec fn on_sites(self, outcome: Result<Seq<SiteView>, Seq<char>>) -> (
        AppView,
        EffectView,
    ) {
        match outcome {
            Ok(sites) => (
                AppView {
                    sites,
                    selected_site: clamp_selection(self.selected_site, sites.len()),
                    ..self
                },
                EffectView::ListAlerts,
            ),
            Err(reason) => self.failed(reason),
        }
    }

    /// Second stage of a refresh: the new alerts replace the old ones and the
    /// pending deployments are asked for.
    pub open spec fn on_alerts(self, outcome: Result<Seq<AlertView>, Seq<char>>) -> (
        AppView,
        EffectView,
    ) {
        match outcome {
            Ok(alerts) => (AppView { alerts, ..self }, EffectView::ListPendingDeployments),
            Err(reason) => self.failed(reason),
        }
    }

    /// Last stage of a refresh: the new deployments replace the old ones and
    /// the status line reports the refresh as done.
    pub open spec fn on_deployments(self, outcome: Result<Seq<DeploymentView>, Seq<char>>) -> (
        AppView,
        EffectView,
    ) {
        match outcome {
            Ok(pending_deployments) => (
                AppView { pending_deployments, ..self }.with_status(refreshed_text()),
                EffectView::Continue,
            ),
            Err(reason) => self.failed(reason),
        }
    }

    /// The end of a sync request for the site at `domain`. No site changes:
    /// its status stays what the control plane last reported.
    pub open spec fn on_sync(self, domain: Seq<char>, confirm: bool, outcome: Result<
        (),
        Seq<char>,
    >) -> (AppView, EffectView) {
        match outcome {
            Ok(_) => if confirm {
                (self.with_status(sync_initiated_text(domain)), EffectView::Continue)
            } else {
                (self, EffectView::Continue)
            },
            Err(reason) => self.failed(reason),
        }
    }

    /// The end of a request for a configuration diff: the diff becomes the
    /// popup's content and the popup opens.
    pub open spec fn on_config_diff(self, outcome: Result<Seq<char>, Seq<char>>) -> (
        AppView,
        EffectView,
    ) {
        match outcome {
            Ok(diff) => (
                AppView { popup_content: diff, show_popup: true, ..self },
                EffectView::Continue,
            ),
            Err(reason) => self.failed(reason),
        }
    }
}

/// The text "Syncing DOMAIN...".
fn syncing_message(domain: &str) -> (text: String)
    ensures
        text@ == syncing_text(domain@),
{
    let mut text = "Syncing ".to_owned();
    text.append(domain);
    text.append("...");
    text
}

/// The text "Sync initiated for DOMAIN".
fn sync_initiated_message(domain: &str) -> (text: String)
    ensures
        text@ == sync_initiated_text(domain@),
{
    let mut text = "Sync initiated for ".to_owned();
    text.append(domain);
    text
}

/// The text "Error: REASON".
fn error_message(reason: &str) -> (text: String)
    ensures
        text@ == error_text(reason@),
{
    let mut text = "Error: ".to_owned();
    text.append(reason);
    text
}

/// The items that a first request gave; none if it failed.
fn sites_or_empty(outcome: Result<Vec<Site>, Failure>) -> (sites: Vec<Site>)
    ensures
        site_views(sites@) == loaded_or_empty(sites_outcome(outcome)),
{
    match outcome {
        Ok(sites) => sites,
        Err(_) => {
            let sites: Vec<Site> = Vec::new();
            assert(site_views(sites@) =~= Seq::empty());
            sites
        },
    }
}

/// The items that a first request gave; none if it failed.
fn alerts_or_empty(outcome: Result<Vec<Alert>, Failure>) -> (alerts: Vec<Alert>)
    ensures
        alert_views(alerts@) == loaded_or_empty(alerts_outcome(outcome)),
{
    match outcome {
        Ok(alerts) => alerts,
        Err(_) => {
            let alerts: Vec<Alert> = Vec::new();
            assert(alert_views(alerts@) =~= Seq::empty());
            alerts
        },
    }
}

/// The items that a first request gave; none if it failed.
fn deployments_or_empty(outcome: Result<Vec<Deployment>, Failure>) -> (deployments: Vec<
    Deployment,
>)
    ensures
        deployment_views(deployments@) == loaded_or_empty(deployments_outcome(outcome)),
{
    match outcome {
        Ok(deployments) => deployments,
        Err(_) => {
            let deployments: Vec<Deployment> = Vec::new();
            assert(deployment_views(deployments@) =~= Seq::empty());
            deployments
        },
    }
}

impl App {
    /// The state at startup, from a client and what the three first requests
    /// through it gave. A request that failed leaves its list empty; the
    /// application starts all the same, on the dashboard.
    pub fn new(
        api_client: ApiClient,
        sites: Result<Vec<Site>, Failure>,
        alerts: Result<Vec<Alert>, Failure>,
        deployments: Result<Vec<Deployment>, Failure>,
    ) -> (app: App)
        ensures
            app@ == AppView::initial(
                api_client.spec_base_url(),
                sites_outcome(sites),
                alerts_outcome(alerts),
                deployments_outcome(deployments),
            ),
            app@.well_formed(),
    {
        App {
            running: true,
            view: screen::View::Dashboard,
            sites: sites_or_empty(sites),
            selected_site: 0,
            alerts: alerts_or_empty(alerts),
            pending_deployments: deployments_or_empty(deployments),
            api_client,
            status_message: Some("Connected to control plane".to_owned()),
            show_popup: false,
            popup_content: String::new(),
            scroll_offset: 0,
        }
    }

    /// Puts `text` on the status line.
    fn set_status(&mut self, text: String)
        ensures
            final(self)@ == old(self)@.with_status(text@),
    {
        self.status_message = Some(text);
    }

    /// Takes note of a failed request on the status line.
    fn fail(&mut self, failure: Failure) -> (effect: Effect)
        ensures
            (final(self)@, effect@) == old(self)@.failed(failure.reason@),
    {
        self.set_status(error_message(failure.reason.as_str()));
        Effect::Continue
    }

    /// Starts a sync of the selected site, if there is one.
    fn start_sync(&mut self, confirm: bool) -> (effect: Effect)
        ensures
            (final(self)@, effect@) == old(self)@.start_sync(confirm),
    {
        if self.selected_site < self.sites.len() {
            let site_id = self.sites[self.selected_site].id.clone();
            let domain = self.sites[self.selected_site].domain.clone();
            self.set_status(syncing_message(domain.as_str()));
            Effect::SyncSite { site_id, domain, confirm }
        } else {
            Effect::Continue
        }
    }

    /// Handles a key event: the engine's step for keys.
    pub fn handle_key(&mut self, key: KeyEvent) -> (effect: Effect)
        ensures
            (final(self)@, effect@) == old(self)@.on_key(key),
            old(self)@.well_formed() ==> final(self)@.well_formed(),
    {
        if key.is_quit_chord() {
            return Effect::Quit;
        }
        if key.code == KeyCode::Esc {
            if self.show_popup {
                self.show_popup = false;
                return Effect::Continue;
            } else if self.view != screen::View::Dashboard {
                self.view = screen::View::Dashboard;
                return Effect::Continue;
            } else {
                return Effect::Quit;
            }
        }
        match self.view {
            screen::View::Dashboard => self.handle_dashboard_key(key),
            screen::View::SiteList => self.handle_site_list_key(key),
            screen::View::SiteDetail => self.handle_site_detail_key(key),
            screen::View::Deployments => self.handle_deployments_key(key),
            screen::View::Alerts => self.handle_alerts_key(key),
            screen::View::Help => self.handle_help_key(key),
            _ => Effect::Continue,
        }
    }

    fn handle_dashboard_key(&mut self, key: KeyEvent) -> (effect: Effect)
        ensures
            (final(self)@, effect@) == old(self)@.dashboard_key(key),
    {
        match key.code {
            KeyCode::Char(c) => {
                if c == 's' || c == '1' {
                    self.view = screen::View::SiteList;
                } else if c == 'd' || c == '2' {
                    self.view = screen::View::Deployments;
                } else if c == 'a' || c == '3' {
                    self.view = screen::View::Alerts;
                } else if c == 'l' || c == '4' {
                    self.view = screen::View::Logs;
                } else if c == '?' {
                    self.view = screen::View::Help;
                } else if c == 'r' {
                    self.set_status("Refreshing...".to_owned());
                    return Effect::ListSites;
                }
            },
            KeyCode::F(n) => {
                if n == 1 {
                    self.view = screen::View::Help;
                }
            },
            _ => {},
        }
        Effect::Continue
    }

    fn handle_site_list_key(&mut self, key: KeyEvent) -> (effect: Effect)
        ensures
            (final(self)@, effect@) == old(self)@.site_list_key(key),
    {
        if key.is_up() {
            if self.selected_site > 0 {
                self.selected_site -= 1;
            }
        } else if key.is_down() {
            if self.selected_site < self.sites.len().saturating_sub(1) {
                self.selected_site += 1;
            }
        } else {
            match key.code {
                KeyCode::Enter => {
                    self.view = screen::View::SiteDetail;
                },
                KeyCode::Char(c) => {
                    if c == 's' {
                        return self.start_sync(true);
                    }
                },
                _ => {},
            }
        }
        Effect::Continue
    }

    fn handle_site_detail_key(&mut self, key: KeyEvent) -> (effect: Effect)
        ensures
            (final(self)@, effect@) == old(self)@.site_detail_key(key),
    {
        match key.code {
            KeyCode::Backspace => {
                self.view = screen::View::SiteList;
            },
            KeyCode::Up => {
                self.scroll_offset = self.scroll_offset.saturating_sub(1);
            },
            KeyCode::Down => {
                self.scroll_offset = self.scroll_offset.saturating_add(1);
            },
            KeyCode::Char(c) => {
                if c == 'b' {
                    self.view = screen::View::SiteList;
                } else if c == 's' {
                    return self.start_sync(false);
                } else if c == 'c' {
                    if self.selected_site < self.sites.len() {
                        let site_id = self.sites[self.selected_site].id.clone();
                        return Effect::GetConfigDiff { site_id };
                    }
                } else if c == 'k' {
                    self.scroll_offset = self.scroll_offset.saturating_sub(1);
                } else if c == 'j' {
                    self.scroll_offset = self.scroll_offset.saturating_add(1);
                }
            },
            _ => {},
        }
        Effect::Continue
    }

    fn handle_deployments_key(&mut self, key: KeyEvent) -> (effect: Effect)
        ensures
            (final(self)@, effect@) == old(self)@.deployments_key(key),
    {
        match key.code {
            KeyCode::Char(c) => {
                if c == 'a' {
                    Effect::Intent(Intent::ApproveDeployment)
                } else if c == 'r' {
                    Effect::Intent(Intent::RejectDeployment)
                } else {
                    Effect::Continue
                }
            },
            _ => Effect::Continue,
        }
    }

    fn handle_alerts_key(&mut self, key: KeyEvent) -> (effect: Effect)
        ensures
            (final(self)@, effect@) == old(self)@.alerts_key(key),
    {
        match key.code {
            KeyCode::Char(c) => {
                if c == 'a' {
                    Effect::Intent(Intent::AcknowledgeAlert)
                } else if c == 'd' {
                    Effect::Intent(Intent::DismissAlert)
                } else {
                    Effect::Continue
                }
            },
            _ => Effect::Continue,
        }
    }

    fn handle_help_key(&mut self, key: KeyEvent) -> (effect: Effect)
        ensures
            (final(self)@, effect@) == old(self)@.help_key(key),
    {
        match key.code {
            KeyCode::Char(c) => {
                if c == 'q' {
                    self.view = screen::View::Dashboard;
                }
            },
            _ => {},
        }
        Effect::Continue
    }

    /// Handles a pointer event. The pointer does nothing yet.
    pub fn handle_mouse(&mut self, mouse: MouseEvent)
        ensures
            *final(self) == *old(self),
    {
    }

    /// Handles a change of the terminal's size. The layout is computed anew
    /// at every draw, so the state keeps no size.
    pub fn handle_resize(&mut self, width: u16, height: u16)
        ensures
            *final(self) == *old(self),
    {
    }

    /// Handles a tick of the event source. Nothing is time-driven yet.
    pub fn tick(&mut self)
        ensures
            *final(self) == *old(self),
    {
    }

    /// Handles one event from the queue: the engine's step.
    pub fn handle_event(&mut self, event: Event) -> (effect: Effect)
        ensures
            (final(self)@, effect@) == old(self)@.on_event(event),
            old(self)@.well_formed() ==> final(self)@.well_formed(),
    {
        match event {
            Event::Tick => {
                self.tick();
                Effect::Continue
            },
            Event::Key(key) => self.handle_key(key),
            Event::Mouse(mouse) => {
                self.handle_mouse(mouse);
                Effect::Continue
            },
            Event::Resize(width, height) => {
                self.handle_resize(width, height);
                Effect::Continue
            },
        }
    }

    /// Takes what the request for the sites gave, after [`Effect::ListSites`].
    pub fn sites_listed(&mut self, outcome: Result<Vec<Site>, Failure>) -> (effect: Effect)
        ensures
            (final(self)@, effect@) == old(self)@.on_sites(sites_outcome(outcome)),
            outcome is Ok || old(self)@.well_formed() ==> final(self)@.well_formed(),
    {
        match outcome {
            Ok(sites) => {
                let len = sites.len();
                self.sites = sites;
                if len == 0 {
                    self.selected_site = 0;
                } else if self.selected_site >= len {
                    self.selected_site = len - 1;
                }
                Effect::ListAlerts
            },
            Err(failure) => self.fail(failure),
        }
    }

    /// Takes what the request for the alerts gave, after
    /// [`Effect::ListAlerts`].
    pub fn alerts_listed(&mut self, outcome: Result<Vec<Alert>, Failure>) -> (effect: Effect)
        ensures
            (final(self)@, effect@) == old(self)@.on_alerts(alerts_outcome(outcome)),
            old(self)@.well_formed() ==> final(self)@.well_formed(),
    {
        match outcome {
            Ok(alerts) => {
                self.alerts = alerts;
                Effect::ListPendingDeployments
            },
            Err(failure) => self.fail(failure),
        }
    }

    /// Takes what the request for the pending deployments gave, after
    /// [`Effect::ListPendingDeployments`].
    pub fn deployments_listed(&mut self, outcome: Result<Vec<Deployment>, Failure>) -> (effect:
        Effect)
        ensures
            (final(self)@, effect@) == old(self)@.on_deployments(deployments_outcome(outcome)),
            old(self)@.well_formed() ==> final(self)@.well_formed(),
    {
        match outcome {
            Ok(deployments) => {
                self.pending_deployments = deployments;
                self.set_status("Data refreshed".to_owned());
                Effect::Continue
            },
            Err(failure) => self.fail(failure),
        }
    }

    /// Takes what the sync request gave, after [`Effect::SyncSite`] with this
    /// `domain` and `confirm`.
    pub fn sync_finished(&mut self, domain: &str, confirm: bool, outcome: Result<(), Failure>) -> (effect:
        Effect)
        ensures
            (final(self)@, effect@) == old(self)@.on_sync(domain@, confirm, sync_outcome(outcome)),
            old(self)@.well_formed() ==> final(self)@.well_formed(),
    {
        match outcome {
            Ok(_) => {
                if confirm {
                    self.set_status(sync_initiated_message(domain));
                }
                Effect::Continue
            },
            Err(failure) => self.fail(failure),
        }
    }

    /// Takes what the request for a configuration diff gave, after
    /// [`Effect::GetConfigDiff`].
    pub fn config_diff_fetched(&mut self, outcome: Result<String, Failure>) -> (effect: Effect)
        ensures
            (final(self)@, effect@) == old(self)@.on_config_diff(diff_outcome(outcome)),
            old(self)@.well_formed() ==> final(self)@.well_formed(),
    {
        match outcome {
            Ok(diff) => {
                self.popup_content = diff;
                self.show_popup = true;
                Effect::Continue
            },
            Err(failure) => self.fail(failure),
        }
    }

    /// How many sites report that they are healthy.
    pub fn healthy_sites(&self) -> (n: usize)
        ensures
            n == count_with_status(self@.sites, SiteStatus::Healthy),
    {
        count_sites_with_status(&self.sites, SiteStatus::Healthy)
    }

    /// How many sites report a warning.
    pub fn warning_sites(&self) -> (n: usize)
        ensures
            n == count_with_status(self@.sites, SiteStatus::Warning),
    {
        count_sites_with_status(&self.sites, SiteStatus::Warning)
    }

    /// How many sites report that they are in a critical state.
    pub fn critical_sites(&self) -> (n: usize)
        ensures
            n == count_with_status(self@.sites, SiteStatus::Critical),
    {
        count_sites_with_status(&self.sites, SiteStatus::Critical)
    }

    /// How many alerts nobody has acknowledged yet.
    pub fn unacknowledged_alerts(&self) -> (n: usize)
        ensures
            n == count_unacknowledged(self@.alerts),
    {
        count_unacknowledged_alerts(&self.alerts)
    }
}

} // verus!
