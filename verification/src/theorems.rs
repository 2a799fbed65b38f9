//! What holds of the transition engine on every state and every input.

use vstd::prelude::*;
use crate::app::{clamp_selection, error_text, refreshed_text, AppView, EffectView};
use crate::events::Event;
use crate::keys::{KeyCode, KeyEvent};
use crate::model::{AlertView, DeploymentView, SiteView};
use crate::screen;

verus! {

/// The state after the keys of `keys` were handled one after the other,
/// starting from `s`.
pub open spec fn after_keys(s: AppView, keys: Seq<KeyEvent>) -> AppView
    decreases keys.len(),
{
    if keys.len() == 0 {
        s
    } else {
        after_keys(s, keys.drop_last()).on_key(keys.last()).0
    }
}

/// The state after the user asked for a refresh with `key` and the loop
/// followed the engine's effects to the end, the control plane answering the
/// three requests with `sites`, `alerts` and `deployments`. A request that
/// the engine no longer asks for, after an earlier one failed, is not made.
pub open spec fn after_refresh(
    s: AppView,
    key: KeyEvent,
    sites: Result<Seq<SiteView>, Seq<char>>,
    alerts: Result<Seq<AlertView>, Seq<char>>,
    deployments: Result<Seq<DeploymentView>, Seq<char>>,
) -> AppView {
    let asked = s.on_key(key).0;
    let first = asked.on_sites(sites);
    if first.1 != EffectView::ListAlerts {
        first.0
    } else {
        let second = first.0.on_alerts(alerts);
        if second.1 != EffectView::ListPendingDeployments {
            second.0
        } else {
            second.0.on_deployments(deployments).0
        }
    }
}

/// A quit chord ends the program from every state, and changes nothing.
pub proof fn lemma_quit_chord_quits(s: AppView, key: KeyEvent)
    requires
        key.is_quit_chord(),
    ensures
        s.on_key(key) == (s, EffectView::Quit),
{
}

/// Escape has three tiers. With a popup open it closes the popup and leaves
/// the screen as it is. Without one, on any screen but the dashboard, it goes
/// back to the dashboard. Without one, on the dashboard, it quits. In each
/// case nothing else changes.
pub proof fn lemma_escape_precedence(s: AppView, key: KeyEvent)
    requires
        key.code == KeyCode::Esc,
    ensures
        s.show_popup ==> s.on_key(key) == (
            AppView { show_popup: false, ..s },
            EffectView::Continue,
        ),
        !s.show_popup && s.view != screen::View::Dashboard ==> s.on_key(key) == (
            AppView { view: screen::View::Dashboard, ..s },
            EffectView::Continue,
        ),
        !s.show_popup && s.view == screen::View::Dashboard ==> s.on_key(key) == (
            s,
            EffectView::Quit,
        ),
{
}

/// On the list of sites an up key moves the selection one site up unless it
/// is on the first, a down key one site down unless it is on the last, and
/// neither wraps around nor changes anything else.
pub proof fn lemma_site_list_cursor(s: AppView, key: KeyEvent)
    requires
        s.view == screen::View::SiteList,
        !key.is_quit_chord(),
        key.is_up() || key.is_down(),
    ensures
        s.on_key(key).1 == EffectView::Continue,
        s.on_key(key).0 == (AppView { selected_site: s.on_key(key).0.selected_site, ..s }),
        key.is_up() ==> s.on_key(key).0.selected_site == if s.selected_site > 0 {
            s.selected_site - 1
        } else {
            0
        },
        key.is_down() && !key.is_up() ==> s.on_key(key).0.selected_site == if s.selected_site + 1
            < s.sites.len() {
            s.selected_site + 1
        } else {
            s.selected_site
        },
{
}

/// No key takes the selection out of the list: from a state whose selection
/// names a site (or is 0 where there is none), it still does after any key.
pub proof fn lemma_key_keeps_selection_in_range(s: AppView, key: KeyEvent)
    requires
        s.well_formed(),
    ensures
        s.on_key(key).0.well_formed(),
{
}

/// Whatever keys are pressed, in whatever order and on whatever screen, the
/// selection stays within the list of sites, and is 0 when the list is empty.
pub proof fn lemma_selection_stays_in_range(s: AppView, keys: Seq<KeyEvent>)
    requires
        s.well_formed(),
    ensures
        after_keys(s, keys).well_formed(),
        after_keys(s, keys).sites.len() == 0 ==> after_keys(s, keys).selected_site == 0,
        after_keys(s, keys).sites.len() > 0 ==> after_keys(s, keys).selected_site < after_keys(
            s,
            keys,
        ).sites.len(),
    decreases keys.len(),
{
    if keys.len() > 0 {
        lemma_selection_stays_in_range(s, keys.drop_last());
        lemma_key_keeps_selection_in_range(after_keys(s, keys.drop_last()), keys.last());
    }
}

/// Up and down keys on the list of sites stay on that list and leave the
/// sites alone, so a run of them only ever moves the selection within it.
pub proof fn lemma_cursor_keys_stay_on_site_list(s: AppView, keys: Seq<KeyEvent>)
    requires
        s.view == screen::View::SiteList,
        s.well_formed(),
        forall|i: int| 0 <= i < keys.len() ==> (#[trigger] keys[i]).is_up() || keys[i].is_down(),
    ensures
        after_keys(s, keys) == (AppView { selected_site: after_keys(s, keys).selected_site, ..s }),
        after_keys(s, keys).well_formed(),
    decreases keys.len(),
{
    if keys.len() > 0 {
        let before = keys.drop_last();
        assert forall|i: int| 0 <= i < before.len() implies (#[trigger] before[i]).is_up()
            || before[i].is_down() by {
            assert(before[i] == keys[i]);
        }
        lemma_cursor_keys_stay_on_site_list(s, before);
        assert(keys.last() == keys[keys.len() - 1]);
    }
}

/// Bringing a selection into a list twice is the same as doing it once.
pub proof fn lemma_clamp_is_idempotent(selected: nat, len: nat)
    ensures
        clamp_selection(clamp_selection(selected, len), len) == clamp_selection(selected, len),
{
}

/// A refresh is idempotent: asking for it a second time, with the control
/// plane giving the same three answers, leaves the state exactly as the first
/// refresh left it. This holds whether the answers are lists or failures.
pub proof fn lemma_refresh_is_idempotent(
    s: AppView,
    key: KeyEvent,
    sites: Result<Seq<SiteView>, Seq<char>>,
    alerts: Result<Seq<AlertView>, Seq<char>>,
    deployments: Result<Seq<DeploymentView>, Seq<char>>,
)
    requires
        s.view == screen::View::Dashboard,
        key.is_char('r'),
    ensures
        after_refresh(after_refresh(s, key, sites, alerts, deployments), key, sites, alerts, deployments)
            == after_refresh(s, key, sites, alerts, deployments),
{
}

/// A refresh that goes through replaces each of the three lists as a whole
/// by what the control plane gave, and reports itself on the status line.
pub proof fn lemma_refresh_replaces_every_list(
    s: AppView,
    key: KeyEvent,
    sites: Seq<SiteView>,
    alerts: Seq<AlertView>,
    deployments: Seq<DeploymentView>,
)
    requires
        s.view == screen::View::Dashboard,
        key.is_char('r'),
    ensures
        after_refresh(s, key, Ok(sites), Ok(alerts), Ok(deployments)) == (AppView {
            sites,
            alerts,
            pending_deployments: deployments,
            selected_site: clamp_selection(s.selected_site, sites.len()),
            status_message: Some(refreshed_text()),
            ..s
        }),
{
}

/// At startup a control plane that fails all three requests still gives a
/// running application: on the dashboard, with three empty lists, and with
/// every key handled from there on.
pub proof fn lemma_startup_degrades_to_empty(
    base_url: Seq<char>,
    sites: Seq<char>,
    alerts: Seq<char>,
    deployments: Seq<char>,
)
    ensures
        ({
            let s = AppView::initial(base_url, Err(sites), Err(alerts), Err(deployments));
            &&& s.running
            &&& s.view == screen::View::Dashboard
            &&& s.sites.len() == 0
            &&& s.alerts.len() == 0
            &&& s.pending_deployments.len() == 0
            &&& !s.show_popup
            &&& s.well_formed()
        }),
{
}

/// Opening the configuration diff from the detail screen and closing it with
/// escape comes back to the detail screen: the screen, the selection and the
/// lists are as before, the popup is closed, and its content stays the diff
/// that was fetched until another one is fetched.
pub proof fn lemma_config_diff_round_trip(
    s: AppView,
    open_key: KeyEvent,
    diff: Seq<char>,
    close_key: KeyEvent,
)
    requires
        s.view == screen::View::SiteDetail,
        s.selected() is Some,
        open_key.is_char('c'),
        !open_key.modifiers.control,
        close_key.code == KeyCode::Esc,
    ensures
        s.on_key(open_key) == (s, EffectView::GetConfigDiff { site_id: s.selected()->Some_0.id }),
        ({
            let opened = s.on_config_diff(Ok(diff)).0;
            &&& opened == (AppView { show_popup: true, popup_content: diff, ..s })
            &&& opened.on_key(close_key) == (
                AppView { show_popup: false, popup_content: diff, ..s },
                EffectView::Continue,
            )
        }),
{
}

/// A sync request never touches the sites: whether it is accepted or fails,
/// every site keeps the status that the control plane last reported, and only
/// the status line can change.
pub proof fn lemma_sync_changes_only_the_status_line(
    s: AppView,
    domain: Seq<char>,
    confirm: bool,
    outcome: Result<(), Seq<char>>,
)
    ensures
        s.on_sync(domain, confirm, outcome).1 == EffectView::Continue,
        s.on_sync(domain, confirm, outcome).0 == (AppView {
            status_message: s.on_sync(domain, confirm, outcome).0.status_message,
            ..s
        }),
{
}

/// A failed request never ends the program and never empties a list: it
/// shows on the status line and the lists stay as they were.
pub proof fn lemma_failure_only_reports(s: AppView, reason: Seq<char>)
    ensures
        s.on_sites(Err(reason)) == s.failed(reason),
        s.on_alerts(Err(reason)) == s.failed(reason),
        s.on_deployments(Err(reason)) == s.failed(reason),
        s.on_config_diff(Err(reason)) == s.failed(reason),
        s.failed(reason).1 == EffectView::Continue,
        s.failed(reason).0 == (AppView {
            status_message: Some(error_text(reason)),
            ..s
        }),
{
}

/// Keys never touch what the control plane reported: no key changes a site,
/// an alert or a deployment, or the endpoint. The lists change only when an
/// answer from the control plane replaces one of them as a whole.
pub proof fn lemma_keys_leave_the_lists_alone(s: AppView, key: KeyEvent)
    ensures
        s.on_key(key).0.sites == s.sites,
        s.on_key(key).0.alerts == s.alerts,
        s.on_key(key).0.pending_deployments == s.pending_deployments,
        s.on_key(key).0.base_url == s.base_url,
        s.on_key(key).0.running == s.running,
{
}

/// A key that means nothing on the screen that is showing is a no-op: the
/// engine asks for a request, or for the end of the program, only on the keys
/// that are bound to that, and otherwise goes on.
pub proof fn lemma_only_bound_keys_have_effects(s: AppView, key: KeyEvent)
    ensures
        s.on_key(key).1 == EffectView::Quit ==> key.is_quit_chord() || (key.code == KeyCode::Esc
            && !s.show_popup && s.view == screen::View::Dashboard),
        s.on_key(key).1 == EffectView::ListSites ==> s.view == screen::View::Dashboard
            && key.is_char('r'),
        s.on_key(key).1 is SyncSite ==> key.is_char('s') && s.selected() is Some && (s.view
            == screen::View::SiteList || s.view == screen::View::SiteDetail),
        s.on_key(key).1 is GetConfigDiff ==> key.is_char('c') && s.selected() is Some && s.view
            == screen::View::SiteDetail,
        s.on_key(key).1 != EffectView::ListAlerts,
        s.on_key(key).1 != EffectView::ListPendingDeployments,
{
}

/// No answer from the control plane takes the selection out of the list:
/// new sites bring it back into the list, and nothing else moves it.
pub proof fn lemma_answers_keep_selection_in_range(
    s: AppView,
    sites: Result<Seq<SiteView>, Seq<char>>,
    alerts: Result<Seq<AlertView>, Seq<char>>,
    deployments: Result<Seq<DeploymentView>, Seq<char>>,
    domain: Seq<char>,
    confirm: bool,
    synced: Result<(), Seq<char>>,
    diff: Result<Seq<char>, Seq<char>>,
)
    requires
        s.well_formed(),
    ensures
        s.on_sites(sites).0.well_formed(),
        s.on_alerts(alerts).0.well_formed(),
        s.on_deployments(deployments).0.well_formed(),
        s.on_sync(domain, confirm, synced).0.well_formed(),
        s.on_config_diff(diff).0.well_formed(),
{
}

/// Only keys drive the engine: a tick, a pointer event or a change of the
/// terminal's size leaves the state as it is and asks for nothing.
pub proof fn lemma_only_keys_change_the_state(s: AppView, event: Event)
    requires
        !(event is Key),
    ensures
        s.on_event(event) == (s, EffectView::Continue),
{
}

} // verus!
