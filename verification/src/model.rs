//! The fleet as the control plane reports it: sites, alerts and deployments.

use vstd::prelude::*;
use crate::text::{opt_text, texts};
use crate::time::Timestamp;

verus! {

/// Health of a site, as last reported by the control plane.
#[derive(Debug, Clone, Copy, PartialEq, Eq, Structural)]
pub enum SiteStatus {
    Healthy,
    Warning,
    Critical,
    Unknown,
    Drifted,
    Syncing,
}

/// How urgent an alert is.
#[derive(Debug, Clone, Copy, PartialEq, Eq, Structural)]
pub enum AlertSeverity {
    Info,
    Warning,
    Critical,
}

/// Where a deployment stands in its lifecycle.
#[derive(Debug, Clone, Copy, PartialEq, Eq, Structural)]
pub enum DeploymentStatus {
    Pending,
    InProgress,
    Completed,
    Failed,
    RolledBack,
}

impl SiteStatus {
    /// The name of the status, as it is shown.
    pub open spec fn spec_name(self) -> Seq<char> {
        match self {
            SiteStatus::Healthy => "Healthy"@,
            SiteStatus::Warning => "Warning"@,
            SiteStatus::Critical => "Critical"@,
            SiteStatus::Unknown => "Unknown"@,
            SiteStatus::Drifted => "Drifted"@,
            SiteStatus::Syncing => "Syncing"@,
        }
    }

    /// The name of the status, as it is shown.
    pub fn name(self) -> (s: &'static str)
        ensures
            s@ == self.spec_name(),
    {
        match self {
            SiteStatus::Healthy => "Healthy",
            SiteStatus::Warning => "Warning",
            SiteStatus::Critical => "Critical",
            SiteStatus::Unknown => "Unknown",
            SiteStatus::Drifted => "Drifted",
            SiteStatus::Syncing => "Syncing",
        }
    }
}

impl AlertSeverity {
    /// The name of the severity, as it is shown.
    pub open spec fn spec_name(self) -> Seq<char> {
        match self {
            AlertSeverity::Info => "Info"@,
            AlertSeverity::Warning => "Warning"@,
            AlertSeverity::Critical => "Critical"@,
        }
    }

    /// The name of the severity, as it is shown.
    pub fn name(self) -> (s: &'static str)
        ensures
            s@ == self.spec_name(),
    {
        match self {
            AlertSeverity::Info => "Info",
            AlertSeverity::Warning => "Warning",
            AlertSeverity::Critical => "Critical",
        }
    }
}

impl DeploymentStatus {
    /// The name of the status, as it is shown.
    pub open spec fn spec_name(self) -> Seq<char> {
        match self {
            DeploymentStatus::Pending => "Pending"@,
            DeploymentStatus::InProgress => "InProgress"@,
            DeploymentStatus::Completed => "Completed"@,
            DeploymentStatus::Failed => "Failed"@,
            DeploymentStatus::RolledBack => "RolledBack"@,
        }
    }

    /// The name of the status, as it is shown.
    pub fn name(self) -> (s: &'static str)
        ensures
            s@ == self.spec_name(),
    {
        match self {
            DeploymentStatus::Pending => "Pending",
            DeploymentStatus::InProgress => "InProgress",
            DeploymentStatus::Completed => "Completed",
            DeploymentStatus::Failed => "Failed",
            DeploymentStatus::RolledBack => "RolledBack",
        }
    }

    /// How far along the lifecycle the status is.
    pub open spec fn stage(self) -> nat {
        match self {
            DeploymentStatus::Pending => 0,
            DeploymentStatus::InProgress => 1,
            DeploymentStatus::Completed => 2,
            DeploymentStatus::Failed => 2,
            DeploymentStatus::RolledBack => 3,
        }
    }

    /// Whether a deployment in this status may pass to `next` in one step:
    /// a pending one starts, a started one completes or fails, and a failed
    /// one may be rolled back. Nothing else is a step.
    pub open spec fn spec_can_become(self, next: DeploymentStatus) -> bool {
        match (self, next) {
            (DeploymentStatus::Pending, DeploymentStatus::InProgress) => true,
            (DeploymentStatus::InProgress, DeploymentStatus::Completed) => true,
            (DeploymentStatus::InProgress, DeploymentStatus::Failed) => true,
            (DeploymentStatus::Failed, DeploymentStatus::RolledBack) => true,
            _ => false,
        }
    }

    /// Whether a deployment in this status may pass to `next` in one step.
    #[verifier::when_used_as_spec(spec_can_become)]
    pub fn can_become(self, next: DeploymentStatus) -> (b: bool)
        ensures
            b == self.spec_can_become(next),
    {
        match self {
            DeploymentStatus::Pending => next == DeploymentStatus::InProgress,
            DeploymentStatus::InProgress => next == DeploymentStatus::Completed || next
                == DeploymentStatus::Failed,
            DeploymentStatus::Failed => next == DeploymentStatus::RolledBack,
            DeploymentStatus::Completed | DeploymentStatus::RolledBack => false,
        }
    }

    /// The lifecycle runs one way and skips nothing: every step moves the
    /// status exactly one stage on, so no status is ever reached again and
    /// none is reached from two stages back.
    pub proof fn lemma_lifecycle_is_one_directional(self, next: DeploymentStatus)
        requires
            self.can_become(next),
        ensures
            next.stage() == self.stage() + 1,
            !next.can_become(self),
    {
    }
}

/// A managed site.
#[derive(Debug, Clone)]
pub struct Site {
    pub id: String,
    pub domain: String,
    pub status: SiteStatus,
    pub last_sync: Option<Timestamp>,
    pub config_hash: Option<String>,
    pub response_time_ms: Option<u32>,
    pub ssl_expires: Option<Timestamp>,
    pub tags: Vec<String>,
    pub environment: String,
}

/// A notice raised against a site.
#[derive(Debug, Clone)]
pub struct Alert {
    pub id: String,
    pub site_id: String,
    pub severity: AlertSeverity,
    pub message: String,
    pub timestamp: Timestamp,
    pub acknowledged: bool,
}

/// A change waiting to be rolled out to a set of sites.
#[derive(Debug, Clone)]
pub struct Deployment {
    pub id: String,
    pub sites: Vec<String>,
    pub change_type: String,
    pub scheduled: Option<Timestamp>,
    pub status: DeploymentStatus,
}

/// A site as a mathematical value.
pub struct SiteView {
    pub id: Seq<char>,
    pub domain: Seq<char>,
    pub status: SiteStatus,
    pub last_sync: Option<Timestamp>,
    pub config_hash: Option<Seq<char>>,
    pub response_time_ms: Option<u32>,
    pub ssl_expires: Option<Timestamp>,
    pub tags: Seq<Seq<char>>,
    pub environment: Seq<char>,
}

/// An alert as a mathematical value.
pub struct AlertView {
    pub id: Seq<char>,
    pub site_id: Seq<char>,
    pub severity: AlertSeverity,
    pub message: Seq<char>,
    pub timestamp: Timestamp,
    pub acknowledged: bool,
}

/// A deployment as a mathematical value.
pub struct DeploymentView {
    pub id: Seq<char>,
    pub sites: Seq<Seq<char>>,
    pub change_type: Seq<char>,
    pub scheduled: Option<Timestamp>,
    pub status: DeploymentStatus,
}

impl View for Site {
    type V = SiteView;

    open spec fn view(&self) -> SiteView {
        SiteView {
            id: self.id@,
            domain: self.domain@,
            status: self.status,
            last_sync: self.last_sync,
            config_hash: opt_text(self.config_hash),
            response_time_ms: self.response_time_ms,
            ssl_expires: self.ssl_expires,
            tags: texts(self.tags@),
            environment: self.environment@,
        }
    }
}

impl View for Alert {
    type V = AlertView;

    open spec fn view(&self) -> AlertView {
        AlertView {
            id: self.id@,
            site_id: self.site_id@,
            severity: self.severity,
            message: self.message@,
            timestamp: self.timestamp,
            acknowledged: self.acknowledged,
        }
    }
}

impl View for Deployment {
    type V = DeploymentView;

    open spec fn view(&self) -> DeploymentView {
        DeploymentView {
            id: self.id@,
            sites: texts(self.sites@),
            change_type: self.change_type@,
            scheduled: self.scheduled,
            status: self.status,
        }
    }
}

/// The sites of a list as mathematical values, in order.
pub open spec fn site_views(v: Seq<Site>) -> Seq<SiteView> {
    v.map_values(|s: Site| s@)
}

/// The alerts of a list as mathematical values, in order.
pub open spec fn alert_views(v: Seq<Alert>) -> Seq<AlertView> {
    v.map_values(|a: Alert| a@)
}

/// The deployments of a list as mathematical values, in order.
pub open spec fn deployment_views(v: Seq<Deployment>) -> Seq<DeploymentView> {
    v.map_values(|d: Deployment| d@)
}

/// The test "reports `status`" on a site.
pub open spec fn has_status(status: SiteStatus) -> spec_fn(SiteView) -> bool {
    |s: SiteView| s.status == status
}

/// The test "nobody has acknowledged it yet" on an alert.
pub open spec fn is_unacknowledged() -> spec_fn(AlertView) -> bool {
    |a: AlertView| !a.acknowledged
}

/// How many sites of `sites` report `status`.
pub open spec fn count_with_status(sites: Seq<SiteView>, status: SiteStatus) -> nat {
    sites.filter(has_status(status)).len()
}

/// How many alerts of `alerts` nobody has acknowledged yet.
pub open spec fn count_unacknowledged(alerts: Seq<AlertView>) -> nat {
    alerts.filter(is_unacknowledged()).len()
}

/// How many of `sites` report `status`.
pub fn count_sites_with_status(sites: &Vec<Site>, status: SiteStatus) -> (n: usize)
    ensures
        n == count_with_status(site_views(sites@), status),
{
    let mut n: usize = 0;
    let mut i: usize = 0;
    assert(site_views(sites@.take(0)) =~= Seq::empty());
    assert(Seq::<SiteView>::empty().filter(has_status(status)).len() == 0) by {
        Seq::<SiteView>::empty().lemma_filter_len(has_status(status));
    }
    while i < sites.len()
        invariant
            i <= sites.len(),
            n <= i,
            n == count_with_status(site_views(sites@.take(i as int)), status),
        decreases sites.len() - i,
    {
        proof {
            let seen = site_views(sites@.take(i as int));
            assert(site_views(sites@.take(i + 1)) =~= seen.push(sites@[i as int]@));
            seen.lemma_filter_len_push(has_status(status), sites@[i as int]@);
        }
        if sites[i].status == status {
            n += 1;
        }
        i += 1;
    }
    assert(sites@.take(sites.len() as int) =~= sites@);
    n
}

/// How many of `alerts` nobody has acknowledged yet.
pub fn count_unacknowledged_alerts(alerts: &Vec<Alert>) -> (n: usize)
    ensures
        n == count_unacknowledged(alert_views(alerts@)),
{
    let mut n: usize = 0;
    let mut i: usize = 0;
    assert(alert_views(alerts@.take(0)) =~= Seq::empty());
    assert(Seq::<AlertView>::empty().filter(is_unacknowledged()).len() == 0) by {
        Seq::<AlertView>::empty().lemma_filter_len(is_unacknowledged());
    }
    while i < alerts.len()
        invariant
            i <= alerts.len(),
            n <= i,
            n == count_unacknowledged(alert_views(alerts@.take(i as int))),
        decreases alerts.len() - i,
    {
        proof {
            let seen = alert_views(alerts@.take(i as int));
            assert(alert_views(alerts@.take(i + 1)) =~= seen.push(alerts@[i as int]@));
            seen.lemma_filter_len_push(is_unacknowledged(), alerts@[i as int]@);
        }
        if !alerts[i].acknowledged {
            n += 1;
        }
        i += 1;
    }
    assert(alerts@.take(alerts.len() as int) =~= alerts@);
    n
}

/// Whether no two sites of `sites` share an identifier.
pub open spec fn has_unique_ids(sites: Seq<SiteView>) -> bool {
    forall|i: int, j: int| 0 <= i < j < sites.len() ==> sites[i].id != sites[j].id
}

/// Whether `sites` holds a site with the identifier `id`.
pub open spec fn knows_site(sites: Seq<SiteView>, id: Seq<char>) -> bool {
    exists|i: int| 0 <= i < sites.len() && sites[i].id == id
}

/// `alert` once the user has acknowledged it.
pub open spec fn acknowledged(alert: AlertView) -> AlertView {
    AlertView { acknowledged: true, ..alert }
}

/// An alert that is acknowledged drops out of the count of unacknowledged
/// alerts, and no other alert's standing changes.
pub proof fn lemma_acknowledging_lowers_the_count(alerts: Seq<AlertView>, i: int)
    requires
        0 <= i < alerts.len(),
        !alerts[i].acknowledged,
    ensures
        count_unacknowledged(alerts.update(i, acknowledged(alerts[i]))) == count_unacknowledged(
            alerts,
        ) - 1,
{
    let open = is_unacknowledged();
    let before = alerts.take(i);
    let after = alerts.skip(i + 1);
    let was = alerts[i];
    let now = acknowledged(was);
    assert(alerts =~= before.push(was) + after);
    assert(alerts.update(i, now) =~= before.push(now) + after);
    Seq::filter_distributes_over_add(before.push(was), after, open);
    Seq::filter_distributes_over_add(before.push(now), after, open);
    before.lemma_filter_len_push(open, was);
    before.lemma_filter_len_push(open, now);
}

} // verus!
