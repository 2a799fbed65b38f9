//! The client side of the control plane.

use vstd::prelude::*;
use crate::model::{
    alert_views, deployment_views, has_unique_ids, knows_site, site_views, Alert, AlertSeverity,
    AlertView, Deployment, DeploymentStatus, DeploymentView, Site, SiteStatus, SiteView,
};
use crate::text::texts;
use crate::time::{Timestamp, SECS_PER_DAY, SECS_PER_HOUR};

verus! {

/// `reqwest::Client`, held as a value that nothing here looks into.
#[verifier::external_type_specification]
#[verifier::external_body]
pub struct ExHttpClient(reqwest::Client);

/// `reqwest::Error`, held as a value that nothing here looks into.
#[verifier::external_type_specification]
#[verifier::external_body]
pub struct ExHttpError(reqwest::Error);

/// `s` with every `c` at its end removed.
pub open spec fn without_trailing(s: Seq<char>, c: char) -> Seq<char>
    decreases s.len(),
{
    if s.len() > 0 && s.last() == c {
        without_trailing(s.drop_last(), c)
    } else {
        s
    }
}

/// `str::trim_end_matches` with one character as the pattern. Trusted: the
/// slice returned is `s` up to, and without, its longest run of `c` at the end.
#[verifier::external_body]
fn trim_end_matches<'a>(s: &'a str, c: char) -> (r: &'a str)
    ensures
        r@ == without_trailing(s@, c),
{
    s.trim_end_matches(c)
}

/// `reqwest::Client::builder`, `ClientBuilder::danger_accept_invalid_certs`
/// and `ClientBuilder::build`, in that order. Trusted, and nothing is claimed
/// of the outcome: building fails when the TLS backend cannot be set up.
#[verifier::external_body]
fn build_http_client(accept_invalid_certs: bool) -> Result<reqwest::Client, reqwest::Error> {
    reqwest::Client::builder().danger_accept_invalid_certs(accept_invalid_certs).build()
}

/// Why no client could be made.
#[derive(Debug)]
pub struct ClientError {
    /// What the HTTP stack reported.
    pub source: reqwest::Error,
}

/// Why a request to the control plane gave no result.
#[derive(Debug, Clone)]
pub struct Failure {
    pub reason: String,
}

/// The sites that the client reports at the instant `now`.
pub open spec fn sites_at(now: Timestamp) -> Seq<SiteView> {
    seq![
        SiteView {
            id: "site-1"@,
            domain: "example.com"@,
            status: SiteStatus::Healthy,
            last_sync: Some(now),
            config_hash: Some("sha256:abc123"@),
            response_time_ms: Some(145u32),
            ssl_expires: Some(now.shifted(60 * SECS_PER_DAY)),
            tags: seq!["production"@, "wordpress"@],
            environment: "production"@,
        },
        SiteView {
            id: "site-2"@,
            domain: "blog.example.com"@,
            status: SiteStatus::Warning,
            last_sync: Some(now.shifted(-2 * SECS_PER_HOUR)),
            config_hash: Some("sha256:def456"@),
            response_time_ms: Some(523u32),
            ssl_expires: Some(now.shifted(15 * SECS_PER_DAY)),
            tags: seq!["production"@, "wordpress"@],
            environment: "production"@,
        },
        SiteView {
            id: "site-3"@,
            domain: "staging.example.com"@,
            status: SiteStatus::Drifted,
            last_sync: Some(now.shifted(-SECS_PER_DAY)),
            config_hash: Some("sha256:ghi789"@),
            response_time_ms: Some(89u32),
            ssl_expires: Some(now.shifted(90 * SECS_PER_DAY)),
            tags: seq!["staging"@],
            environment: "staging"@,
        },
    ]
}

/// The alerts that the client reports at the instant `now`.
pub open spec fn alerts_at(now: Timestamp) -> Seq<AlertView> {
    seq![
        AlertView {
            id: "alert-1"@,
            site_id: "site-2"@,
            severity: AlertSeverity::Warning,
            message: "SSL certificate expires in 15 days"@,
            timestamp: now,
            acknowledged: false,
        },
        AlertView {
            id: "alert-2"@,
            site_id: "site-2"@,
            severity: AlertSeverity::Warning,
            message: "Response time > 500ms"@,
            timestamp: now.shifted(-SECS_PER_HOUR),
            acknowledged: false,
        },
    ]
}

/// The pending deployments that the client reports at the instant `now`.
pub open spec fn pending_deployments_at(now: Timestamp) -> Seq<DeploymentView> {
    seq![
        DeploymentView {
            id: "deploy-1"@,
            sites: seq!["site-1"@, "site-2"@],
            change_type: "security-headers-update"@,
            scheduled: Some(now.shifted(6 * SECS_PER_HOUR)),
            status: DeploymentStatus::Pending,
        },
    ]
}

/// The first part of the configuration diff that the client reports for a
/// site, up to the site's identifier.
pub open spec fn diff_head() -> Seq<char> {
    "--- a/sites/"@
}

/// The part of the diff between the two mentions of the identifier.
pub open spec fn diff_middle() -> Seq<char> {
    "/config.ncl\n+++ b/sites/"@
}

/// The rest of the diff, after the second mention of the identifier.
pub open spec fn diff_tail() -> Seq<char> {
    "/config.ncl\n@@ -15,7 +15,7 @@\n   security = {\n     headers = {\n-      x_frame_options = 'SAMEORIGIN,\n+      x_frame_options = 'DENY,\n       content_security_policy = \"default-src 'self'\",\n     },\n   },\n"@
}

/// The configuration diff that the client reports for the site `site_id`:
/// a unified diff of that site's configuration file.
pub open spec fn config_diff_for(site_id: Seq<char>) -> Seq<char> {
    diff_head() + site_id + diff_middle() + site_id + diff_tail()
}

/// The sites that the client reports have identifiers of their own, and its
/// alerts and deployments speak of those sites only.
pub proof fn lemma_fixed_answers_are_consistent(now: Timestamp)
    ensures
        has_unique_ids(sites_at(now)),
        forall|i: int|
            0 <= i < alerts_at(now).len() ==> knows_site(
                sites_at(now),
                #[trigger] alerts_at(now)[i].site_id,
            ),
        forall|i: int, j: int|
            0 <= i < pending_deployments_at(now).len() && 0 <= j < pending_deployments_at(
                now,
            )[i].sites.len() ==> knows_site(
                sites_at(now),
                #[trigger] pending_deployments_at(now)[i].sites[j],
            ),
{
    reveal_strlit("site-1");
    reveal_strlit("site-2");
    reveal_strlit("site-3");
    let sites = sites_at(now);
    assert(sites[0].id[5] == '1' && sites[1].id[5] == '2' && sites[2].id[5] == '3');
    assert(sites[0].id == "site-1"@ && sites[1].id == "site-2"@);
    assert forall|i: int| 0 <= i < alerts_at(now).len() implies knows_site(
        sites,
        #[trigger] alerts_at(now)[i].site_id,
    ) by {
        assert(alerts_at(now)[i].site_id == sites[1].id);
    }
    assert forall|i: int, j: int|
        0 <= i < pending_deployments_at(now).len() && 0 <= j < pending_deployments_at(
            now,
        )[i].sites.len() implies knows_site(
        sites,
        #[trigger] pending_deployments_at(now)[i].sites[j],
    ) by {
        assert(pending_deployments_at(now)[i].sites[j] == sites[j].id);
    }
}

/// A list of one tag.
fn one_tag(a: &str) -> (tags: Vec<String>)
    ensures
        texts(tags@) == seq![a@],
{
    let mut tags: Vec<String> = Vec::new();
    tags.push(a.to_owned());
    assert(texts(tags@) =~= seq![a@]);
    tags
}

/// A list of two tags.
fn two_tags(a: &str, b: &str) -> (tags: Vec<String>)
    ensures
        texts(tags@) == seq![a@, b@],
{
    let mut tags: Vec<String> = Vec::new();
    tags.push(a.to_owned());
    tags.push(b.to_owned());
    assert(texts(tags@) =~= seq![a@, b@]);
    tags
}

/// A handle on the control plane at one endpoint.
pub struct ApiClient {
    client: reqwest::Client,
    base_url: String,
}

impl ApiClient {
    /// The endpoint that requests go to, without a slash at its end.
    pub closed spec fn spec_base_url(&self) -> Seq<char> {
        self.base_url@
    }

    /// A client for the endpoint `base_url`, given what building the HTTP
    /// client gave: the client when that succeeded, its error when it did not.
    pub fn from_built(base_url: &str, built: Result<reqwest::Client, reqwest::Error>) -> (r: Result<
        ApiClient,
        ClientError,
    >)
        ensures
            match built {
                Ok(_) => r is Ok && r->Ok_0.spec_base_url() == without_trailing(base_url@, '/'),
                Err(e) => r is Err && r->Err_0.source == e,
            },
    {
        match built {
            Ok(client) => Ok(
                ApiClient { client, base_url: trim_end_matches(base_url, '/').to_owned() },
            ),
            Err(source) => Err(ClientError { source }),
        }
    }

    /// A client for the endpoint `base_url`. Server certificates are always
    /// checked. Whether a client can be built is up to the HTTP stack; when it
    /// can, the endpoint is kept without the slashes at its end.
    pub fn new(base_url: &str) -> (r: Result<ApiClient, ClientError>)
        ensures
            r matches Ok(c) ==> c.spec_base_url() == without_trailing(base_url@, '/'),
    {
        ApiClient::from_built(base_url, build_http_client(false))
    }

    /// The endpoint that requests go to, without a slash at its end.
    pub fn base_url(&self) -> (r: &str)
        ensures
            r@ == self.spec_base_url(),
    {
        self.base_url.as_str()
    }

    /// The sites of the fleet, `now` being the current instant. The control
    /// plane does not serve this request yet, so the answer is a fixed fleet
    /// of three sites whose times are counted from `now`.
    pub fn get_sites(&self, now: Timestamp) -> (r: Result<Vec<Site>, Failure>)
        ensures
            r is Ok,
            site_views(r->Ok_0@) == sites_at(now),
    {
        let mut sites: Vec<Site> = Vec::new();
        sites.push(
            Site {
                id: "site-1".to_owned(),
                domain: "example.com".to_owned(),
                status: SiteStatus::Healthy,
                last_sync: Some(now),
                config_hash: Some("sha256:abc123".to_owned()),
                response_time_ms: Some(145),
                ssl_expires: Some(now.plus_secs(60 * SECS_PER_DAY)),
                tags: two_tags("production", "wordpress"),
                environment: "production".to_owned(),
            },
        );
        sites.push(
            Site {
                id: "site-2".to_owned(),
                domain: "blog.example.com".to_owned(),
                status: SiteStatus::Warning,
                last_sync: Some(now.plus_secs(-2 * SECS_PER_HOUR)),
                config_hash: Some("sha256:def456".to_owned()),
                response_time_ms: Some(523),
                ssl_expires: Some(now.plus_secs(15 * SECS_PER_DAY)),
                tags: two_tags("production", "wordpress"),
                environment: "production".to_owned(),
            },
        );
        sites.push(
            Site {
                id: "site-3".to_owned(),
                domain: "staging.example.com".to_owned(),
                status: SiteStatus::Drifted,
                last_sync: Some(now.plus_secs(-SECS_PER_DAY)),
                config_hash: Some("sha256:ghi789".to_owned()),
                response_time_ms: Some(89),
                ssl_expires: Some(now.plus_secs(90 * SECS_PER_DAY)),
                tags: one_tag("staging"),
                environment: "staging".to_owned(),
            },
        );
        assert(site_views(sites@) =~= sites_at(now));
        Ok(sites)
    }

    /// The alerts of the fleet, `now` being the current instant. A fixed
    /// answer, as for [`ApiClient::get_sites`].
    pub fn get_alerts(&self, now: Timestamp) -> (r: Result<Vec<Alert>, Failure>)
        ensures
            r is Ok,
            alert_views(r->Ok_0@) == alerts_at(now),
    {
        let mut alerts: Vec<Alert> = Vec::new();
        alerts.push(
            Alert {
                id: "alert-1".to_owned(),
                site_id: "site-2".to_owned(),
                severity: AlertSeverity::Warning,
                message: "SSL certificate expires in 15 days".to_owned(),
                timestamp: now,
                acknowledged: false,
            },
        );
        alerts.push(
            Alert {
                id: "alert-2".to_owned(),
                site_id: "site-2".to_owned(),
                severity: AlertSeverity::Warning,
                message: "Response time > 500ms".to_owned(),
                timestamp: now.plus_secs(-SECS_PER_HOUR),
                acknowledged: false,
            },
        );
        assert(alert_views(alerts@) =~= alerts_at(now));
        Ok(alerts)
    }

    /// The deployments that wait to be rolled out, `now` being the current
    /// instant. A fixed answer, as for [`ApiClient::get_sites`].
    pub fn get_pending_deployments(&self, now: Timestamp) -> (r: Result<Vec<Deployment>, Failure>)
        ensures
            r is Ok,
            deployment_views(r->Ok_0@) == pending_deployments_at(now),
    {
        let mut deployments: Vec<Deployment> = Vec::new();
        deployments.push(
            Deployment {
                id: "deploy-1".to_owned(),
                sites: two_tags("site-1", "site-2"),
                change_type: "security-headers-update".to_owned(),
                scheduled: Some(now.plus_secs(6 * SECS_PER_HOUR)),
                status: DeploymentStatus::Pending,
            },
        );
        assert(deployment_views(deployments@) =~= pending_deployments_at(now));
        Ok(deployments)
    }

    /// Asks for a sync of the site `site_id`. The control plane does not
    /// serve this request yet: it is always acknowledged.
    pub fn sync_site(&self, site_id: &str) -> (r: Result<(), Failure>)
        ensures
            r is Ok,
    {
        Ok(())
    }

    /// The configuration diff of the site `site_id`. A fixed diff that names
    /// the site, as for [`ApiClient::get_sites`].
    pub fn get_config_diff(&self, site_id: &str) -> (r: Result<String, Failure>)
        ensures
            r is Ok,
            r->Ok_0@ == config_diff_for(site_id@),
    {
        let mut diff = "--- a/sites/".to_owned();
        diff.append(site_id);
        diff.append("/config.ncl\n+++ b/sites/");
        diff.append(site_id);
        diff.append(
            "/config.ncl\n@@ -15,7 +15,7 @@\n   security = {\n     headers = {\n-      x_frame_options = 'SAMEORIGIN,\n+      x_frame_options = 'DENY,\n       content_security_policy = \"default-src 'self'\",\n     },\n   },\n",
        );
        Ok(diff)
    }
}

} // verus!
