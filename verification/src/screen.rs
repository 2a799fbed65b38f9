//! The screens of the dashboard.

use vstd::prelude::*;

verus! {

/// The screen that is showing.
#[derive(Debug, Clone, Copy, PartialEq, Eq, Structural)]
pub enum View {
    Dashboard,
    SiteList,
    SiteDetail,
    Deployments,
    Secrets,
    Alerts,
    Logs,
    Help,
}

} // verus!
