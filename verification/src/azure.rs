//! Plain data carried to and from the Azure CLI flows: the logged-in
//! account and one monitor log record.  The flows themselves shell out to
//! the CLI and live outside this library.

use vstd::prelude::*;

verus! {

/// The account the Azure CLI reports being logged in to.
#[derive(Debug)]
pub struct AzAccountInfo {
    pub subscription_name: Option<String>,
    pub subscription_id: Option<String>,
    pub tenant_id: Option<String>,
}

/// One log record of a ContainerApps workload, as the monitor query
/// returns it.
#[derive(Debug, PartialEq, Eq)]
pub struct AzMonitorLog {
    pub time_generated: String,
    pub containerapp_name: String,
    pub table_name: String,
    pub log: String,
}

/// The mathematical content of an [`AzAccountInfo`].
#[verifier::ext_equal]
pub struct AzAccountInfoView {
    pub subscription_name: Option<Seq<char>>,
    pub subscription_id: Option<Seq<char>>,
    pub tenant_id: Option<Seq<char>>,
}

/// The mathematical content of an [`AzMonitorLog`].
#[verifier::ext_equal]
pub struct AzMonitorLogView {
    pub time_generated: Seq<char>,
    pub containerapp_name: Seq<char>,
    pub table_name: Seq<char>,
    pub log: Seq<char>,
}

impl View for AzAccountInfo {
    type V = AzAccountInfoView;

    open spec fn view(&self) -> AzAccountInfoView {
        AzAccountInfoView {
            subscription_name: self.subscription_name.deep_view(),
            subscription_id: self.subscription_id.deep_view(),
            tenant_id: self.tenant_id.deep_view(),
        }
    }
}

impl DeepView for AzAccountInfo {
    type V = AzAccountInfoView;

    open spec fn deep_view(&self) -> AzAccountInfoView {
        self.view()
    }
}

impl View for AzMonitorLog {
    type V = AzMonitorLogView;

    open spec fn view(&self) -> AzMonitorLogView {
        AzMonitorLogView {
            time_generated: self.time_generated@,
            containerapp_name: self.containerapp_name@,
            table_name: self.table_name@,
            log: self.log@,
        }
    }
}

impl DeepView for AzMonitorLog {
    type V = AzMonitorLogView;

    open spec fn deep_view(&self) -> AzMonitorLogView {
        self.view()
    }
}

impl Default for AzAccountInfo {
    /// An account with nothing known of it yet.
    fn default() -> (r: Self)
        ensures
            r@.subscription_name is None,
            r@.subscription_id is None,
            r@.tenant_id is None,
    {
        AzAccountInfo { subscription_name: None, subscription_id: None, tenant_id: None }
    }
}

} // verus!
