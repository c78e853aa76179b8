//! The command surfaces of the tool as validated builders: each command
//! accumulates its parameters through `with_` methods and checks them at
//! the terminal step, reporting every missing field at once.  The terminal
//! steps that shell out or touch files live outside this library; what is
//! here is the conversion fan-out over a Compose file's services and the
//! plain state the outer flows read.

use vstd::prelude::*;
use vstd::string::StringExecFns;
use crate::compose::{Compose, EnvironmentResolution, EnvironmentResolutionView, ServiceView};
use crate::containerapps::{ContainerAppConfig, ContainerAppConfigView};
use crate::convert::{convert_to_containerapps, ingress_expose_ok, spec_convert_to_containerapps};
use crate::errors::{ConvertError, ConvertErrorView};

verus! {

/// One converted service: its configuration document, the resource group
/// it deploys into, and the file path the document is written to.
#[derive(Debug)]
pub struct ConvertedComposeConfiguration {
    pub configuration: ContainerAppConfig,
    pub resource_group: String,
    pub path: String,
}

/// The mathematical content of a [`ConvertedComposeConfiguration`].
#[verifier::ext_equal]
pub struct ConvertedComposeConfigurationView {
    pub configuration: ContainerAppConfigView,
    pub resource_group: Seq<char>,
    pub path: Seq<char>,
}

impl View for ConvertedComposeConfiguration {
    type V = ConvertedComposeConfigurationView;

    open spec fn view(&self) -> ConvertedComposeConfigurationView {
        ConvertedComposeConfigurationView {
            configuration: self.configuration@,
            resource_group: self.resource_group@,
            path: self.path@,
        }
    }
}

impl DeepView for ConvertedComposeConfiguration {
    type V = ConvertedComposeConfigurationView;

    open spec fn deep_view(&self) -> ConvertedComposeConfigurationView {
        self.view()
    }
}

impl Clone for ConvertedComposeConfiguration {
    fn clone(&self) -> (r: Self)
        ensures
            r@ == self@,
    {
        let r = ConvertedComposeConfiguration {
            configuration: self.configuration.clone(),
            resource_group: self.resource_group.clone(),
            path: self.path.clone(),
        };
        proof {
            assert(r@ =~= self@);
        }
        r
    }
}

/// The output path of one service's document: the service name, a dash,
/// then the base output name.
pub open spec fn spec_service_path(name: Seq<char>, base: Seq<char>) -> Seq<char> {
    name + "-"@ + base
}

/// The converted configurations of every service whose conversion
/// succeeds, in file order.
pub open spec fn spec_converted_configurations(
    services: Seq<(Seq<char>, ServiceView)>,
    resource_group: Seq<char>,
    location: Seq<char>,
    containerapps_environment_id: Seq<char>,
    res: Seq<EnvironmentResolutionView>,
    base_path: Seq<char>,
) -> Seq<ConvertedComposeConfigurationView>
    decreases services.len(),
{
    if services.len() == 0 {
        Seq::empty()
    } else {
        spec_converted_configurations(
            services.drop_last(),
            resource_group,
            location,
            containerapps_environment_id,
            res,
            base_path,
        ) + (match spec_convert_to_containerapps(
            services.last().0,
            services.last().1,
            resource_group,
            location,
            containerapps_environment_id,
            res,
        ) {
            Ok(c) => seq![
                ConvertedComposeConfigurationView {
                    configuration: c,
                    resource_group: resource_group,
                    path: spec_service_path(services.last().0, base_path),
                },
            ],
            Err(_) => Seq::empty(),
        })
    }
}

/// The failures of every service whose conversion fails, in file order,
/// each under its service name.
pub open spec fn spec_conversion_failures(
    services: Seq<(Seq<char>, ServiceView)>,
    resource_group: Seq<char>,
    location: Seq<char>,
    containerapps_environment_id: Seq<char>,
    res: Seq<EnvironmentResolutionView>,
) -> Seq<(Seq<char>, ConvertErrorView)>
    decreases services.len(),
{
    if services.len() == 0 {
        Seq::empty()
    } else {
        spec_conversion_failures(
            services.drop_last(),
            resource_group,
            location,
            containerapps_environment_id,
            res,
        ) + (match spec_convert_to_containerapps(
            services.last().0,
            services.last().1,
            resource_group,
            location,
            containerapps_environment_id,
            res,
        ) {
            Ok(_) => Seq::empty(),
            Err(e) => seq![(services.last().0, e)],
        })
    }
}

/// Converts a whole Compose file into one configuration document per
/// service, against parameters accumulated through its `with_` methods.
pub struct ConvertComposeCommand {
    compose_path: String,
    containerapps_path: String,
    containerapps_configs: Vec<ConvertedComposeConfiguration>,
    failures: Vec<(String, ConvertError)>,
    resource_group: Option<String>,
    location: Option<String>,
    containerapps_environment_id: Option<String>,
}

/// The mathematical content of a [`ConvertComposeCommand`].
#[verifier::ext_equal]
pub struct ConvertComposeCommandView {
    pub compose_path: Seq<char>,
    pub containerapps_path: Seq<char>,
    pub containerapps_configs: Seq<ConvertedComposeConfigurationView>,
    pub failures: Seq<(Seq<char>, ConvertErrorView)>,
    pub resource_group: Option<Seq<char>>,
    pub location: Option<Seq<char>>,
    pub containerapps_environment_id: Option<Seq<char>>,
}

impl View for ConvertComposeCommand {
    type V = ConvertComposeCommandView;

    closed spec fn view(&self) -> ConvertComposeCommandView {
        ConvertComposeCommandView {
            compose_path: self.compose_path@,
            containerapps_path: self.containerapps_path@,
            containerapps_configs: self.containerapps_configs.deep_view(),
            failures: self.failures.deep_view(),
            resource_group: self.resource_group.deep_view(),
            location: self.location.deep_view(),
            containerapps_environment_id: self.containerapps_environment_id.deep_view(),
        }
    }
}

/// The names of the required parameters this command is still missing, in
/// the order they are always reported.
pub open spec fn spec_missing_parameters(c: ConvertComposeCommandView) -> Seq<Seq<char>> {
    (if c.resource_group is None {
        seq!["resource_group"@]
    } else {
        Seq::empty()
    }) + (if c.location is None {
        seq!["location"@]
    } else {
        Seq::empty()
    }) + (if c.containerapps_environment_id is None {
        seq!["containerapps_environment_id"@]
    } else {
        Seq::empty()
    })
}

impl Default for ConvertComposeCommand {
    /// A command with no parameters supplied and nothing converted yet.
    fn default() -> (r: Self)
        ensures
            r@.compose_path.len() == 0,
            r@.containerapps_path.len() == 0,
            r@.containerapps_configs =~= Seq::<ConvertedComposeConfigurationView>::empty(),
            r@.failures =~= Seq::<(Seq<char>, ConvertErrorView)>::empty(),
            r@.resource_group is None,
            r@.location is None,
            r@.containerapps_environment_id is None,
    {
        ConvertComposeCommand {
            compose_path: String::new(),
            containerapps_path: String::new(),
            containerapps_configs: Vec::new(),
            failures: Vec::new(),
            resource_group: None,
            location: None,
            containerapps_environment_id: None,
        }
    }
}

impl ConvertComposeCommand {
    /// Sets the path the Compose file is read from.
    pub fn with_compose_path(self, compose_file_path: &str) -> (r: Self)
        ensures
            r@ == (ConvertComposeCommandView { compose_path: compose_file_path@, ..self@ }),
    {
        let ghost old_view = self@;
        let r = ConvertComposeCommand { compose_path: compose_file_path.to_owned(), ..self };
        proof {
            assert(r@ =~= (ConvertComposeCommandView {
                compose_path: compose_file_path@,
                ..old_view
            }));
        }
        r
    }

    /// Sets the base name the output documents are written under.
    pub fn with_containerapps_path(self, containerapps_file_path: &str) -> (r: Self)
        ensures
            r@ == (ConvertComposeCommandView {
                containerapps_path: containerapps_file_path@,
                ..self@
            }),
    {
        let ghost old_view = self@;
        let r = ConvertComposeCommand {
            containerapps_path: containerapps_file_path.to_owned(),
            ..self
        };
        proof {
            assert(r@ =~= (ConvertComposeCommandView {
                containerapps_path: containerapps_file_path@,
                ..old_view
            }));
        }
        r
    }

    /// Sets the resource group, when one was supplied.
    pub fn with_resource_group(self, resource_group: Option<&str>) -> (r: Self)
        ensures
            r@ == (ConvertComposeCommandView {
                resource_group: resource_group.deep_view(),
                ..self@
            }),
    {
        let ghost old_view = self@;
        let r = ConvertComposeCommand {
            resource_group: match resource_group {
                Some(v) => Some(v.to_owned()),
                None => None,
            },
            ..self
        };
        proof {
            assert(r@ =~= (ConvertComposeCommandView {
                resource_group: resource_group.deep_view(),
                ..old_view
            }));
        }
        r
    }

    /// Sets the Azure region, when one was supplied.
    pub fn with_location(self, location: Option<&str>) -> (r: Self)
        ensures
            r@ == (ConvertComposeCommandView { location: location.deep_view(), ..self@ }),
    {
        let ghost old_view = self@;
        let r = ConvertComposeCommand {
            location: match location {
                Some(v) => Some(v.to_owned()),
                None => None,
            },
            ..self
        };
        proof {
            assert(r@ =~= (ConvertComposeCommandView {
                location: location.deep_view(),
                ..old_view
            }));
        }
        r
    }

    /// Sets the ContainerApps environment resource identifier, when one was
    /// supplied.
    pub fn with_containerapps_environment_id(
        self,
        containerapps_environment_id: Option<&str>,
    ) -> (r: Self)
        ensures
            r@ == (ConvertComposeCommandView {
                containerapps_environment_id: containerapps_environment_id.deep_view(),
                ..self@
            }),
    {
        let ghost old_view = self@;
        let r = ConvertComposeCommand {
            containerapps_environment_id: match containerapps_environment_id {
                Some(v) => Some(v.to_owned()),
                None => None,
            },
            ..self
        };
        proof {
            assert(r@ =~= (ConvertComposeCommandView {
                containerapps_environment_id: containerapps_environment_id.deep_view(),
                ..old_view
            }));
        }
        r
    }

    /// Converts every service of the given Compose file.  All three
    /// deployment parameters must have been supplied; when any are missing
    /// the command fails up front, naming every missing one.  A service
    /// whose conversion fails does not stop the others: it is recorded
    /// under its name beside the successful configurations.
    pub fn convert(
        self,
        compose_file: Compose,
        resolutions: &Vec<EnvironmentResolution>,
    ) -> (r: Result<Self, ConvertError>)
        requires
            forall|k: int| 0 <= k < compose_file@.services.len()
                ==> ingress_expose_ok((#[trigger] compose_file@.services[k]).1),
        ensures
            spec_missing_parameters(self@).len() > 0 ==> (r matches Err(e) && e@
                == ConvertErrorView::MissingParameters(spec_missing_parameters(self@))),
            spec_missing_parameters(self@).len() == 0 ==> (r matches Ok(c) && c@
                == (ConvertComposeCommandView {
                containerapps_configs: spec_converted_configurations(
                    compose_file@.services,
                    self@.resource_group->Some_0,
                    self@.location->Some_0,
                    self@.containerapps_environment_id->Some_0,
                    resolutions.deep_view(),
                    self@.containerapps_path,
                ),
                failures: spec_conversion_failures(
                    compose_file@.services,
                    self@.resource_group->Some_0,
                    self@.location->Some_0,
                    self@.containerapps_environment_id->Some_0,
                    resolutions.deep_view(),
                ),
                ..self@
            })),
    {
        let ghost self_view = self@;
        let mut missing: Vec<String> = Vec::new();
        if self.resource_group.is_none() {
            missing.push(String::from_str("resource_group"));
        }
        if self.location.is_none() {
            missing.push(String::from_str("location"));
        }
        if self.containerapps_environment_id.is_none() {
            missing.push(String::from_str("containerapps_environment_id"));
        }
        proof {
            assert(missing.deep_view() =~= spec_missing_parameters(self_view));
        }
        if missing.len() > 0 {
            return Err(ConvertError::MissingParameters(missing));
        }
        let resource_group = match &self.resource_group {
            Some(v) => v.clone(),
            None => vstd::pervasive::unreached(),
        };
        let location = match &self.location {
            Some(v) => v.clone(),
            None => vstd::pervasive::unreached(),
        };
        let containerapps_environment_id = match &self.containerapps_environment_id {
            Some(v) => v.clone(),
            None => vstd::pervasive::unreached(),
        };
        let ghost all = compose_file@.services;
        let ghost rres = resolutions.deep_view();
        let mut configs: Vec<ConvertedComposeConfiguration> = Vec::new();
        let mut failures: Vec<(String, ConvertError)> = Vec::new();
        let n = compose_file.services.len();
        let mut i: usize = 0;
        while i < n
            invariant
                0 <= i <= n,
                n == all.len(),
                all == compose_file@.services,
                rres == resolutions.deep_view(),
                forall|k: int| 0 <= k < all.len() ==> ingress_expose_ok((#[trigger] all[k]).1),
                configs.deep_view() == spec_converted_configurations(
                    all.take(i as int),
                    resource_group@,
                    location@,
                    containerapps_environment_id@,
                    rres,
                    self.containerapps_path@,
                ),
                failures.deep_view() == spec_conversion_failures(
                    all.take(i as int),
                    resource_group@,
                    location@,
                    containerapps_environment_id@,
                    rres,
                ),
            decreases n - i,
        {
            proof {
                assert(all.take(i + 1).drop_last() =~= all.take(i as int));
                assert(all.take(i + 1).last() == all[i as int]);
            }
            let pair = &compose_file.services[i];
            let path = pair.0.clone().concat("-").concat(self.containerapps_path.as_str());
            proof {
                assert(path@ == spec_service_path(all[i as int].0, self.containerapps_path@));
            }
            match convert_to_containerapps(
                pair.0.as_str(),
                &pair.1,
                resource_group.as_str(),
                location.as_str(),
                containerapps_environment_id.as_str(),
                resolutions,
            ) {
                Ok(configuration) => {
                    let ghost before = configs.deep_view();
                    configs.push(ConvertedComposeConfiguration {
                        configuration,
                        resource_group: resource_group.clone(),
                        path,
                    });
                    proof {
                        assert(configs.deep_view() =~= before.push(
                            configs.deep_view().last(),
                        ));
                        assert(configs.deep_view() =~= spec_converted_configurations(
                            all.take(i + 1),
                            resource_group@,
                            location@,
                            containerapps_environment_id@,
                            rres,
                            self.containerapps_path@,
                        ));
                        assert(failures.deep_view() =~= spec_conversion_failures(
                            all.take(i + 1),
                            resource_group@,
                            location@,
                            containerapps_environment_id@,
                            rres,
                        ));
                    }
                },
                Err(e) => {
                    let ghost before = failures.deep_view();
                    failures.push((pair.0.clone(), e));
                    proof {
                        assert(failures.deep_view() =~= before.push(
                            failures.deep_view().last(),
                        ));
                        assert(failures.deep_view() =~= spec_conversion_failures(
                            all.take(i + 1),
                            resource_group@,
                            location@,
                            containerapps_environment_id@,
                            rres,
                        ));
                        assert(configs.deep_view() =~= spec_converted_configurations(
                            all.take(i + 1),
                            resource_group@,
                            location@,
                            containerapps_environment_id@,
                            rres,
                            self.containerapps_path@,
                        ));
                    }
                },
            }
            i = i + 1;
        }
        proof {
            assert(all.take(n as int) =~= all);
        }
        let mut updated = self;
        updated.containerapps_configs = configs;
        updated.failures = failures;
        proof {
            assert(updated@ =~= (ConvertComposeCommandView {
                containerapps_configs: spec_converted_configurations(
                    all,
                    self_view.resource_group->Some_0,
                    self_view.location->Some_0,
                    self_view.containerapps_environment_id->Some_0,
                    rres,
                    self_view.containerapps_path,
                ),
                failures: spec_conversion_failures(
                    all,
                    self_view.resource_group->Some_0,
                    self_view.location->Some_0,
                    self_view.containerapps_environment_id->Some_0,
                    rres,
                ),
                ..self_view
            }));
        }
        Ok(updated)
    }

    /// The configurations of the services converted so far.
    pub fn get_configurations(&self) -> (r: Vec<ConvertedComposeConfiguration>)
        ensures
            r.deep_view() == self@.containerapps_configs,
    {
        let mut r: Vec<ConvertedComposeConfiguration> = Vec::new();
        let n = self.containerapps_configs.len();
        let mut i: usize = 0;
        while i < n
            invariant
                0 <= i <= n,
                n == self.containerapps_configs@.len(),
                r.deep_view() == self.containerapps_configs.deep_view().take(i as int),
            decreases n - i,
        {
            let ghost before = r.deep_view();
            r.push(self.containerapps_configs[i].clone());
            proof {
                assert(r.deep_view() =~= before.push(
                    self.containerapps_configs.deep_view()[i as int],
                ));
                assert(r.deep_view() =~= self.containerapps_configs.deep_view().take(i + 1));
            }
            i = i + 1;
        }
        proof {
            assert(self.containerapps_configs.deep_view().take(n as int)
                =~= self.containerapps_configs.deep_view());
        }
        r
    }

    /// The services whose conversion failed, each under its name.
    pub fn get_failures(&self) -> (r: &Vec<(String, ConvertError)>)
        ensures
            r.deep_view() == self@.failures,
    {
        &self.failures
    }
}

/// Deploys previously converted configurations; accumulating them is the
/// part of that flow that lives here.
pub struct DeployAzureCommand {
    configurations: Vec<ConvertedComposeConfiguration>,
}

/// The mathematical content of a [`DeployAzureCommand`].
#[verifier::ext_equal]
pub struct DeployAzureCommandView {
    pub configurations: Seq<ConvertedComposeConfigurationView>,
}

impl View for DeployAzureCommand {
    type V = DeployAzureCommandView;

    closed spec fn view(&self) -> DeployAzureCommandView {
        DeployAzureCommandView { configurations: self.configurations.deep_view() }
    }
}

impl Default for DeployAzureCommand {
    fn default() -> (r: Self)
        ensures
            r@.configurations =~= Seq::<ConvertedComposeConfigurationView>::empty(),
    {
        DeployAzureCommand { configurations: Vec::new() }
    }
}

impl DeployAzureCommand {
    /// Sets the configurations to deploy.
    pub fn with_configurations(
        self,
        configurations: Vec<ConvertedComposeConfiguration>,
    ) -> (r: Self)
        ensures
            r@.configurations == configurations.deep_view(),
    {
        DeployAzureCommand { configurations }
    }

    /// The configurations to deploy: the deployment loop itself shells out
    /// to the Azure CLI and reads them from here.
    pub fn get_configurations(&self) -> (r: &Vec<ConvertedComposeConfiguration>)
        ensures
            r.deep_view() == self@.configurations,
    {
        &self.configurations
    }
}

/// Retrieves a workload's logs; accumulating the query parameters is the
/// part of that flow that lives here.
pub struct RetrieveLogsCommand {
    log_analytics_client_id: String,
    resource_group: String,
    name: Option<String>,
    containerapps_environment_name: Option<String>,
    containerapps_environment_resource_id: Option<String>,
}

/// The mathematical content of a [`RetrieveLogsCommand`].
#[verifier::ext_equal]
pub struct RetrieveLogsCommandView {
    pub log_analytics_client_id: Seq<char>,
    pub resource_group: Seq<char>,
    pub name: Option<Seq<char>>,
    pub containerapps_environment_name: Option<Seq<char>>,
    pub containerapps_environment_resource_id: Option<Seq<char>>,
}

impl View for RetrieveLogsCommand {
    type V = RetrieveLogsCommandView;

    closed spec fn view(&self) -> RetrieveLogsCommandView {
        RetrieveLogsCommandView {
            log_analytics_client_id: self.log_analytics_client_id@,
            resource_group: self.resource_group@,
            name: self.name.deep_view(),
            containerapps_environment_name: self.containerapps_environment_name.deep_view(),
            containerapps_environment_resource_id: (
                self.containerapps_environment_resource_id.deep_view()
            ),
        }
    }
}

impl Default for RetrieveLogsCommand {
    fn default() -> (r: Self)
        ensures
            r@.log_analytics_client_id.len() == 0,
            r@.resource_group.len() == 0,
            r@.name is None,
            r@.containerapps_environment_name is None,
            r@.containerapps_environment_resource_id is None,
    {
        RetrieveLogsCommand {
            log_analytics_client_id: String::new(),
            resource_group: String::new(),
            name: None,
            containerapps_environment_name: None,
            containerapps_environment_resource_id: None,
        }
    }
}

impl RetrieveLogsCommand {
    /// Sets the Log Analytics workspace client identifier, when one was
    /// supplied; an absent one leaves the field empty.
    pub fn with_log_analytics_client_id(self, log_analytics_client_id: Option<&str>) -> (r: Self)
        ensures
            r@ == (RetrieveLogsCommandView {
                log_analytics_client_id: match log_analytics_client_id {
                    Some(v) => v@,
                    None => self@.log_analytics_client_id,
                },
                ..self@
            }),
    {
        let ghost old_view = self@;
        let r = match log_analytics_client_id {
            Some(v) => RetrieveLogsCommand { log_analytics_client_id: v.to_owned(), ..self },
            None => self,
        };
        proof {
            assert(r@ =~= (RetrieveLogsCommandView {
                log_analytics_client_id: match log_analytics_client_id {
                    Some(v) => v@,
                    None => old_view.log_analytics_client_id,
                },
                ..old_view
            }));
        }
        r
    }

    /// Sets the resource group, when one was supplied; an absent one leaves
    /// the field empty.
    pub fn with_resource_group(self, resource_group: Option<&str>) -> (r: Self)
        ensures
            r@ == (RetrieveLogsCommandView {
                resource_group: match resource_group {
                    Some(v) => v@,
                    None => self@.resource_group,
                },
                ..self@
            }),
    {
        let ghost old_view = self@;
        let r = match resource_group {
            Some(v) => RetrieveLogsCommand { resource_group: v.to_owned(), ..self },
            None => self,
        };
        proof {
            assert(r@ =~= (RetrieveLogsCommandView {
                resource_group: match resource_group {
                    Some(v) => v@,
                    None => old_view.resource_group,
                },
                ..old_view
            }));
        }
        r
    }

    /// Sets the workload name to filter the logs by.
    pub fn with_name(self, name: Option<&str>) -> (r: Self)
        ensures
            r@ == (RetrieveLogsCommandView { name: name.deep_view(), ..self@ }),
    {
        let ghost old_view = self@;
        let r = RetrieveLogsCommand {
            name: match name {
                Some(v) => Some(v.to_owned()),
                None => None,
            },
            ..self
        };
        proof {
            assert(r@ =~= (RetrieveLogsCommandView { name: name.deep_view(), ..old_view }));
        }
        r
    }

    /// Sets the environment's resource identifier.
    pub fn with_containerapps_environment_resource_id(
        self,
        containerapps_environment_resource_id: Option<&str>,
    ) -> (r: Self)
        ensures
            r@ == (RetrieveLogsCommandView {
                containerapps_environment_resource_id: (
                    containerapps_environment_resource_id.deep_view()
                ),
                ..self@
            }),
    {
        let ghost old_view = self@;
        let r = RetrieveLogsCommand {
            containerapps_environment_resource_id: match containerapps_environment_resource_id {
                Some(v) => Some(v.to_owned()),
                None => None,
            },
            ..self
        };
        proof {
            assert(r@ =~= (RetrieveLogsCommandView {
                containerapps_environment_resource_id: (
                    containerapps_environment_resource_id.deep_view()
                ),
                ..old_view
            }));
        }
        r
    }

    /// Sets the environment's name.
    pub fn with_containerapps_environment_name(
        self,
        containerapps_environment_name: Option<&str>,
    ) -> (r: Self)
        ensures
            r@ == (RetrieveLogsCommandView {
                containerapps_environment_name: containerapps_environment_name.deep_view(),
                ..self@
            }),
    {
        let ghost old_view = self@;
        let r = RetrieveLogsCommand {
            containerapps_environment_name: match containerapps_environment_name {
                Some(v) => Some(v.to_owned()),
                None => None,
            },
            ..self
        };
        proof {
            assert(r@ =~= (RetrieveLogsCommandView {
                containerapps_environment_name: containerapps_environment_name.deep_view(),
                ..old_view
            }));
        }
        r
    }
}

/// Validates the Azure login state and settles on an environment;
/// accumulating the parameters and reading the outcome are the parts of
/// that flow that live here.
pub struct ValidateAzureCommand {
    subscription_name: Option<String>,
    resource_group: Option<String>,
    location: Option<String>,
    containerapps_environment_name: Option<String>,
    containerapps_environment_resource_id: Option<String>,
}

/// The mathematical content of a [`ValidateAzureCommand`].
#[verifier::ext_equal]
pub struct ValidateAzureCommandView {
    pub subscription_name: Option<Seq<char>>,
    pub resource_group: Option<Seq<char>>,
    pub location: Option<Seq<char>>,
    pub containerapps_environment_name: Option<Seq<char>>,
    pub containerapps_environment_resource_id: Option<Seq<char>>,
}

impl View for ValidateAzureCommand {
    type V = ValidateAzureCommandView;

    closed spec fn view(&self) -> ValidateAzureCommandView {
        ValidateAzureCommandView {
            subscription_name: self.subscription_name.deep_view(),
            resource_group: self.resource_group.deep_view(),
            location: self.location.deep_view(),
            containerapps_environment_name: self.containerapps_environment_name.deep_view(),
            containerapps_environment_resource_id: (
                self.containerapps_environment_resource_id.deep_view()
            ),
        }
    }
}

impl Default for ValidateAzureCommand {
    fn default() -> (r: Self)
        ensures
            r@.subscription_name is None,
            r@.resource_group is None,
            r@.location is None,
            r@.containerapps_environment_name is None,
            r@.containerapps_environment_resource_id is None,
    {
        ValidateAzureCommand {
            subscription_name: None,
            resource_group: None,
            location: None,
            containerapps_environment_name: None,
            containerapps_environment_resource_id: None,
        }
    }
}

impl ValidateAzureCommand {
    /// Sets the subscription name to log in against.
    pub fn with_subscription_name(self, subscription_name: Option<&str>) -> (r: Self)
        ensures
            r@ == (ValidateAzureCommandView {
                subscription_name: subscription_name.deep_view(),
                ..self@
            }),
    {
        let ghost old_view = self@;
        let r = ValidateAzureCommand {
            subscription_name: match subscription_name {
                Some(v) => Some(v.to_owned()),
                None => None,
            },
            ..self
        };
        proof {
            assert(r@ =~= (ValidateAzureCommandView {
                subscription_name: subscription_name.deep_view(),
                ..old_view
            }));
        }
        r
    }

    /// Sets the resource group.
    pub fn with_resource_group(self, resource_group: Option<&str>) -> (r: Self)
        ensures
            r@ == (ValidateAzureCommandView { resource_group: resource_group.deep_view(), ..self@ }),
    {
        let ghost old_view = self@;
        let r = ValidateAzureCommand {
            resource_group: match resource_group {
                Some(v) => Some(v.to_owned()),
                None => None,
            },
            ..self
        };
        proof {
            assert(r@ =~= (ValidateAzureCommandView {
                resource_group: resource_group.deep_view(),
                ..old_view
            }));
        }
        r
    }

    /// Sets the Azure region.
    pub fn with_location(self, location: Option<&str>) -> (r: Self)
        ensures
            r@ == (ValidateAzureCommandView { location: location.deep_view(), ..self@ }),
    {
        let ghost old_view = self@;
        let r = ValidateAzureCommand {
            location: match location {
                Some(v) => Some(v.to_owned()),
                None => None,
            },
            ..self
        };
        proof {
            assert(r@ =~= (ValidateAzureCommandView {
                location: location.deep_view(),
                ..old_view
            }));
        }
        r
    }

    /// Sets the environment's name.
    pub fn with_containerapps_environment_name(
        self,
        containerapps_environment_name: Option<&str>,
    ) -> (r: Self)
        ensures
            r@ == (ValidateAzureCommandView {
                containerapps_environment_name: containerapps_environment_name.deep_view(),
                ..self@
            }),
    {
        let ghost old_view = self@;
        let r = ValidateAzureCommand {
            containerapps_environment_name: match containerapps_environment_name {
                Some(v) => Some(v.to_owned()),
                None => None,
            },
            ..self
        };
        proof {
            assert(r@ =~= (ValidateAzureCommandView {
                containerapps_environment_name: containerapps_environment_name.deep_view(),
                ..old_view
            }));
        }
        r
    }

    /// Sets the environment's resource identifier.
    pub fn with_containerapps_environment_resource_id(
        self,
        containerapps_environment_resource_id: Option<&str>,
    ) -> (r: Self)
        ensures
            r@ == (ValidateAzureCommandView {
                containerapps_environment_resource_id: (
                    containerapps_environment_resource_id.deep_view()
                ),
                ..self@
            }),
    {
        let ghost old_view = self@;
        let r = ValidateAzureCommand {
            containerapps_environment_resource_id: match containerapps_environment_resource_id {
                Some(v) => Some(v.to_owned()),
                None => None,
            },
            ..self
        };
        proof {
            assert(r@ =~= (ValidateAzureCommandView {
                containerapps_environment_resource_id: (
                    containerapps_environment_resource_id.deep_view()
                ),
                ..old_view
            }));
        }
        r
    }

    /// The environment resource identifier the validation flow settled on,
    /// when it settled on one.
    pub fn containerapps_environment_id(&self) -> (r: Result<Option<String>, ConvertError>)
        ensures
            r matches Ok(v) && v.deep_view() == self@.containerapps_environment_resource_id,
    {
        match &self.containerapps_environment_resource_id {
            Some(v) => Ok(Some(v.clone())),
            None => Ok(None),
        }
    }
}

} // verus!
