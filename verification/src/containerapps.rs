//! The Azure ContainerApps configuration model: the target schema of the
//! conversion, mirrored field for field.
//!
//! Every type carries a mathematical view so that the conversion contracts
//! can pin each field of a produced configuration down to its inputs.  The
//! serialized wire names (`resourceGroup`, `kubeEnvironmentId`,
//! `activeRevisionsMode`, `targetPort`, `minReplicas`, ...) belong to the
//! document writer outside this library; here the fields keep their model
//! names.

use vstd::prelude::*;
use vstd::string::StringExecFns;
use crate::compose::clone_string_vec;

verus! {

/// The root of one ContainerApps configuration document.
#[derive(Debug, PartialEq)]
pub struct ContainerAppConfig {
    /// The fixed kind literal, `"containerapp"`; omitted in the
    /// ARM-embedded form.
    pub kind: Option<String>,
    /// The schema version string, set only in the ARM-embedded form.
    pub api_version: Option<String>,
    pub location: String,
    pub name: String,
    /// Omitted in the ARM-embedded form.
    pub resource_group: Option<String>,
    /// The fixed resource type literal, `"Microsoft.Web/containerApps"`.
    pub resource_type: String,
    pub tags: Option<Vec<(String, String)>>,
    pub properties: Properties,
}

/// The `properties` block of a configuration.
#[derive(Debug, PartialEq)]
pub struct Properties {
    /// The resource identifier of the target ContainerApps environment.
    pub kube_environment_id: String,
    pub configuration: Configuration,
    pub template: Template,
}

/// The `configuration` block: revision mode, secrets, ingress, registries.
#[derive(Debug, PartialEq)]
pub struct Configuration {
    pub active_revisions_mode: RevisionMode,
    pub secrets: Vec<SecretsConfiguration>,
    pub ingress: IngressConfiguration,
    pub registries: Vec<ContainerRegistry>,
}

/// How revisions of the workload are activated.
#[derive(Clone, Copy, Debug, PartialEq, Eq, Structural)]
pub enum RevisionMode {
    Multiple,
    Single,
}

/// One named secret of the configuration.
#[derive(Debug, PartialEq)]
pub struct SecretsConfiguration {
    pub name: String,
    pub value: String,
}

/// The ingress configuration: whether the workload is published externally
/// and through which single container port.
#[derive(Debug, PartialEq)]
pub struct IngressConfiguration {
    pub external: bool,
    pub allow_insecure: bool,
    pub target_port: Option<u16>,
    pub traffic: Vec<TrafficConfiguration>,
    pub transport: Transport,
}

/// The transport protocol of an ingress.
#[derive(Clone, Copy, Debug, PartialEq, Eq, Structural)]
pub enum Transport {
    Auto,
    Http,
    Http2,
}

/// One weighted revision routing entry of an ingress.
#[derive(Clone, Copy, Debug, PartialEq)]
pub struct TrafficConfiguration {
    pub latest_revision: Option<bool>,
    pub weight: Option<u32>,
}

/// One container registry credential reference.
#[derive(Debug, PartialEq)]
pub struct ContainerRegistry {
    pub server: String,
    pub username: String,
    pub password_secret_ref: String,
}

/// The `template` block: the containers and their scaling.
#[derive(Debug, PartialEq)]
pub struct Template {
    pub revision_suffix: Option<String>,
    pub containers: Vec<Container>,
    pub scale: ScaleConfiguration,
}

/// One container of a template.
#[derive(Debug, PartialEq)]
pub struct Container {
    pub image: String,
    pub name: Option<String>,
    pub env: Vec<EnvironmentConfiguration>,
    pub resources: Option<ResourceConfiguration>,
    pub command: Vec<String>,
    pub args: Vec<String>,
}

/// One environment entry of a container.  The conversion sets exactly one of
/// `value` and `secret_ref`, and it only ever sets `value`.
#[derive(Debug, PartialEq)]
pub struct EnvironmentConfiguration {
    pub name: String,
    pub value: Option<String>,
    pub secret_ref: Option<String>,
}

/// Optional cpu and memory limits of a container.
#[derive(Debug, PartialEq)]
pub struct ResourceConfiguration {
    pub cpu: Option<String>,
    pub memory: Option<String>,
}

/// How many replicas a template scales between.
#[derive(Clone, Copy, Debug, PartialEq, Eq)]
pub struct ScaleConfiguration {
    pub min_replicas: u32,
    pub max_replicas: Option<u32>,
}

/// The mathematical content of a [`ContainerAppConfig`].
#[verifier::ext_equal]
pub struct ContainerAppConfigView {
    pub kind: Option<Seq<char>>,
    pub api_version: Option<Seq<char>>,
    pub location: Seq<char>,
    pub name: Seq<char>,
    pub resource_group: Option<Seq<char>>,
    pub resource_type: Seq<char>,
    pub tags: Option<Seq<(Seq<char>, Seq<char>)>>,
    pub properties: PropertiesView,
}

/// The mathematical content of a [`Properties`].
#[verifier::ext_equal]
pub struct PropertiesView {
    pub kube_environment_id: Seq<char>,
    pub configuration: ConfigurationView,
    pub template: TemplateView,
}

/// The mathematical content of a [`Configuration`].
#[verifier::ext_equal]
pub struct ConfigurationView {
    pub active_revisions_mode: RevisionMode,
    pub secrets: Seq<SecretsConfigurationView>,
    pub ingress: IngressConfigurationView,
    pub registries: Seq<ContainerRegistryView>,
}

/// The mathematical content of a [`SecretsConfiguration`].
#[verifier::ext_equal]
pub struct SecretsConfigurationView {
    pub name: Seq<char>,
    pub value: Seq<char>,
}

/// The mathematical content of an [`IngressConfiguration`].
#[verifier::ext_equal]
pub struct IngressConfigurationView {
    pub external: bool,
    pub allow_insecure: bool,
    pub target_port: Option<u16>,
    pub traffic: Seq<TrafficConfiguration>,
    pub transport: Transport,
}

/// The mathematical content of a [`ContainerRegistry`].
#[verifier::ext_equal]
pub struct ContainerRegistryView {
    pub server: Seq<char>,
    pub username: Seq<char>,
    pub password_secret_ref: Seq<char>,
}

/// The mathematical content of a [`Template`].
#[verifier::ext_equal]
pub struct TemplateView {
    pub revision_suffix: Option<Seq<char>>,
    pub containers: Seq<ContainerView>,
    pub scale: ScaleConfiguration,
}

/// The mathematical content of a [`Container`].
#[verifier::ext_equal]
pub struct ContainerView {
    pub image: Seq<char>,
    pub name: Option<Seq<char>>,
    pub env: Seq<EnvironmentConfigurationView>,
    pub resources: Option<ResourceConfigurationView>,
    pub command: Seq<Seq<char>>,
    pub args: Seq<Seq<char>>,
}

/// The mathematical content of an [`EnvironmentConfiguration`].
#[verifier::ext_equal]
pub struct EnvironmentConfigurationView {
    pub name: Seq<char>,
    pub value: Option<Seq<char>>,
    pub secret_ref: Option<Seq<char>>,
}

/// The mathematical content of a [`ResourceConfiguration`].
#[verifier::ext_equal]
pub struct ResourceConfigurationView {
    pub cpu: Option<Seq<char>>,
    pub memory: Option<Seq<char>>,
}

impl View for ContainerAppConfig {
    type V = ContainerAppConfigView;

    open spec fn view(&self) -> ContainerAppConfigView {
        ContainerAppConfigView {
            kind: self.kind.deep_view(),
            api_version: self.api_version.deep_view(),
            location: self.location@,
            name: self.name@,
            resource_group: self.resource_group.deep_view(),
            resource_type: self.resource_type@,
            tags: self.tags.deep_view(),
            properties: self.properties@,
        }
    }
}

impl DeepView for ContainerAppConfig {
    type V = ContainerAppConfigView;

    open spec fn deep_view(&self) -> ContainerAppConfigView {
        self.view()
    }
}

impl View for Properties {
    type V = PropertiesView;

    open spec fn view(&self) -> PropertiesView {
        PropertiesView {
            kube_environment_id: self.kube_environment_id@,
            configuration: self.configuration@,
            template: self.template@,
        }
    }
}

impl DeepView for Properties {
    type V = PropertiesView;

    open spec fn deep_view(&self) -> PropertiesView {
        self.view()
    }
}

impl View for Configuration {
    type V = ConfigurationView;

    open spec fn view(&self) -> ConfigurationView {
        ConfigurationView {
            active_revisions_mode: self.active_revisions_mode,
            secrets: self.secrets.deep_view(),
            ingress: self.ingress@,
            registries: self.registries.deep_view(),
        }
    }
}

impl DeepView for Configuration {
    type V = ConfigurationView;

    open spec fn deep_view(&self) -> ConfigurationView {
        self.view()
    }
}

impl View for SecretsConfiguration {
    type V = SecretsConfigurationView;

    open spec fn view(&self) -> SecretsConfigurationView {
        SecretsConfigurationView { name: self.name@, value: self.value@ }
    }
}

impl DeepView for SecretsConfiguration {
    type V = SecretsConfigurationView;

    open spec fn deep_view(&self) -> SecretsConfigurationView {
        self.view()
    }
}

impl View for IngressConfiguration {
    type V = IngressConfigurationView;

    open spec fn view(&self) -> IngressConfigurationView {
        IngressConfigurationView {
            external: self.external,
            allow_insecure: self.allow_insecure,
            target_port: self.target_port,
            traffic: self.traffic@,
            transport: self.transport,
        }
    }
}

impl DeepView for IngressConfiguration {
    type V = IngressConfigurationView;

    open spec fn deep_view(&self) -> IngressConfigurationView {
        self.view()
    }
}

impl DeepView for TrafficConfiguration {
    type V = TrafficConfiguration;

    open spec fn deep_view(&self) -> TrafficConfiguration {
        *self
    }
}

impl View for ContainerRegistry {
    type V = ContainerRegistryView;

    open spec fn view(&self) -> ContainerRegistryView {
        ContainerRegistryView {
            server: self.server@,
            username: self.username@,
            password_secret_ref: self.password_secret_ref@,
        }
    }
}

impl DeepView for ContainerRegistry {
    type V = ContainerRegistryView;

    open spec fn deep_view(&self) -> ContainerRegistryView {
        self.view()
    }
}

impl View for Template {
    type V = TemplateView;

    open spec fn view(&self) -> TemplateView {
        TemplateView {
            revision_suffix: self.revision_suffix.deep_view(),
            containers: self.containers.deep_view(),
            scale: self.scale,
        }
    }
}

impl DeepView for Template {
    type V = TemplateView;

    open spec fn deep_view(&self) -> TemplateView {
        self.view()
    }
}

impl View for Container {
    type V = ContainerView;

    open spec fn view(&self) -> ContainerView {
        ContainerView {
            image: self.image@,
            name: self.name.deep_view(),
            env: self.env.deep_view(),
            resources: self.resources.deep_view(),
            command: self.command.deep_view(),
            args: self.args.deep_view(),
        }
    }
}

impl DeepView for Container {
    type V = ContainerView;

    open spec fn deep_view(&self) -> ContainerView {
        self.view()
    }
}

impl View for EnvironmentConfiguration {
    type V = EnvironmentConfigurationView;

    open spec fn view(&self) -> EnvironmentConfigurationView {
        EnvironmentConfigurationView {
            name: self.name@,
            value: self.value.deep_view(),
            secret_ref: self.secret_ref.deep_view(),
        }
    }
}

impl DeepView for EnvironmentConfiguration {
    type V = EnvironmentConfigurationView;

    open spec fn deep_view(&self) -> EnvironmentConfigurationView {
        self.view()
    }
}

impl View for ResourceConfiguration {
    type V = ResourceConfigurationView;

    open spec fn view(&self) -> ResourceConfigurationView {
        ResourceConfigurationView { cpu: self.cpu.deep_view(), memory: self.memory.deep_view() }
    }
}

impl DeepView for ResourceConfiguration {
    type V = ResourceConfigurationView;

    open spec fn deep_view(&self) -> ResourceConfigurationView {
        self.view()
    }
}

/// The outline of an ARM deployment template that embeds one configuration
/// as its single resource.
#[derive(Debug, PartialEq)]
pub struct ArmWrapper {
    pub schema: &'static str,
    pub content_version: &'static str,
    pub resources: Vec<ContainerAppConfig>,
    pub outputs: OutputWrapper,
}

/// The `outputs` block of an ARM template: the deployed workload's domain
/// name.
#[derive(Debug, PartialEq)]
pub struct OutputWrapper {
    pub containerapp_fqdn: OutputValue,
}

/// One typed ARM template output value.
#[derive(Debug, PartialEq)]
pub struct OutputValue {
    pub output_type: String,
    pub value: String,
}

/// The mathematical content of an [`ArmWrapper`].
#[verifier::ext_equal]
pub struct ArmWrapperView {
    pub schema: Seq<char>,
    pub content_version: Seq<char>,
    pub resources: Seq<ContainerAppConfigView>,
    pub outputs: OutputWrapperView,
}

/// The mathematical content of an [`OutputWrapper`].
#[verifier::ext_equal]
pub struct OutputWrapperView {
    pub containerapp_fqdn: OutputValueView,
}

/// The mathematical content of an [`OutputValue`].
#[verifier::ext_equal]
pub struct OutputValueView {
    pub output_type: Seq<char>,
    pub value: Seq<char>,
}

impl View for ArmWrapper {
    type V = ArmWrapperView;

    open spec fn view(&self) -> ArmWrapperView {
        ArmWrapperView {
            schema: self.schema@,
            content_version: self.content_version@,
            resources: self.resources.deep_view(),
            outputs: self.outputs@,
        }
    }
}

impl DeepView for ArmWrapper {
    type V = ArmWrapperView;

    open spec fn deep_view(&self) -> ArmWrapperView {
        self.view()
    }
}

impl View for OutputWrapper {
    type V = OutputWrapperView;

    open spec fn view(&self) -> OutputWrapperView {
        OutputWrapperView { containerapp_fqdn: self.containerapp_fqdn@ }
    }
}

impl DeepView for OutputWrapper {
    type V = OutputWrapperView;

    open spec fn deep_view(&self) -> OutputWrapperView {
        self.view()
    }
}

impl View for OutputValue {
    type V = OutputValueView;

    open spec fn view(&self) -> OutputValueView {
        OutputValueView { output_type: self.output_type@, value: self.value@ }
    }
}

impl DeepView for OutputValue {
    type V = OutputValueView;

    open spec fn deep_view(&self) -> OutputValueView {
        self.view()
    }
}

impl OutputValue {
    /// The ARM expression that reads the deployed workload's fully qualified
    /// domain name out of the named `Microsoft.Web/containerApps` resource.
    pub fn new(service_name: &str) -> (r: OutputValue)
        ensures
            r@.output_type == "string"@,
            r@.value == "[reference(resourceId('Microsoft.Web/containerApps', '"@
                + service_name@ + "')).configuration.ingress.fqdn]"@,
    {
        OutputValue {
            output_type: String::from_str("string"),
            value: String::from_str("[reference(resourceId('Microsoft.Web/containerApps', '")
                .concat(service_name)
                .concat("')).configuration.ingress.fqdn]"),
        }
    }
}

impl Default for OutputValue {
    fn default() -> (r: Self)
        ensures
            r@.output_type == "string"@,
            r@.value == "[reference(resourceId('Microsoft.Web/containerApps', '"@
                + "SERVICENAME"@ + "')).configuration.ingress.fqdn]"@,
    {
        OutputValue::new("SERVICENAME")
    }
}

impl Default for OutputWrapper {
    fn default() -> (r: Self)
        ensures
            r@.containerapp_fqdn.output_type == "string"@,
    {
        OutputWrapper { containerapp_fqdn: OutputValue::default() }
    }
}

impl ArmWrapper {
    /// The ARM template that embeds one configuration: the document is the
    /// template's single resource, stripped of its `kind` and resource
    /// group and stamped with the schema version, and the template's output
    /// reads the deployed workload's domain name.  Serializing and writing
    /// the template happen outside this library.
    pub fn for_config(config: &ContainerAppConfig) -> (r: ArmWrapper)
        ensures
            r@.schema
                == "https://schema.management.azure.com/schemas/2019-08-01/deploymentTemplate.json#"@,
            r@.content_version == "1.0.0.0"@,
            r@.resources.len() == 1,
            r@.resources[0] == (ContainerAppConfigView {
                kind: None,
                api_version: Some("2021-03-01"@),
                resource_group: None,
                ..config@
            }),
            r@.outputs.containerapp_fqdn.output_type == "string"@,
            r@.outputs.containerapp_fqdn.value
                == "[reference(resourceId('Microsoft.Web/containerApps', '"@ + config@.name
                + "')).configuration.ingress.fqdn]"@,
    {
        let mut embedded = config.clone();
        embedded.kind = None;
        embedded.api_version = Some(String::from_str("2021-03-01"));
        embedded.resource_group = None;
        let mut wrapper = ArmWrapper::default();
        wrapper.resources.push(embedded);
        wrapper.outputs.containerapp_fqdn = OutputValue::new(config.name.as_str());
        proof {
            assert(wrapper@.resources.len() == 1);
            assert(wrapper@.resources[0] == embedded@);
            assert(embedded@ =~= (ContainerAppConfigView {
                kind: None,
                api_version: Some("2021-03-01"@),
                resource_group: None,
                ..config@
            }));
        }
        wrapper
    }
}

impl Default for ArmWrapper {
    /// An ARM template outline with no resources yet.
    fn default() -> (r: Self)
        ensures
            r@.schema
                == "https://schema.management.azure.com/schemas/2019-08-01/deploymentTemplate.json#"@,
            r@.content_version == "1.0.0.0"@,
            r@.resources.len() == 0,
            r@.outputs.containerapp_fqdn.output_type == "string"@,
    {
        ArmWrapper {
            schema: "https://schema.management.azure.com/schemas/2019-08-01/deploymentTemplate.json#",
            content_version: "1.0.0.0",
            resources: Vec::new(),
            outputs: OutputWrapper::default(),
        }
    }
}

/// The ingress a service gets when it declares no network surface at all:
/// externally published on container port 80.
pub open spec fn spec_default_ingress() -> IngressConfigurationView {
    IngressConfigurationView {
        external: true,
        allow_insecure: false,
        target_port: Some(80u16),
        traffic: Seq::empty(),
        transport: Transport::Auto,
    }
}

/// The scale every converted template gets: at least one replica, no upper
/// bound.
pub open spec fn spec_default_scale() -> ScaleConfiguration {
    ScaleConfiguration { min_replicas: 1u32, max_replicas: None }
}

impl Default for RevisionMode {
    /// Revisions default to `Single`: the latest revision takes all traffic,
    /// as it would under Docker Compose.
    fn default() -> (r: Self)
        ensures
            r == RevisionMode::Single,
    {
        RevisionMode::Single
    }
}

impl Default for Transport {
    fn default() -> (r: Self)
        ensures
            r == Transport::Auto,
    {
        Transport::Auto
    }
}

impl Default for IngressConfiguration {
    fn default() -> (r: Self)
        ensures
            r@ == spec_default_ingress(),
    {
        let r = IngressConfiguration {
            external: true,
            allow_insecure: false,
            target_port: Some(80),
            traffic: Vec::new(),
            transport: Transport::Auto,
        };
        proof {
            assert(r@ =~= spec_default_ingress());
        }
        r
    }
}

impl Default for ScaleConfiguration {
    fn default() -> (r: Self)
        ensures
            r == spec_default_scale(),
    {
        ScaleConfiguration { min_replicas: 1, max_replicas: None }
    }
}

impl Default for Configuration {
    /// Single-revision mode around the default ingress, with no secrets
    /// and no registries.
    fn default() -> (r: Self)
        ensures
            r@.active_revisions_mode == RevisionMode::Single,
            r@.secrets.len() == 0,
            r@.ingress == spec_default_ingress(),
            r@.registries.len() == 0,
    {
        Configuration {
            active_revisions_mode: RevisionMode::Single,
            secrets: Vec::new(),
            ingress: IngressConfiguration::default(),
            registries: Vec::new(),
        }
    }
}

impl Default for Template {
    /// No containers yet, the default scale, no revision suffix.
    fn default() -> (r: Self)
        ensures
            r@.revision_suffix is None,
            r@.containers.len() == 0,
            r@.scale == spec_default_scale(),
    {
        Template { revision_suffix: None, containers: Vec::new(), scale: ScaleConfiguration::default() }
    }
}

impl Default for Properties {
    /// An empty environment identifier around the default configuration
    /// and template.
    fn default() -> (r: Self)
        ensures
            r@.kube_environment_id.len() == 0,
            r@.configuration.active_revisions_mode == RevisionMode::Single,
            r@.configuration.ingress == spec_default_ingress(),
            r@.template.containers.len() == 0,
    {
        Properties {
            kube_environment_id: String::new(),
            configuration: Configuration::default(),
            template: Template::default(),
        }
    }
}

impl Default for ContainerAppConfig {
    /// The fixed literals of the schema around otherwise empty fields.
    fn default() -> (r: Self)
        ensures
            r@.kind == Some("containerapp"@),
            r@.api_version is None,
            r@.location.len() == 0,
            r@.name.len() == 0,
            r@.resource_group is None,
            r@.resource_type == "Microsoft.Web/containerApps"@,
            r@.tags is None,
            r@.properties.kube_environment_id.len() == 0,
    {
        ContainerAppConfig {
            kind: Some(String::from_str("containerapp")),
            api_version: None,
            location: String::new(),
            name: String::new(),
            resource_group: None,
            resource_type: String::from_str("Microsoft.Web/containerApps"),
            tags: None,
            properties: Properties::default(),
        }
    }
}

impl Transport {
    /// The transport a label names; any unknown label falls back to the
    /// default `Auto`, as the command line parser admits only these three.
    pub fn from_label(label: &str) -> (r: Self)
        ensures
            r == spec_transport_from_label(label@),
    {
        let owned = label.to_owned();
        if owned == String::from_str("Auto") {
            Transport::Auto
        } else if owned == String::from_str("Http") {
            Transport::Http
        } else if owned == String::from_str("Http2") {
            Transport::Http2
        } else {
            Transport::Auto
        }
    }

    /// The label of this transport, the inverse of [`Transport::from_label`].
    pub fn label(&self) -> (r: &'static str)
        ensures
            spec_transport_from_label(r@) == *self,
    {
        proof {
            reveal_strlit("Auto");
            reveal_strlit("Http");
            reveal_strlit("Http2");
            assert("Auto"@ != "Http"@ && "Auto"@ != "Http2"@ && "Http"@ != "Http2"@) by {
                assert("Auto"@.len() == 4 && "Http"@.len() == 4 && "Http2"@.len() == 5);
                assert("Auto"@[0] == 'A' && "Http"@[0] == 'H');
            }
        }
        match self {
            Transport::Auto => "Auto",
            Transport::Http => "Http",
            Transport::Http2 => "Http2",
        }
    }
}

fn clone_opt_string(v: &Option<String>) -> (r: Option<String>)
    ensures
        r.deep_view() == v.deep_view(),
{
    match v {
        Some(s) => Some(s.clone()),
        None => None,
    }
}

impl Clone for SecretsConfiguration {
    fn clone(&self) -> (r: Self)
        ensures
            r@ == self@,
    {
        SecretsConfiguration { name: self.name.clone(), value: self.value.clone() }
    }
}

impl Clone for ContainerRegistry {
    fn clone(&self) -> (r: Self)
        ensures
            r@ == self@,
    {
        ContainerRegistry {
            server: self.server.clone(),
            username: self.username.clone(),
            password_secret_ref: self.password_secret_ref.clone(),
        }
    }
}

impl Clone for EnvironmentConfiguration {
    fn clone(&self) -> (r: Self)
        ensures
            r@ == self@,
    {
        EnvironmentConfiguration {
            name: self.name.clone(),
            value: clone_opt_string(&self.value),
            secret_ref: clone_opt_string(&self.secret_ref),
        }
    }
}

impl Clone for ResourceConfiguration {
    fn clone(&self) -> (r: Self)
        ensures
            r@ == self@,
    {
        ResourceConfiguration {
            cpu: clone_opt_string(&self.cpu),
            memory: clone_opt_string(&self.memory),
        }
    }
}

fn clone_secrets_vec(v: &Vec<SecretsConfiguration>) -> (r: Vec<SecretsConfiguration>)
    ensures
        r.deep_view() == v.deep_view(),
{
    let mut r: Vec<SecretsConfiguration> = Vec::new();
    let n = v.len();
    let mut i: usize = 0;
    while i < n
        invariant
            0 <= i <= n,
            n == v@.len(),
            r.deep_view() == v.deep_view().take(i as int),
        decreases n - i,
    {
        let ghost before = r.deep_view();
        r.push(v[i].clone());
        proof {
            assert(r.deep_view() =~= before.push(v.deep_view()[i as int]));
            assert(r.deep_view() =~= v.deep_view().take(i + 1));
        }
        i = i + 1;
    }
    proof {
        assert(v.deep_view().take(n as int) =~= v.deep_view());
    }
    r
}

fn clone_registry_vec(v: &Vec<ContainerRegistry>) -> (r: Vec<ContainerRegistry>)
    ensures
        r.deep_view() == v.deep_view(),
{
    let mut r: Vec<ContainerRegistry> = Vec::new();
    let n = v.len();
    let mut i: usize = 0;
    while i < n
        invariant
            0 <= i <= n,
            n == v@.len(),
            r.deep_view() == v.deep_view().take(i as int),
        decreases n - i,
    {
        let ghost before = r.deep_view();
        r.push(v[i].clone());
        proof {
            assert(r.deep_view() =~= before.push(v.deep_view()[i as int]));
            assert(r.deep_view() =~= v.deep_view().take(i + 1));
        }
        i = i + 1;
    }
    proof {
        assert(v.deep_view().take(n as int) =~= v.deep_view());
    }
    r
}

fn clone_traffic_vec(v: &Vec<TrafficConfiguration>) -> (r: Vec<TrafficConfiguration>)
    ensures
        r@ == v@,
{
    let mut r: Vec<TrafficConfiguration> = Vec::new();
    let n = v.len();
    let mut i: usize = 0;
    while i < n
        invariant
            0 <= i <= n,
            n == v@.len(),
            r@ == v@.take(i as int),
        decreases n - i,
    {
        r.push(v[i]);
        proof {
            assert(r@ =~= v@.take(i + 1));
        }
        i = i + 1;
    }
    proof {
        assert(v@.take(n as int) =~= v@);
    }
    r
}

fn clone_env_config_vec(v: &Vec<EnvironmentConfiguration>) -> (r: Vec<EnvironmentConfiguration>)
    ensures
        r.deep_view() == v.deep_view(),
{
    let mut r: Vec<EnvironmentConfiguration> = Vec::new();
    let n = v.len();
    let mut i: usize = 0;
    while i < n
        invariant
            0 <= i <= n,
            n == v@.len(),
            r.deep_view() == v.deep_view().take(i as int),
        decreases n - i,
    {
        let ghost before = r.deep_view();
        r.push(v[i].clone());
        proof {
            assert(r.deep_view() =~= before.push(v.deep_view()[i as int]));
            assert(r.deep_view() =~= v.deep_view().take(i + 1));
        }
        i = i + 1;
    }
    proof {
        assert(v.deep_view().take(n as int) =~= v.deep_view());
    }
    r
}

impl Clone for IngressConfiguration {
    fn clone(&self) -> (r: Self)
        ensures
            r@ == self@,
    {
        let r = IngressConfiguration {
            external: self.external,
            allow_insecure: self.allow_insecure,
            target_port: self.target_port,
            traffic: clone_traffic_vec(&self.traffic),
            transport: self.transport,
        };
        proof {
            assert(r@ =~= self@);
        }
        r
    }
}

impl Clone for Container {
    fn clone(&self) -> (r: Self)
        ensures
            r@ == self@,
    {
        let r = Container {
            image: self.image.clone(),
            name: clone_opt_string(&self.name),
            env: clone_env_config_vec(&self.env),
            resources: match &self.resources {
                Some(rc) => Some(rc.clone()),
                None => None,
            },
            command: clone_string_vec(&self.command),
            args: clone_string_vec(&self.args),
        };
        proof {
            assert(r@ =~= self@);
        }
        r
    }
}

fn clone_container_vec(v: &Vec<Container>) -> (r: Vec<Container>)
    ensures
        r.deep_view() == v.deep_view(),
{
    let mut r: Vec<Container> = Vec::new();
    let n = v.len();
    let mut i: usize = 0;
    while i < n
        invariant
            0 <= i <= n,
            n == v@.len(),
            r.deep_view() == v.deep_view().take(i as int),
        decreases n - i,
    {
        let ghost before = r.deep_view();
        r.push(v[i].clone());
        proof {
            assert(r.deep_view() =~= before.push(v.deep_view()[i as int]));
            assert(r.deep_view() =~= v.deep_view().take(i + 1));
        }
        i = i + 1;
    }
    proof {
        assert(v.deep_view().take(n as int) =~= v.deep_view());
    }
    r
}

impl Clone for Template {
    fn clone(&self) -> (r: Self)
        ensures
            r@ == self@,
    {
        let r = Template {
            revision_suffix: clone_opt_string(&self.revision_suffix),
            containers: clone_container_vec(&self.containers),
            scale: self.scale,
        };
        proof {
            assert(r@ =~= self@);
        }
        r
    }
}

impl Clone for Configuration {
    fn clone(&self) -> (r: Self)
        ensures
            r@ == self@,
    {
        let r = Configuration {
            active_revisions_mode: self.active_revisions_mode,
            secrets: clone_secrets_vec(&self.secrets),
            ingress: self.ingress.clone(),
            registries: clone_registry_vec(&self.registries),
        };
        proof {
            assert(r@ =~= self@);
        }
        r
    }
}

impl Clone for Properties {
    fn clone(&self) -> (r: Self)
        ensures
            r@ == self@,
    {
        let r = Properties {
            kube_environment_id: self.kube_environment_id.clone(),
            configuration: self.configuration.clone(),
            template: self.template.clone(),
        };
        proof {
            assert(r@ =~= self@);
        }
        r
    }
}

fn clone_tag_vec(v: &Vec<(String, String)>) -> (r: Vec<(String, String)>)
    ensures
        r.deep_view() == v.deep_view(),
{
    let mut r: Vec<(String, String)> = Vec::new();
    let n = v.len();
    let mut i: usize = 0;
    while i < n
        invariant
            0 <= i <= n,
            n == v@.len(),
            r.deep_view() == v.deep_view().take(i as int),
        decreases n - i,
    {
        let ghost before = r.deep_view();
        let pair = &v[i];
        r.push((pair.0.clone(), pair.1.clone()));
        proof {
            assert(r.deep_view() =~= before.push(v.deep_view()[i as int]));
            assert(r.deep_view() =~= v.deep_view().take(i + 1));
        }
        i = i + 1;
    }
    proof {
        assert(v.deep_view().take(n as int) =~= v.deep_view());
    }
    r
}

impl Clone for ContainerAppConfig {
    fn clone(&self) -> (r: Self)
        ensures
            r@ == self@,
    {
        let r = ContainerAppConfig {
            kind: clone_opt_string(&self.kind),
            api_version: clone_opt_string(&self.api_version),
            location: self.location.clone(),
            name: self.name.clone(),
            resource_group: clone_opt_string(&self.resource_group),
            resource_type: self.resource_type.clone(),
            tags: match &self.tags {
                Some(tags) => Some(clone_tag_vec(tags)),
                None => None,
            },
            properties: self.properties.clone(),
        };
        proof {
            assert(r@ =~= self@);
        }
        r
    }
}

/// Which transport each label names.
pub open spec fn spec_transport_from_label(label: Seq<char>) -> Transport {
    if label == "Auto"@ {
        Transport::Auto
    } else if label == "Http"@ {
        Transport::Http
    } else if label == "Http2"@ {
        Transport::Http2
    } else {
        Transport::Auto
    }
}

} // verus!
