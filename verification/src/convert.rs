//! The conversion engine: field mappers from a Compose service to each part
//! of a ContainerApps configuration, and the orchestrator that composes
//! them.
//!
//! Every mapper's contract equates the view of its result with a spec-level
//! conversion function of its inputs' views, so the whole conversion is
//! pinned down to a mathematical function: same inputs, same output, field
//! for field.

use vstd::prelude::*;
use crate::compose::{
    Compose, EnvironmentResolution, EnvironmentResolutionView, EnvironmentVariableView,
    PortMapping, Ports, Protocol, Service, ServiceView,
};
use crate::containerapps::{
    Configuration, ConfigurationView, Container, ContainerAppConfig, ContainerAppConfigView,
    ContainerRegistryView, ContainerView, EnvironmentConfiguration, EnvironmentConfigurationView,
    IngressConfiguration, IngressConfigurationView, Properties, PropertiesView, RevisionMode,
    ScaleConfiguration, SecretsConfiguration, SecretsConfigurationView, Template, TemplateView,
    Transport, spec_default_ingress, spec_default_scale,
};
use crate::errors::{ConvertError, ConvertErrorView, res_view};
use crate::ports::{
    expand_service_expose, expand_service_ports, expose_entries_parseable, expose_port_values,
    get_selected_port_index, ports_ranges_valid, seq_min, tcp_port_values,
};

verus! {

/// The ingress a service maps to.  Published TCP ports win and make the
/// ingress external; otherwise exposed ports give an internal ingress; a
/// service with no network surface gets the structural default.  Among
/// several candidate ports the lowest is chosen.
pub open spec fn spec_ingress_from_service(s: ServiceView) -> Result<
    IngressConfigurationView,
    ConvertErrorView,
> {
    if !ports_ranges_valid(s.ports) {
        Err(ConvertErrorView::InvalidPortRange)
    } else {
        let tcp = tcp_port_values(s.ports);
        if tcp.len() > 0 {
            Ok(IngressConfigurationView {
                external: true,
                allow_insecure: false,
                target_port: Some(seq_min(tcp)),
                traffic: Seq::empty(),
                transport: Transport::Auto,
            })
        } else if s.expose.len() > 0 {
            Ok(IngressConfigurationView {
                external: false,
                allow_insecure: false,
                target_port: Some(seq_min(expose_port_values(s.expose))),
                traffic: Seq::empty(),
                transport: Transport::Auto,
            })
        } else {
            Ok(spec_default_ingress())
        }
    }
}

/// What the ingress mapper asks of its input: when the exposed ports are
/// what decides the ingress, each of them must be a literal port number.
/// (On any other entry the Compose reader would already have failed.)
pub open spec fn ingress_expose_ok(s: ServiceView) -> bool {
    (ports_ranges_valid(s.ports) && tcp_port_values(s.ports).len() == 0 && s.expose.len() > 0)
        ==> expose_entries_parseable(s.expose)
}

/// The first resolution supplied for `name`, if any.
pub open spec fn spec_lookup_resolution(
    res: Seq<EnvironmentResolutionView>,
    name: Seq<char>,
) -> Option<Seq<char>>
    decreases res.len(),
{
    if res.len() == 0 {
        None
    } else if res[0].name == name {
        Some(res[0].value)
    } else {
        spec_lookup_resolution(res.drop_first(), name)
    }
}

/// The value an environment entry ends up with: its interpolated value when
/// interpolation succeeded, else the caller-supplied resolution.
pub open spec fn spec_resolve_env_value(
    v: EnvironmentVariableView,
    res: Seq<EnvironmentResolutionView>,
) -> Option<Seq<char>> {
    match v.value {
        Some(value) => Some(value),
        None => spec_lookup_resolution(res, v.name),
    }
}

/// The container environment entry a Compose environment entry maps to:
/// same name, the resolved value, and never a secret reference.
pub open spec fn spec_env_entry(
    v: EnvironmentVariableView,
    res: Seq<EnvironmentResolutionView>,
) -> EnvironmentConfigurationView {
    EnvironmentConfigurationView {
        name: v.name,
        value: spec_resolve_env_value(v, res),
        secret_ref: None,
    }
}

/// The container environment a service's entries map to, in order, or the
/// first entry that stays unresolved.
pub open spec fn spec_env_configurations(
    env: Seq<EnvironmentVariableView>,
    res: Seq<EnvironmentResolutionView>,
) -> Result<Seq<EnvironmentConfigurationView>, ConvertErrorView>
    decreases env.len(),
{
    if env.len() == 0 {
        Ok(Seq::empty())
    } else if spec_resolve_env_value(env[0], res) is None {
        Err(ConvertErrorView::UnresolvedEnvironmentReference(env[0].name))
    } else {
        match spec_env_configurations(env.drop_first(), res) {
            Ok(rest) => Ok(seq![spec_env_entry(env[0], res)] + rest),
            Err(e) => Err(e),
        }
    }
}

/// The container a service maps to: its image verbatim (required), its
/// container name when given, its resolved environment, and nothing else.
pub open spec fn spec_container_from_service(
    s: ServiceView,
    res: Seq<EnvironmentResolutionView>,
) -> Result<ContainerView, ConvertErrorView> {
    match s.image {
        None => Err(ConvertErrorView::MissingImage),
        Some(image) => match spec_env_configurations(s.environment, res) {
            Err(e) => Err(e),
            Ok(env) => Ok(ContainerView {
                image: image,
                name: s.container_name,
                env: env,
                resources: None,
                command: Seq::empty(),
                args: Seq::empty(),
            }),
        },
    }
}

/// The template a service maps to: its one container and the default scale.
pub open spec fn spec_template_from_service(
    s: ServiceView,
    res: Seq<EnvironmentResolutionView>,
) -> Result<TemplateView, ConvertErrorView> {
    match spec_container_from_service(s, res) {
        Err(e) => Err(e),
        Ok(c) => Ok(TemplateView {
            revision_suffix: None,
            containers: seq![c],
            scale: spec_default_scale(),
        }),
    }
}

/// The configuration a service maps to: its ingress, no secrets, no
/// registries, single-revision mode.
pub open spec fn spec_configuration_from_service(s: ServiceView) -> Result<
    ConfigurationView,
    ConvertErrorView,
> {
    match spec_ingress_from_service(s) {
        Err(e) => Err(e),
        Ok(ingress) => Ok(ConfigurationView {
            active_revisions_mode: RevisionMode::Single,
            secrets: Seq::empty(),
            ingress: ingress,
            registries: Seq::empty(),
        }),
    }
}

/// The properties a service maps to: the environment identifier verbatim,
/// the configuration, the template.
pub open spec fn spec_properties_from_service(
    kube_environment_id: Seq<char>,
    s: ServiceView,
    res: Seq<EnvironmentResolutionView>,
) -> Result<PropertiesView, ConvertErrorView> {
    match spec_configuration_from_service(s) {
        Err(e) => Err(e),
        Ok(configuration) => match spec_template_from_service(s, res) {
            Err(e) => Err(e),
            Ok(template) => Ok(PropertiesView {
                kube_environment_id: kube_environment_id,
                configuration: configuration,
                template: template,
            }),
        },
    }
}

/// The whole configuration document one named service maps to.
pub open spec fn spec_convert_to_containerapps(
    service_name: Seq<char>,
    s: ServiceView,
    resource_group: Seq<char>,
    location: Seq<char>,
    containerapps_environment_id: Seq<char>,
    res: Seq<EnvironmentResolutionView>,
) -> Result<ContainerAppConfigView, ConvertErrorView> {
    match spec_properties_from_service(containerapps_environment_id, s, res) {
        Err(e) => Err(e),
        Ok(properties) => Ok(ContainerAppConfigView {
            kind: Some("containerapp"@),
            api_version: None,
            location: location,
            name: service_name,
            resource_group: Some(resource_group),
            resource_type: "Microsoft.Web/containerApps"@,
            tags: None,
            properties: properties,
        }),
    }
}

/// Converting the same `(service, resource group, location, environment)`
/// tuple twice yields the same configuration, field for field: the
/// conversion contract pins its result down to a function of the inputs, so
/// any two results meeting it agree.
pub proof fn lemma_conversion_idempotent(
    r1: Result<ContainerAppConfig, ConvertError>,
    r2: Result<ContainerAppConfig, ConvertError>,
    service_name: Seq<char>,
    s: ServiceView,
    resource_group: Seq<char>,
    location: Seq<char>,
    containerapps_environment_id: Seq<char>,
    res: Seq<EnvironmentResolutionView>,
)
    requires
        res_view(r1) == spec_convert_to_containerapps(
            service_name,
            s,
            resource_group,
            location,
            containerapps_environment_id,
            res,
        ),
        res_view(r2) == spec_convert_to_containerapps(
            service_name,
            s,
            resource_group,
            location,
            containerapps_environment_id,
            res,
        ),
    ensures
        res_view(r1) == res_view(r2),
{
}

/// Every conversion that succeeds scales its template from one replica:
/// Compose's `deploy.replicas` has no counterpart in this mapping and is
/// never consulted.
pub proof fn lemma_converted_scale_minimum(
    service_name: Seq<char>,
    s: ServiceView,
    resource_group: Seq<char>,
    location: Seq<char>,
    containerapps_environment_id: Seq<char>,
    res: Seq<EnvironmentResolutionView>,
)
    ensures
        spec_convert_to_containerapps(
            service_name,
            s,
            resource_group,
            location,
            containerapps_environment_id,
            res,
        ) matches Ok(c) ==> c.properties.template.scale.min_replicas == 1,
{
}

/// A service that declares neither published ports nor exposed ports gets
/// the structural default ingress: external, on container port 80.
pub proof fn lemma_ingress_default_without_ports(s: ServiceView)
    requires
        s.ports.len() == 0,
        s.expose.len() == 0,
    ensures
        spec_ingress_from_service(s) == Ok::<_, ConvertErrorView>(spec_default_ingress()),
{
}

proof fn lemma_tcp_ports_empty_without_tcp(ports: Seq<PortMapping>)
    requires
        forall|i: int| 0 <= i < ports.len() ==> (#[trigger] ports[i]).protocol != Protocol::Tcp,
    ensures
        tcp_port_values(ports).len() == 0,
    decreases ports.len(),
{
    if ports.len() > 0 {
        assert(forall|i: int| 0 <= i < ports.drop_last().len()
            ==> (#[trigger] ports.drop_last()[i]).protocol != Protocol::Tcp);
        lemma_tcp_ports_empty_without_tcp(ports.drop_last());
    }
}

/// Port mappings of any protocol other than TCP are silently dropped: a
/// service publishing only such ports, and exposing none, gets the same
/// structural default ingress as one with no network surface at all.
pub proof fn lemma_ingress_drops_other_protocols(s: ServiceView)
    requires
        ports_ranges_valid(s.ports),
        forall|i: int| 0 <= i < s.ports.len() ==> (#[trigger] s.ports[i]).protocol != Protocol::Tcp,
        s.expose.len() == 0,
    ensures
        spec_ingress_from_service(s) == Ok::<_, ConvertErrorView>(spec_default_ingress()),
{
    lemma_tcp_ports_empty_without_tcp(s.ports);
}

/// A service with no published ports but a non-empty `expose` list gets an
/// internal ingress on the lowest exposed port.
pub proof fn lemma_ingress_from_expose(s: ServiceView)
    requires
        s.ports.len() == 0,
        s.expose.len() > 0,
        expose_entries_parseable(s.expose),
    ensures
        spec_ingress_from_service(s) matches Ok(ingress) && !ingress.external
            && ingress.target_port == Some(seq_min(expose_port_values(s.expose))),
{
}

/// Every environment entry of a converted container carries a literal
/// value and never a secret reference: exactly one of the two is set, and
/// this mapping only ever sets the value.
pub proof fn lemma_env_entries_use_value_only(
    env: Seq<EnvironmentVariableView>,
    res: Seq<EnvironmentResolutionView>,
)
    ensures
        spec_env_configurations(env, res) matches Ok(entries) ==> forall|i: int|
            0 <= i < entries.len() ==> (#[trigger] entries[i]).value is Some
                && entries[i].secret_ref is None,
    decreases env.len(),
{
    if env.len() > 0 && spec_resolve_env_value(env[0], res) is Some {
        lemma_env_entries_use_value_only(env.drop_first(), res);
        match spec_env_configurations(env.drop_first(), res) {
            Ok(rest) => {
                let entries = seq![spec_env_entry(env[0], res)] + rest;
                assert forall|i: int| 0 <= i < entries.len()
                    implies (#[trigger] entries[i]).value is Some
                        && entries[i].secret_ref is None by {
                    if i > 0 {
                        assert(entries[i] == rest[i - 1]);
                    }
                }
            },
            Err(_) => {},
        }
    }
}

proof fn lemma_expose_port_values_len(expose: Seq<Seq<char>>)
    ensures
        expose_port_values(expose).len() == expose.len(),
    decreases expose.len(),
{
    if expose.len() > 0 {
        lemma_expose_port_values_len(expose.drop_last());
    }
}

proof fn lemma_env_configurations_ok(
    env: Seq<EnvironmentVariableView>,
    res: Seq<EnvironmentResolutionView>,
)
    requires
        forall|j: int| 0 <= j < env.len() ==> spec_resolve_env_value(#[trigger] env[j], res) is Some,
    ensures
        spec_env_configurations(env, res) == Ok::<_, ConvertErrorView>(
            env.map_values(|v: EnvironmentVariableView| spec_env_entry(v, res)),
        ),
    decreases env.len(),
{
    let f = |v: EnvironmentVariableView| spec_env_entry(v, res);
    if env.len() == 0 {
        assert(env.map_values(f) =~= Seq::empty());
    } else {
        assert(forall|j: int| 0 <= j < env.drop_first().len()
            ==> spec_resolve_env_value(#[trigger] env.drop_first()[j], res) is Some);
        lemma_env_configurations_ok(env.drop_first(), res);
        assert(seq![spec_env_entry(env[0], res)] + env.drop_first().map_values(f)
            =~= env.map_values(f));
    }
}

proof fn lemma_env_configurations_err(
    env: Seq<EnvironmentVariableView>,
    res: Seq<EnvironmentResolutionView>,
    i: int,
)
    requires
        0 <= i < env.len(),
        forall|j: int| 0 <= j < i ==> spec_resolve_env_value(#[trigger] env[j], res) is Some,
        spec_resolve_env_value(env[i], res) is None,
    ensures
        spec_env_configurations(env, res) == Err::<Seq<EnvironmentConfigurationView>, _>(
            ConvertErrorView::UnresolvedEnvironmentReference(env[i].name),
        ),
    decreases i,
{
    if i > 0 {
        lemma_env_configurations_err(env.drop_first(), res, i - 1);
    }
}

/// The first resolution supplied for `name`, searched in order.
fn lookup_resolution(resolutions: &Vec<EnvironmentResolution>, name: &String) -> (r: Option<
    String,
>)
    ensures
        r.deep_view() == spec_lookup_resolution(resolutions.deep_view(), name@),
{
    let ghost all = resolutions.deep_view();
    let n = resolutions.len();
    let mut i: usize = 0;
    proof {
        assert(all.skip(0) =~= all);
    }
    while i < n
        invariant
            0 <= i <= n,
            n == all.len(),
            all == resolutions.deep_view(),
            spec_lookup_resolution(all.skip(i as int), name@) == spec_lookup_resolution(all, name@),
        decreases n - i,
    {
        proof {
            assert(all.skip(i as int).drop_first() =~= all.skip(i + 1));
            assert(all.skip(i as int)[0] == all[i as int]);
        }
        let entry = &resolutions[i];
        if entry.name == *name {
            return Some(entry.value.clone());
        }
        i = i + 1;
    }
    proof {
        assert(all.skip(n as int) =~= Seq::<EnvironmentResolutionView>::empty());
    }
    None
}

/// Maps a service to its container: the image verbatim, failing on a
/// service that declares none; the container name when given; and one
/// environment entry per Compose entry, each with exactly its resolved
/// value and never a secret reference.  An entry left unresolved by
/// interpolation takes the first resolution supplied for its name, and
/// without one the conversion fails rather than dropping the entry.
pub fn get_container_from_service(
    service: &Service,
    resolutions: &Vec<EnvironmentResolution>,
) -> (r: Result<Container, ConvertError>)
    ensures
        res_view(r) == spec_container_from_service(service@, resolutions.deep_view()),
{
    let ghost rres = resolutions.deep_view();
    let ghost env_v = service@.environment;
    let image = match &service.image {
        Some(image) => image.clone(),
        None => {
            return Err(ConvertError::MissingImage);
        },
    };
    let name = match &service.container_name {
        Some(n) => Some(n.clone()),
        None => None,
    };
    let mut env: Vec<EnvironmentConfiguration> = Vec::new();
    let n = service.environment.len();
    let mut i: usize = 0;
    while i < n
        invariant
            0 <= i <= n,
            n == env_v.len(),
            env_v == service@.environment,
            rres == resolutions.deep_view(),
            service@.image is Some,
            forall|j: int| 0 <= j < i ==> spec_resolve_env_value(#[trigger] env_v[j], rres) is Some,
            env.deep_view() == env_v.take(i as int).map_values(
                |v: EnvironmentVariableView| spec_env_entry(v, rres),
            ),
        decreases n - i,
    {
        let entry = &service.environment[i];
        let value = match &entry.value {
            Some(v) => v.clone(),
            None => match lookup_resolution(resolutions, &entry.name) {
                Some(v) => v,
                None => {
                    proof {
                        lemma_env_configurations_err(env_v, rres, i as int);
                    }
                    let e = ConvertError::UnresolvedEnvironmentReference(entry.name.clone());
                    proof {
                        assert(e@ == ConvertErrorView::UnresolvedEnvironmentReference(
                            env_v[i as int].name,
                        ));
                        assert(spec_container_from_service(service@, rres)
                            == Err::<ContainerView, ConvertErrorView>(e@));
                    }
                    return Err(e);
                },
            },
        };
        let ghost before = env.deep_view();
        env.push(EnvironmentConfiguration {
            name: entry.name.clone(),
            value: Some(value),
            secret_ref: None,
        });
        proof {
            let f = |v: EnvironmentVariableView| spec_env_entry(v, rres);
            assert(env.deep_view() =~= before.push(spec_env_entry(env_v[i as int], rres)));
            assert(env_v.take(i + 1).map_values(f)
                =~= env_v.take(i as int).map_values(f).push(f(env_v[i as int])));
        }
        i = i + 1;
    }
    proof {
        assert(env_v.take(n as int) =~= env_v);
        lemma_env_configurations_ok(env_v, rres);
    }
    let r = Container { image, name, env, resources: None, command: Vec::new(), args: Vec::new() };
    proof {
        assert(r@ =~= spec_container_from_service(service@, rres)->Ok_0);
    }
    Ok(r)
}

/// Maps a service to its ingress.  Published port mappings are expanded to
/// their concrete container ports and filtered to TCP; a backwards range is
/// an error.  When candidates remain the ingress is external on the lowest
/// of them; else exposed ports give an internal ingress the same way; else
/// the structural default stands.
pub fn get_ingress_from_service(service: &Service) -> (r: Result<
    IngressConfiguration,
    ConvertError,
>)
    requires
        ingress_expose_ok(service@),
    ensures
        res_view(r) == spec_ingress_from_service(service@),
{
    let expanded = match expand_service_ports(service) {
        Ok(v) => v,
        Err(e) => {
            return Err(e);
        },
    };
    if expanded.len() > 0 {
        let selection = get_selected_port_index(&expanded);
        let port = expanded[selection];
        Ok(IngressConfiguration {
            external: true,
            allow_insecure: false,
            target_port: Some(port),
            traffic: Vec::new(),
            transport: Transport::Auto,
        })
    } else if service.expose.len() > 0 {
        proof {
            lemma_expose_port_values_len(service@.expose);
        }
        let expose_ports = expand_service_expose(service);
        let selection = get_selected_port_index(&expose_ports);
        let port = expose_ports[selection];
        Ok(IngressConfiguration {
            external: false,
            allow_insecure: false,
            target_port: Some(port),
            traffic: Vec::new(),
            transport: Transport::Auto,
        })
    } else {
        Ok(IngressConfiguration::default())
    }
}

/// Maps a service to an always-empty secrets list: no Compose field feeds
/// the target schema's secrets.
pub fn get_secrets_from_service(service: &Service) -> (r: Result<
    Vec<SecretsConfiguration>,
    ConvertError,
>)
    ensures
        res_view(r) == Ok::<_, ConvertErrorView>(Seq::<SecretsConfigurationView>::empty()),
{
    let secrets: Vec<SecretsConfiguration> = Vec::new();
    proof {
        assert(secrets.deep_view() =~= Seq::<SecretsConfigurationView>::empty());
    }
    Ok(secrets)
}

/// Maps a service to its configuration block: the ingress, single-revision
/// mode, and deliberately empty secrets and registries, which the Compose
/// model has no source for.
pub fn get_configuration_from_service(service: &Service) -> (r: Result<
    Configuration,
    ConvertError,
>)
    requires
        ingress_expose_ok(service@),
    ensures
        res_view(r) == spec_configuration_from_service(service@),
{
    let secrets = match get_secrets_from_service(service) {
        Ok(s) => s,
        Err(e) => {
            return Err(e);
        },
    };
    let ingress = match get_ingress_from_service(service) {
        Ok(ingress) => ingress,
        Err(e) => {
            return Err(e);
        },
    };
    let r = Configuration {
        active_revisions_mode: RevisionMode::Single,
        secrets,
        ingress,
        registries: Vec::new(),
    };
    proof {
        assert(r@ =~= spec_configuration_from_service(service@)->Ok_0);
    }
    Ok(r)
}

/// Maps a service to its template: exactly one container, no revision
/// suffix, and a scale of at least one replica.  Compose's
/// `deploy.replicas` has no counterpart here and is never consulted.
pub fn get_template_from_service(
    service: &Service,
    resolutions: &Vec<EnvironmentResolution>,
) -> (r: Result<Template, ConvertError>)
    ensures
        res_view(r) == spec_template_from_service(service@, resolutions.deep_view()),
{
    let container = match get_container_from_service(service, resolutions) {
        Ok(c) => c,
        Err(e) => {
            return Err(e);
        },
    };
    let mut containers: Vec<Container> = Vec::new();
    containers.push(container);
    let r = Template {
        revision_suffix: None,
        containers,
        scale: ScaleConfiguration::default(),
    };
    proof {
        assert(r@ =~= spec_template_from_service(service@, resolutions.deep_view())->Ok_0);
    }
    Ok(r)
}

/// Maps a service to the properties block: the environment identifier
/// verbatim, then configuration and template from their own mappers.
pub fn get_properties(
    kube_environment_id: &str,
    service: &Service,
    resolutions: &Vec<EnvironmentResolution>,
) -> (r: Result<Properties, ConvertError>)
    requires
        ingress_expose_ok(service@),
    ensures
        res_view(r) == spec_properties_from_service(
            kube_environment_id@,
            service@,
            resolutions.deep_view(),
        ),
{
    let configuration = match get_configuration_from_service(service) {
        Ok(c) => c,
        Err(e) => {
            return Err(e);
        },
    };
    let template = match get_template_from_service(service, resolutions) {
        Ok(t) => t,
        Err(e) => {
            return Err(e);
        },
    };
    let r = Properties {
        kube_environment_id: kube_environment_id.to_owned(),
        configuration,
        template,
    };
    proof {
        assert(r@ =~= spec_properties_from_service(
            kube_environment_id@,
            service@,
            resolutions.deep_view(),
        )->Ok_0);
    }
    Ok(r)
}

/// Converts one named Compose service into a full ContainerApps
/// configuration document for the given resource group, location and
/// environment.  Fails only where a sub-mapper fails: a missing image, an
/// unresolved environment entry without a supplied resolution, or a
/// backwards port range.
pub fn convert_to_containerapps(
    service_name: &str,
    service: &Service,
    resource_group: &str,
    location: &str,
    containerapps_environment_id: &str,
    resolutions: &Vec<EnvironmentResolution>,
) -> (r: Result<ContainerAppConfig, ConvertError>)
    requires
        ingress_expose_ok(service@),
    ensures
        res_view(r) == spec_convert_to_containerapps(
            service_name@,
            service@,
            resource_group@,
            location@,
            containerapps_environment_id@,
            resolutions.deep_view(),
        ),
{
    let properties = match get_properties(containerapps_environment_id, service, resolutions) {
        Ok(p) => p,
        Err(e) => {
            return Err(e);
        },
    };
    let r = ContainerAppConfig {
        kind: Some(String::from_str("containerapp")),
        api_version: None,
        name: service_name.to_owned(),
        resource_group: Some(resource_group.to_owned()),
        location: location.to_owned(),
        resource_type: String::from_str("Microsoft.Web/containerApps"),
        tags: None,
        properties,
    };
    proof {
        assert(r@ =~= spec_convert_to_containerapps(
            service_name@,
            service@,
            resource_group@,
            location@,
            containerapps_environment_id@,
            resolutions.deep_view(),
        )->Ok_0);
    }
    Ok(r)
}

/// The services of a Compose file that publish at least one port, in file
/// order.
pub open spec fn spec_public_services(services: Seq<(Seq<char>, ServiceView)>) -> Seq<ServiceView>
    decreases services.len(),
{
    if services.len() == 0 {
        Seq::empty()
    } else {
        spec_public_services(services.drop_last()) + (if services.last().1.ports.len() > 0 {
            seq![services.last().1]
        } else {
            Seq::empty()
        })
    }
}

/// The containers of every service of a Compose file whose conversion
/// succeeds, in file order; services that fail are passed over.
pub open spec fn spec_containers_from_compose(
    services: Seq<(Seq<char>, ServiceView)>,
    res: Seq<EnvironmentResolutionView>,
) -> Seq<ContainerView>
    decreases services.len(),
{
    if services.len() == 0 {
        Seq::empty()
    } else {
        spec_containers_from_compose(services.drop_last(), res) + (match spec_container_from_service(
            services.last().1,
            res,
        ) {
            Ok(c) => seq![c],
            Err(_) => Seq::empty(),
        })
    }
}

/// The first container-side port of a mapping; of a range, its lower end.
pub open spec fn spec_first_container_port(p: PortMapping) -> u16 {
    match p.container_ports {
        Ports::Port(x) => x,
        Ports::Range(low, _) => low,
    }
}

/// The single ingress a whole Compose file maps to: external, on the first
/// container-side port that the first port-publishing service declares.
pub open spec fn spec_ingress_from_compose(
    services: Seq<(Seq<char>, ServiceView)>,
) -> IngressConfigurationView {
    IngressConfigurationView {
        external: true,
        allow_insecure: false,
        target_port: Some(spec_first_container_port(spec_public_services(services)[0].ports[0])),
        traffic: Seq::empty(),
        transport: Transport::Auto,
    }
}

proof fn lemma_public_services_all_private(services: Seq<(Seq<char>, ServiceView)>)
    requires
        forall|k: int| 0 <= k < services.len() ==> (#[trigger] services[k].1).ports.len() == 0,
    ensures
        spec_public_services(services).len() == 0,
    decreases services.len(),
{
    if services.len() > 0 {
        assert(forall|k: int| 0 <= k < services.drop_last().len()
            ==> (#[trigger] services.drop_last()[k].1).ports.len() == 0);
        lemma_public_services_all_private(services.drop_last());
    }
}

proof fn lemma_public_services_first(services: Seq<(Seq<char>, ServiceView)>, j: int)
    requires
        0 <= j < services.len(),
        services[j].1.ports.len() > 0,
        forall|k: int| 0 <= k < j ==> (#[trigger] services[k].1).ports.len() == 0,
    ensures
        spec_public_services(services).len() > 0,
        spec_public_services(services)[0] == services[j].1,
    decreases services.len(),
{
    if j == services.len() - 1 {
        assert(forall|k: int| 0 <= k < services.drop_last().len()
            ==> (#[trigger] services.drop_last()[k].1).ports.len() == 0);
        lemma_public_services_all_private(services.drop_last());
    } else {
        lemma_public_services_first(services.drop_last(), j);
    }
}

/// The services of the Compose file that publish at least one port.
pub fn get_public_services_from_compose(compose: &Compose) -> (r: Vec<Service>)
    ensures
        r.deep_view() == spec_public_services(compose@.services),
{
    let ghost all = compose@.services;
    let mut r: Vec<Service> = Vec::new();
    let n = compose.services.len();
    let mut i: usize = 0;
    while i < n
        invariant
            0 <= i <= n,
            n == all.len(),
            all == compose@.services,
            r.deep_view() == spec_public_services(all.take(i as int)),
        decreases n - i,
    {
        proof {
            assert(all.take(i + 1).drop_last() =~= all.take(i as int));
            assert(all.take(i + 1).last() == all[i as int]);
        }
        let pair = &compose.services[i];
        if pair.1.ports.len() > 0 {
            r.push(pair.1.clone());
        }
        proof {
            assert(r.deep_view() =~= spec_public_services(all.take(i + 1)));
        }
        i = i + 1;
    }
    proof {
        assert(all.take(n as int) =~= all);
    }
    r
}

/// Maps a whole Compose file to an always-empty secrets list, as the
/// per-service mapper does.
pub fn get_secrets_from_compose(compose: &Compose) -> (r: Result<
    Vec<SecretsConfiguration>,
    ConvertError,
>)
    ensures
        res_view(r) == Ok::<_, ConvertErrorView>(Seq::<SecretsConfigurationView>::empty()),
{
    let secrets: Vec<SecretsConfiguration> = Vec::new();
    proof {
        assert(secrets.deep_view() =~= Seq::<SecretsConfigurationView>::empty());
    }
    Ok(secrets)
}

/// Maps a whole Compose file to one ingress, drawn from the first
/// port-publishing service's first mapping.  At least one service must
/// publish a port.
pub fn get_ingress_from_compose(compose: &Compose) -> (r: Result<IngressConfiguration, ConvertError>)
    requires
        spec_public_services(compose@.services).len() > 0,
    ensures
        r matches Ok(ingress) && ingress@ == spec_ingress_from_compose(compose@.services),
{
    let ghost all = compose@.services;
    let n = compose.services.len();
    let mut j: usize = 0;
    while j < n
        invariant
            0 <= j <= n,
            n == all.len(),
            all == compose@.services,
            spec_public_services(all).len() > 0,
            forall|k: int| 0 <= k < j ==> (#[trigger] all[k].1).ports.len() == 0,
        decreases n - j,
    {
        let pair = &compose.services[j];
        if pair.1.ports.len() > 0 {
            proof {
                lemma_public_services_first(all, j as int);
            }
            let mapping = pair.1.ports[0];
            let port = match mapping.container_ports {
                Ports::Port(p) => p,
                Ports::Range(low, _) => low,
            };
            let ingress = IngressConfiguration {
                external: true,
                allow_insecure: false,
                target_port: Some(port),
                traffic: Vec::new(),
                transport: Transport::Auto,
            };
            proof {
                assert(ingress@ =~= spec_ingress_from_compose(all));
            }
            return Ok(ingress);
        }
        j = j + 1;
    }
    proof {
        lemma_public_services_all_private(all);
    }
    vstd::pervasive::unreached()
}

/// Maps every service of the Compose file whose conversion succeeds to its
/// container; a service that fails is passed over, it does not stop the
/// others.
pub fn get_containers_from_compose(
    compose: &Compose,
    resolutions: &Vec<EnvironmentResolution>,
) -> (r: Vec<Container>)
    ensures
        r.deep_view() == spec_containers_from_compose(compose@.services, resolutions.deep_view()),
{
    let ghost all = compose@.services;
    let ghost rres = resolutions.deep_view();
    let mut r: Vec<Container> = Vec::new();
    let n = compose.services.len();
    let mut i: usize = 0;
    while i < n
        invariant
            0 <= i <= n,
            n == all.len(),
            all == compose@.services,
            rres == resolutions.deep_view(),
            r.deep_view() == spec_containers_from_compose(all.take(i as int), rres),
        decreases n - i,
    {
        proof {
            assert(all.take(i + 1).drop_last() =~= all.take(i as int));
            assert(all.take(i + 1).last() == all[i as int]);
        }
        match get_container_from_service(&compose.services[i].1, resolutions) {
            Ok(container) => {
                r.push(container);
            },
            Err(_) => {},
        }
        proof {
            assert(r.deep_view() =~= spec_containers_from_compose(all.take(i + 1), rres));
        }
        i = i + 1;
    }
    proof {
        assert(all.take(n as int) =~= all);
    }
    r
}

/// Maps a whole Compose file to one template holding every convertible
/// service's container, with the default scale.
pub fn get_template_from_compose(
    compose: &Compose,
    resolutions: &Vec<EnvironmentResolution>,
) -> (r: Result<Template, ConvertError>)
    ensures
        r matches Ok(template) && template@ == (TemplateView {
            revision_suffix: None,
            containers: spec_containers_from_compose(compose@.services, resolutions.deep_view()),
            scale: spec_default_scale(),
        }),
{
    let containers = get_containers_from_compose(compose, resolutions);
    let template = Template {
        revision_suffix: None,
        containers,
        scale: ScaleConfiguration::default(),
    };
    proof {
        assert(template@ =~= TemplateView {
            revision_suffix: None,
            containers: spec_containers_from_compose(compose@.services, resolutions.deep_view()),
            scale: spec_default_scale(),
        });
    }
    Ok(template)
}

/// Maps a whole Compose file to one configuration block around its single
/// ingress.
pub fn get_configuration_from_compose(compose: &Compose) -> (r: Result<Configuration, ConvertError>)
    requires
        spec_public_services(compose@.services).len() > 0,
    ensures
        r matches Ok(configuration) && configuration@ == (ConfigurationView {
            active_revisions_mode: RevisionMode::Single,
            secrets: Seq::empty(),
            ingress: spec_ingress_from_compose(compose@.services),
            registries: Seq::empty(),
        }),
{
    let secrets = match get_secrets_from_compose(compose) {
        Ok(s) => s,
        Err(e) => {
            return Err(e);
        },
    };
    let ingress = match get_ingress_from_compose(compose) {
        Ok(ingress) => ingress,
        Err(e) => {
            return Err(e);
        },
    };
    let configuration = Configuration {
        active_revisions_mode: RevisionMode::Single,
        secrets,
        ingress,
        registries: Vec::new(),
    };
    proof {
        assert(configuration@ =~= ConfigurationView {
            active_revisions_mode: RevisionMode::Single,
            secrets: Seq::empty(),
            ingress: spec_ingress_from_compose(compose@.services),
            registries: Seq::empty(),
        });
    }
    Ok(configuration)
}

} // verus!
