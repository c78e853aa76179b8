//! End-to-end conversion of a single service, checked field by field
//! against a hand-written reference configuration.

use compose2containerapps::{
    convert_to_containerapps, get_configuration_from_service, get_ingress_from_service,
    get_properties, get_template_from_service, Configuration, Container, ContainerAppConfig,
    EnvironmentConfiguration, EnvironmentVariable, IngressConfiguration, PortMapping, Ports,
    Properties, Protocol, RevisionMode, ScaleConfiguration, Service, Template, Transport,
};

const ENVIRONMENT_ID: &str = "/subscriptions/mysubscription/resourceGroups/myresourcegroup/providers/Microsoft.Web/kubeEnvironments/myenvironment";

fn ghost_service() -> Service {
    Service {
        image: Some("ghost".to_string()),
        container_name: Some("ghost".to_string()),
        environment: vec![EnvironmentVariable {
            name: "url".to_string(),
            value: Some("http://localhost:2368".to_string()),
        }],
        ports: vec![PortMapping {
            host_ports: Some(Ports::Port(2368)),
            container_ports: Ports::Port(2368),
            protocol: Protocol::Tcp,
        }],
        expose: vec![],
    }
}

fn get_converted_containerapps_config() -> ContainerAppConfig {
    convert_to_containerapps(
        "mycontainerapp",
        &ghost_service(),
        "myresourcegroup",
        "northeurope",
        ENVIRONMENT_ID,
        &Vec::new(),
    )
    .unwrap()
}

fn reference_containerapps_config() -> ContainerAppConfig {
    ContainerAppConfig {
        kind: Some("containerapp".to_string()),
        api_version: None,
        location: "northeurope".to_string(),
        name: "mycontainerapp".to_string(),
        resource_group: Some("myresourcegroup".to_string()),
        resource_type: "Microsoft.Web/containerApps".to_string(),
        tags: None,
        properties: Properties {
            kube_environment_id: ENVIRONMENT_ID.to_string(),
            configuration: Configuration {
                active_revisions_mode: RevisionMode::Single,
                secrets: vec![],
                ingress: IngressConfiguration {
                    external: true,
                    allow_insecure: false,
                    target_port: Some(2368),
                    traffic: vec![],
                    transport: Transport::Auto,
                },
                registries: vec![],
            },
            template: Template {
                revision_suffix: None,
                containers: vec![Container {
                    image: "ghost".to_string(),
                    name: Some("ghost".to_string()),
                    env: vec![EnvironmentConfiguration {
                        name: "url".to_string(),
                        value: Some("http://localhost:2368".to_string()),
                        secret_ref: None,
                    }],
                    resources: None,
                    command: vec![],
                    args: vec![],
                }],
                scale: ScaleConfiguration { min_replicas: 1, max_replicas: None },
            },
        },
    }
}

#[test]
fn convert_to_containerapps_conversion_sets_name_from_cli() {
    let new_containerapps_config = get_converted_containerapps_config();

    let reference_config = reference_containerapps_config();
    assert_eq!(new_containerapps_config.name, reference_config.name);
}

#[test]
fn convert_to_containerapps_conversion_sets_resource_group_from_cli() {
    let new_containerapps_config = get_converted_containerapps_config();

    let reference_config = reference_containerapps_config();
    assert_eq!(
        new_containerapps_config.resource_group,
        reference_config.resource_group
    );
}

#[test]
fn convert_to_containerapps_conversion_sets_location_from_cli() {
    let new_containerapps_config = get_converted_containerapps_config();

    let reference_config = reference_containerapps_config();
    assert_eq!(new_containerapps_config.location, reference_config.location);
}

#[test]
fn convert_conversion_sets_name_from_cli() {
    let new_containerapps_config = get_converted_containerapps_config();

    let reference_config = reference_containerapps_config();
    assert_eq!(new_containerapps_config.name, reference_config.name);
}

#[test]
fn convert_conversion_sets_resource_group_from_cli() {
    let new_containerapps_config = get_converted_containerapps_config();

    let reference_config = reference_containerapps_config();
    assert_eq!(
        new_containerapps_config.resource_group,
        reference_config.resource_group
    );
}

#[test]
fn convert_conversion_sets_location_from_cli() {
    let new_containerapps_config = get_converted_containerapps_config();

    let reference_config = reference_containerapps_config();
    assert_eq!(new_containerapps_config.location, reference_config.location);
}

#[test]
fn convert_conversion_sets_properties_kube_environment_id_from_cli() {
    let new_containerapps_config = get_converted_containerapps_config();

    let reference_config = reference_containerapps_config();
    assert_eq!(
        new_containerapps_config.properties.kube_environment_id,
        reference_config.properties.kube_environment_id
    );
}

#[test]
fn convert_conversion_defaults_properties_configuration_active_revision_mode_to_single() {
    let new_containerapps_config = get_converted_containerapps_config();

    assert_eq!(
        new_containerapps_config
            .properties
            .configuration
            .active_revisions_mode,
        RevisionMode::Single
    );
}

#[test]
fn convert_conversion_defaults_properties_configuration_ingress_transport_to_auto() {
    let new_containerapps_config = get_converted_containerapps_config();

    assert_eq!(
        new_containerapps_config
            .properties
            .configuration
            .ingress
            .transport,
        Transport::Auto
    );
}

#[test]
fn convert_conversion_sets_properties_configuration_ingress_target_port() {
    let new_containerapps_config = get_converted_containerapps_config();

    let reference_config = reference_containerapps_config();
    assert_eq!(
        new_containerapps_config
            .properties
            .configuration
            .ingress
            .target_port,
        reference_config.properties.configuration.ingress.target_port
    );
}

#[test]
fn convert_conversion_sets_properties_template_containers_image() {
    let new_containerapps_config = get_converted_containerapps_config();

    let reference_config = reference_containerapps_config();
    let new_ghost_container = new_containerapps_config
        .properties
        .template
        .containers
        .first()
        .unwrap();
    let reference_ghost_container = reference_config
        .properties
        .template
        .containers
        .first()
        .unwrap();

    assert_eq!(new_ghost_container.image, reference_ghost_container.image);
}

#[test]
fn convert_conversion_sets_properties_template_containers_name() {
    let new_containerapps_config = get_converted_containerapps_config();

    let reference_config = reference_containerapps_config();
    let new_ghost_container = new_containerapps_config
        .properties
        .template
        .containers
        .first()
        .unwrap();
    let reference_ghost_container = reference_config
        .properties
        .template
        .containers
        .first()
        .unwrap();
    assert_eq!(
        new_ghost_container.name.clone().unwrap(),
        reference_ghost_container.name.clone().unwrap()
    );
}

#[test]
fn convert_conversion_sets_properties_template_containers_environment() {
    let new_containerapps_config = get_converted_containerapps_config();

    let reference_config = reference_containerapps_config();
    let new_ghost_container_env = new_containerapps_config
        .properties
        .template
        .containers
        .first()
        .unwrap()
        .env
        .first()
        .unwrap();
    let reference_ghost_container_env = reference_config
        .properties
        .template
        .containers
        .first()
        .unwrap()
        .env
        .first()
        .unwrap();

    assert_eq!(
        new_ghost_container_env.name,
        reference_ghost_container_env.name
    );
    assert_eq!(
        new_ghost_container_env.value.clone().unwrap(),
        reference_ghost_container_env.value.clone().unwrap()
    );
}

#[test]
fn get_configuration_from_service_conversion_defaults_properties_configuration_active_revision_mode_to_single(
) {
    let compose_config = ghost_service();
    let new_containerapps_config = convert_to_containerapps(
        "mycontainerapp",
        &compose_config,
        "myresourcegroup",
        "northeurope",
        ENVIRONMENT_ID,
        &Vec::new(),
    )
    .unwrap();

    assert_eq!(
        new_containerapps_config
            .properties
            .configuration
            .active_revisions_mode,
        RevisionMode::Single
    );
}

#[test]
fn get_container_from_service_conversion_sets_properties_template_containers_image() {
    let new_containerapps_config = get_converted_containerapps_config();

    let reference_config = reference_containerapps_config();
    let new_ghost_container = new_containerapps_config
        .properties
        .template
        .containers
        .first()
        .unwrap();
    let reference_ghost_container = reference_config
        .properties
        .template
        .containers
        .first()
        .unwrap();

    assert_eq!(new_ghost_container.image, reference_ghost_container.image);
}

#[test]
fn get_container_from_service_conversion_sets_properties_template_containers_name() {
    let new_containerapps_config = get_converted_containerapps_config();

    let reference_config = reference_containerapps_config();
    let new_ghost_container = new_containerapps_config
        .properties
        .template
        .containers
        .first()
        .unwrap();
    let reference_ghost_container = reference_config
        .properties
        .template
        .containers
        .first()
        .unwrap();
    assert_eq!(
        new_ghost_container.name.clone().unwrap(),
        reference_ghost_container.name.clone().unwrap()
    );
}

#[test]
fn get_container_from_service_conversion_sets_properties_template_containers_environment() {
    let new_containerapps_config = get_converted_containerapps_config();

    let reference_config = reference_containerapps_config();
    let new_ghost_container_env = new_containerapps_config
        .properties
        .template
        .containers
        .first()
        .unwrap()
        .env
        .first()
        .unwrap();
    let reference_ghost_container_env = reference_config
        .properties
        .template
        .containers
        .first()
        .unwrap()
        .env
        .first()
        .unwrap();

    assert_eq!(
        new_ghost_container_env.name,
        reference_ghost_container_env.name
    );
    assert_eq!(
        new_ghost_container_env.value.clone().unwrap(),
        reference_ghost_container_env.value.clone().unwrap()
    );
}

#[test]
fn get_ingress_from_service_conversion_defaults_properties_configuration_ingress_transport_to_auto()
{
    let new_containerapps_config = get_converted_containerapps_config();

    assert_eq!(
        new_containerapps_config
            .properties
            .configuration
            .ingress
            .transport,
        Transport::Auto
    );
}

#[test]
fn get_ingress_from_service_conversion_sets_properties_configuration_ingress_target_port() {
    let new_containerapps_config = get_converted_containerapps_config();

    let reference_config = reference_containerapps_config();
    assert_eq!(
        new_containerapps_config
            .properties
            .configuration
            .ingress
            .target_port,
        reference_config.properties.configuration.ingress.target_port
    );
}

#[test]
fn get_properties_from_service_conversion_sets_properties_kube_environment_id_from_cli() {
    let new_containerapps_config = get_converted_containerapps_config();

    let reference_config = reference_containerapps_config();
    assert_eq!(
        new_containerapps_config.properties.kube_environment_id,
        reference_config.properties.kube_environment_id
    );
}

#[test]
fn conversion_sets_template_scale_to_min_1() {
    let new_containerapps_config = get_converted_containerapps_config();

    assert_eq!(
        new_containerapps_config
            .properties
            .template
            .scale
            .min_replicas,
        1
    );
}

#[test]
fn conversion_matches_reference_document_exactly() {
    let new_containerapps_config = get_converted_containerapps_config();

    assert_eq!(new_containerapps_config, reference_containerapps_config());
}

#[test]
fn conversion_twice_yields_identical_configurations() {
    let first = get_converted_containerapps_config();
    let second = get_converted_containerapps_config();

    assert_eq!(first, second);
}

#[test]
fn whole_properties_come_from_the_properties_mapper() {
    let properties = get_properties(ENVIRONMENT_ID, &ghost_service(), &Vec::new()).unwrap();

    assert_eq!(properties, reference_containerapps_config().properties);
}

#[test]
fn configuration_mapper_matches_reference_configuration() {
    let configuration = get_configuration_from_service(&ghost_service()).unwrap();

    assert_eq!(
        configuration,
        reference_containerapps_config().properties.configuration
    );
}

#[test]
fn template_mapper_matches_reference_template() {
    let template = get_template_from_service(&ghost_service(), &Vec::new()).unwrap();

    assert_eq!(template, reference_containerapps_config().properties.template);
}

#[test]
fn ingress_mapper_matches_reference_ingress() {
    let ingress = get_ingress_from_service(&ghost_service()).unwrap();

    assert_eq!(
        ingress,
        reference_containerapps_config()
            .properties
            .configuration
            .ingress
    );
}
