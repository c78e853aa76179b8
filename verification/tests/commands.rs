//! The command builders: parameter validation, the conversion fan-out over
//! a whole Compose file, and the compose-level mappers.

use compose2containerapps::convert::{
    get_configuration_from_compose, get_containers_from_compose, get_ingress_from_compose,
    get_public_services_from_compose, get_secrets_from_compose, get_secrets_from_service,
    get_template_from_compose,
};
use compose2containerapps::{
    Compose, ConvertComposeCommand, ConvertError, DeployAzureCommand, EnvironmentVariable,
    PortMapping, Ports, Protocol, RetrieveLogsCommand, RevisionMode, Service,
    ValidateAzureCommand,
};

fn web_service() -> Service {
    Service {
        image: Some("nginx".to_string()),
        container_name: Some("web".to_string()),
        environment: vec![],
        ports: vec![PortMapping {
            host_ports: Some(Ports::Port(8080)),
            container_ports: Ports::Port(80),
            protocol: Protocol::Tcp,
        }],
        expose: vec![],
    }
}

fn worker_service() -> Service {
    Service {
        image: Some("worker".to_string()),
        container_name: None,
        environment: vec![EnvironmentVariable {
            name: "QUEUE".to_string(),
            value: Some("jobs".to_string()),
        }],
        ports: vec![],
        expose: vec![],
    }
}

fn sample_compose() -> Compose {
    Compose {
        services: vec![
            ("web".to_string(), web_service()),
            ("worker".to_string(), worker_service()),
        ],
    }
}

fn full_command() -> ConvertComposeCommand {
    ConvertComposeCommand::default()
        .with_compose_path("docker-compose.yml")
        .with_containerapps_path("containerapps.yml")
        .with_resource_group(Some("myresourcegroup"))
        .with_location(Some("northeurope"))
        .with_containerapps_environment_id(Some("/subscriptions/s/resourceGroups/r/providers/Microsoft.Web/kubeEnvironments/e"))
}

#[test]
fn convert_produces_one_configuration_per_service() {
    let command = full_command().convert(sample_compose(), &Vec::new()).unwrap();

    let configurations = command.get_configurations();
    assert_eq!(configurations.len(), 2);
    assert_eq!(configurations[0].configuration.name, "web");
    assert_eq!(configurations[1].configuration.name, "worker");
    assert!(command.get_failures().is_empty());
}

#[test]
fn converted_output_paths_are_prefixed_with_the_service_name() {
    let command = full_command().convert(sample_compose(), &Vec::new()).unwrap();

    let configurations = command.get_configurations();
    assert_eq!(configurations[0].path, "web-containerapps.yml");
    assert_eq!(configurations[1].path, "worker-containerapps.yml");
    assert_eq!(configurations[0].resource_group, "myresourcegroup");
}

#[test]
fn convert_without_parameters_names_every_missing_one() {
    let result = ConvertComposeCommand::default()
        .with_compose_path("docker-compose.yml")
        .with_containerapps_path("containerapps.yml")
        .convert(sample_compose(), &Vec::new());

    match result {
        Err(ConvertError::MissingParameters(missing)) => {
            assert_eq!(
                missing,
                vec![
                    "resource_group".to_string(),
                    "location".to_string(),
                    "containerapps_environment_id".to_string(),
                ]
            );
        }
        _ => panic!("expected a missing-parameters failure"),
    }
}

#[test]
fn convert_without_location_names_only_the_location() {
    let result = ConvertComposeCommand::default()
        .with_resource_group(Some("rg"))
        .with_containerapps_environment_id(Some("env"))
        .convert(sample_compose(), &Vec::new());

    match result {
        Err(ConvertError::MissingParameters(missing)) => {
            assert_eq!(missing, vec!["location".to_string()]);
        }
        _ => panic!("expected a missing-parameters failure"),
    }
}

#[test]
fn a_failing_service_is_recorded_and_does_not_stop_the_others() {
    let compose = Compose {
        services: vec![
            (
                "broken".to_string(),
                Service {
                    image: None,
                    container_name: None,
                    environment: vec![],
                    ports: vec![],
                    expose: vec![],
                },
            ),
            ("web".to_string(), web_service()),
        ],
    };

    let command = full_command().convert(compose, &Vec::new()).unwrap();

    let configurations = command.get_configurations();
    assert_eq!(configurations.len(), 1);
    assert_eq!(configurations[0].configuration.name, "web");

    let failures = command.get_failures();
    assert_eq!(failures.len(), 1);
    assert_eq!(failures[0].0, "broken");
    assert!(matches!(failures[0].1, ConvertError::MissingImage));
}

#[test]
fn converting_the_same_compose_twice_yields_identical_output() {
    let first = full_command().convert(sample_compose(), &Vec::new()).unwrap();
    let second = full_command().convert(sample_compose(), &Vec::new()).unwrap();

    let first_configs = first.get_configurations();
    let second_configs = second.get_configurations();
    assert_eq!(first_configs.len(), second_configs.len());
    for (a, b) in first_configs.iter().zip(second_configs.iter()) {
        assert_eq!(a.configuration, b.configuration);
        assert_eq!(a.resource_group, b.resource_group);
        assert_eq!(a.path, b.path);
    }
}

#[test]
fn deploy_command_holds_the_configurations_it_was_given() {
    let command = full_command().convert(sample_compose(), &Vec::new()).unwrap();
    let configurations = command.get_configurations();

    let deploy = DeployAzureCommand::default().with_configurations(configurations);
    assert_eq!(deploy.get_configurations().len(), 2);
    assert_eq!(deploy.get_configurations()[0].configuration.name, "web");
}

#[test]
fn validate_command_reports_the_environment_id_it_settled_on() {
    let command = ValidateAzureCommand::default()
        .with_subscription_name(Some("mysubscription"))
        .with_resource_group(Some("myresourcegroup"))
        .with_location(Some("northeurope"))
        .with_containerapps_environment_name(Some("myenvironment"))
        .with_containerapps_environment_resource_id(Some("/subscriptions/s/env"));

    let id = command.containerapps_environment_id().unwrap();
    assert_eq!(id, Some("/subscriptions/s/env".to_string()));
}

#[test]
fn validate_command_without_environment_id_reports_none() {
    let command = ValidateAzureCommand::default()
        .with_containerapps_environment_resource_id(None);

    let id = command.containerapps_environment_id().unwrap();
    assert_eq!(id, None);
}

#[test]
fn retrieve_logs_builders_accept_all_parameters() {
    let _command = RetrieveLogsCommand::default()
        .with_log_analytics_client_id(Some("workspace-client"))
        .with_resource_group(Some("myresourcegroup"))
        .with_name(Some("mycontainerapp"))
        .with_containerapps_environment_name(Some("myenvironment"))
        .with_containerapps_environment_resource_id(Some("/subscriptions/s/env"));
}

#[test]
fn public_services_are_those_with_published_ports() {
    let compose = sample_compose();

    let public = get_public_services_from_compose(&compose);
    assert_eq!(public.len(), 1);
    assert_eq!(public[0].image, Some("nginx".to_string()));
}

#[test]
fn compose_level_ingress_takes_the_first_public_port() {
    let compose = sample_compose();

    let ingress = get_ingress_from_compose(&compose).unwrap();
    assert!(ingress.external);
    assert_eq!(ingress.target_port, Some(80));
}

#[test]
fn compose_level_ingress_takes_the_low_end_of_a_range() {
    let compose = Compose {
        services: vec![(
            "web".to_string(),
            Service {
                image: Some("nginx".to_string()),
                container_name: None,
                environment: vec![],
                ports: vec![PortMapping {
                    host_ports: Some(Ports::Range(8000, 8002)),
                    container_ports: Ports::Range(9000, 9002),
                    protocol: Protocol::Tcp,
                }],
                expose: vec![],
            },
        )],
    };

    let ingress = get_ingress_from_compose(&compose).unwrap();
    assert_eq!(ingress.target_port, Some(9000));
}

#[test]
fn compose_level_containers_skip_services_without_an_image() {
    let compose = Compose {
        services: vec![
            (
                "broken".to_string(),
                Service {
                    image: None,
                    container_name: None,
                    environment: vec![],
                    ports: vec![],
                    expose: vec![],
                },
            ),
            ("web".to_string(), web_service()),
        ],
    };

    let containers = get_containers_from_compose(&compose, &Vec::new());
    assert_eq!(containers.len(), 1);
    assert_eq!(containers[0].image, "nginx");
}

#[test]
fn compose_level_template_scales_from_one_replica() {
    let template = get_template_from_compose(&sample_compose(), &Vec::new()).unwrap();

    assert_eq!(template.scale.min_replicas, 1);
    assert_eq!(template.scale.max_replicas, None);
    assert_eq!(template.containers.len(), 2);
}

#[test]
fn compose_level_configuration_defaults_to_single_revision() {
    let configuration = get_configuration_from_compose(&sample_compose()).unwrap();

    assert_eq!(configuration.active_revisions_mode, RevisionMode::Single);
    assert!(configuration.secrets.is_empty());
    assert!(configuration.registries.is_empty());
}

#[test]
fn secrets_are_always_empty() {
    assert!(get_secrets_from_compose(&sample_compose()).unwrap().is_empty());
    assert!(get_secrets_from_service(&web_service()).unwrap().is_empty());
}
