//! Ingress resolution policy: port selection, protocol filtering, the
//! expose fallback, the structural default, and port parsing.

use compose2containerapps::ports::{
    expand_service_expose, expand_service_ports, get_selected_port_index, parse_port,
};
use compose2containerapps::{
    get_container_from_service, get_ingress_from_service, ConvertError, EnvironmentResolution,
    EnvironmentVariable, PortMapping, Ports, Protocol, Service, Transport,
};

fn service_with_ports(ports: Vec<PortMapping>) -> Service {
    Service {
        image: Some("nginx".to_string()),
        container_name: None,
        environment: vec![],
        ports,
        expose: vec![],
    }
}

fn tcp_mapping(host: u16, container: u16) -> PortMapping {
    PortMapping {
        host_ports: Some(Ports::Port(host)),
        container_ports: Ports::Port(container),
        protocol: Protocol::Tcp,
    }
}

#[test]
fn single_published_tcp_port_gives_external_ingress() {
    let service = service_with_ports(vec![tcp_mapping(8080, 80)]);

    let ingress = get_ingress_from_service(&service).unwrap();
    assert!(ingress.external);
    assert_eq!(ingress.target_port, Some(80));
    assert_eq!(ingress.allow_insecure, false);
}

#[test]
fn port_range_selects_lowest_container_port() {
    let service = service_with_ports(vec![PortMapping {
        host_ports: Some(Ports::Range(8000, 8002)),
        container_ports: Ports::Range(9000, 9002),
        protocol: Protocol::Tcp,
    }]);

    let ingress = get_ingress_from_service(&service).unwrap();
    assert!(ingress.external);
    assert_eq!(ingress.target_port, Some(9000));
}

#[test]
fn udp_only_ports_fall_back_to_the_structural_default() {
    let service = service_with_ports(vec![PortMapping {
        host_ports: Some(Ports::Port(53)),
        container_ports: Ports::Port(53),
        protocol: Protocol::Udp,
    }]);

    let ingress = get_ingress_from_service(&service).unwrap();
    assert!(ingress.external);
    assert_eq!(ingress.target_port, Some(80));
}

#[test]
fn expose_without_ports_gives_internal_ingress() {
    let mut service = service_with_ports(vec![]);
    service.expose = vec!["3000".to_string()];

    let ingress = get_ingress_from_service(&service).unwrap();
    assert!(!ingress.external);
    assert_eq!(ingress.target_port, Some(3000));
}

#[test]
fn no_ports_and_no_expose_gives_the_structural_default() {
    let service = service_with_ports(vec![]);

    let ingress = get_ingress_from_service(&service).unwrap();
    assert!(ingress.external);
    assert_eq!(ingress.target_port, Some(80));
    assert_eq!(ingress.allow_insecure, false);
    assert_eq!(ingress.transport, Transport::Auto);
    assert!(ingress.traffic.is_empty());
}

#[test]
fn backwards_port_range_is_rejected() {
    let service = service_with_ports(vec![PortMapping {
        host_ports: Some(Ports::Range(9000, 9002)),
        container_ports: Ports::Range(9002, 9000),
        protocol: Protocol::Tcp,
    }]);

    let result = get_ingress_from_service(&service);
    assert!(matches!(result, Err(ConvertError::InvalidPortRange)));
}

#[test]
fn udp_entries_are_dropped_but_tcp_entries_still_win() {
    let service = service_with_ports(vec![
        PortMapping {
            host_ports: Some(Ports::Port(53)),
            container_ports: Ports::Port(53),
            protocol: Protocol::Udp,
        },
        tcp_mapping(8080, 443),
    ]);

    let ingress = get_ingress_from_service(&service).unwrap();
    assert!(ingress.external);
    assert_eq!(ingress.target_port, Some(443));
}

#[test]
fn lowest_port_wins_across_mappings() {
    let service = service_with_ports(vec![tcp_mapping(1000, 900), tcp_mapping(1001, 80)]);

    let ingress = get_ingress_from_service(&service).unwrap();
    assert_eq!(ingress.target_port, Some(80));
}

#[test]
fn expose_selects_lowest_of_several() {
    let mut service = service_with_ports(vec![]);
    service.expose = vec!["4000".to_string(), "3000".to_string(), "5000".to_string()];

    let ingress = get_ingress_from_service(&service).unwrap();
    assert!(!ingress.external);
    assert_eq!(ingress.target_port, Some(3000));
}

#[test]
fn expose_accepts_the_largest_port_number() {
    let mut service = service_with_ports(vec![]);
    service.expose = vec!["65535".to_string()];

    let ingress = get_ingress_from_service(&service).unwrap();
    assert_eq!(ingress.target_port, Some(65535));
}

#[test]
fn expand_service_ports_expands_ranges_and_filters_protocols() {
    let service = service_with_ports(vec![
        PortMapping {
            host_ports: Some(Ports::Range(8000, 8002)),
            container_ports: Ports::Range(9000, 9002),
            protocol: Protocol::Tcp,
        },
        PortMapping {
            host_ports: Some(Ports::Port(53)),
            container_ports: Ports::Port(53),
            protocol: Protocol::Udp,
        },
        tcp_mapping(8080, 80),
    ]);

    let expanded = expand_service_ports(&service).unwrap();
    assert_eq!(expanded, vec![9000, 9001, 9002, 80]);
}

#[test]
fn expand_service_expose_parses_each_entry() {
    let mut service = service_with_ports(vec![]);
    service.expose = vec!["3000".to_string(), "443".to_string()];

    assert_eq!(expand_service_expose(&service), vec![3000, 443]);
}

#[test]
fn selected_port_index_points_at_the_minimum() {
    let ports = vec![9001u16, 9000, 9002];

    let index = get_selected_port_index(&ports);
    assert_eq!(ports[index], 9000);
}

#[test]
fn selected_port_index_handles_equal_candidates() {
    let ports = vec![80u16, 80, 443];

    let index = get_selected_port_index(&ports);
    assert_eq!(ports[index], 80);
}

#[test]
fn parse_port_reads_decimal_port_numbers() {
    assert_eq!(parse_port("0"), Some(0));
    assert_eq!(parse_port("3000"), Some(3000));
    assert_eq!(parse_port("65535"), Some(65535));
    assert_eq!(parse_port("007"), Some(7));
}

#[test]
fn parse_port_rejects_anything_else() {
    assert_eq!(parse_port(""), None);
    assert_eq!(parse_port("65536"), None);
    assert_eq!(parse_port("99999999999"), None);
    assert_eq!(parse_port("12a"), None);
    assert_eq!(parse_port("-1"), None);
    assert_eq!(parse_port("80/tcp"), None);
}

#[test]
fn environment_mapping_round_trip() {
    let service = Service {
        image: Some("nginx".to_string()),
        container_name: None,
        environment: vec![EnvironmentVariable {
            name: "FOO".to_string(),
            value: Some("bar".to_string()),
        }],
        ports: vec![],
        expose: vec![],
    };

    let container = get_container_from_service(&service, &Vec::new()).unwrap();
    assert_eq!(container.env.len(), 1);
    assert_eq!(container.env[0].name, "FOO");
    assert_eq!(container.env[0].value, Some("bar".to_string()));
    assert_eq!(container.env[0].secret_ref, None);
}

#[test]
fn missing_image_fails_conversion() {
    let service = Service {
        image: None,
        container_name: None,
        environment: vec![],
        ports: vec![],
        expose: vec![],
    };

    let result = get_container_from_service(&service, &Vec::new());
    assert!(matches!(result, Err(ConvertError::MissingImage)));
}

#[test]
fn unresolved_environment_entry_without_resolution_fails() {
    let service = Service {
        image: Some("nginx".to_string()),
        container_name: None,
        environment: vec![EnvironmentVariable { name: "BASE_URL".to_string(), value: None }],
        ports: vec![],
        expose: vec![],
    };

    let result = get_container_from_service(&service, &Vec::new());
    match result {
        Err(ConvertError::UnresolvedEnvironmentReference(name)) => {
            assert_eq!(name, "BASE_URL");
        }
        _ => panic!("expected an unresolved environment reference"),
    }
}

#[test]
fn unresolved_environment_entry_takes_the_supplied_resolution() {
    let service = Service {
        image: Some("nginx".to_string()),
        container_name: None,
        environment: vec![EnvironmentVariable { name: "TOKEN".to_string(), value: None }],
        ports: vec![],
        expose: vec![],
    };
    let resolutions = vec![EnvironmentResolution {
        name: "TOKEN".to_string(),
        value: "supplied".to_string(),
    }];

    let container = get_container_from_service(&service, &resolutions).unwrap();
    assert_eq!(container.env[0].value, Some("supplied".to_string()));
}

#[test]
fn first_matching_resolution_wins() {
    let service = Service {
        image: Some("nginx".to_string()),
        container_name: None,
        environment: vec![EnvironmentVariable { name: "TOKEN".to_string(), value: None }],
        ports: vec![],
        expose: vec![],
    };
    let resolutions = vec![
        EnvironmentResolution { name: "TOKEN".to_string(), value: "first".to_string() },
        EnvironmentResolution { name: "TOKEN".to_string(), value: "second".to_string() },
    ];

    let container = get_container_from_service(&service, &resolutions).unwrap();
    assert_eq!(container.env[0].value, Some("first".to_string()));
}
