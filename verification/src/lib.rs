//! Conversion of Docker Compose service definitions into Azure ContainerApps
//! deployment configurations.
//!
//! The compose model ([`compose::Service`], [`compose::Compose`]) holds the
//! fields of a Compose file that the conversion reads, as plain values; the
//! ContainerApps model ([`containerapps::ContainerAppConfig`] and its parts)
//! mirrors the target configuration schema.  The mappers in [`convert`] turn
//! one into the other, and their contracts pin every field of the result down
//! to a mathematical function of the inputs.  Reading and writing the actual
//! YAML and JSON documents, and everything that talks to the Azure CLI, lives
//! outside this library.

pub mod azure;
pub mod commands;
pub mod compose;
pub mod containerapps;
pub mod errors;
pub mod convert;
pub mod ports;

pub use azure::{AzAccountInfo, AzMonitorLog};
pub use commands::{
    ConvertComposeCommand, ConvertedComposeConfiguration, DeployAzureCommand,
    RetrieveLogsCommand, ValidateAzureCommand,
};
pub use compose::{Compose, EnvironmentResolution, EnvironmentVariable, PortMapping, Ports, Protocol, Service};
pub use containerapps::{
    ArmWrapper, Configuration, Container, ContainerAppConfig, ContainerRegistry,
    EnvironmentConfiguration, IngressConfiguration, OutputValue, OutputWrapper, Properties,
    ResourceConfiguration, RevisionMode, ScaleConfiguration, SecretsConfiguration, Template,
    TrafficConfiguration, Transport,
};
pub use convert::{
    convert_to_containerapps, get_configuration_from_service, get_container_from_service,
    get_ingress_from_service, get_properties, get_secrets_from_service, get_template_from_service,
};
pub use errors::ConvertError;
