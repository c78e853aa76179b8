//! The parts of a Docker Compose file that the conversion reads, as plain
//! values.
//!
//! A Compose document is parsed outside this library; what arrives here is an
//! ordered list of named services, each carrying its image reference,
//! container name, environment entries, published port mappings and exposed
//! port strings.  Environment values whose variable interpolation failed
//! upstream arrive as `None` and are settled against a caller-supplied list of
//! [`EnvironmentResolution`] entries, so that conversion needs no terminal.

use vstd::prelude::*;

verus! {

/// Either a single container port or an inclusive range of ports.
#[derive(Clone, Copy, Debug, PartialEq, Eq)]
pub enum Ports {
    Port(u16),
    Range(u16, u16),
}

/// The IP protocol of a published port mapping.
#[derive(Clone, Copy, Debug, PartialEq, Eq, Structural)]
pub enum Protocol {
    Tcp,
    Udp,
}

/// One entry of a service's `ports` list: host side, container side and
/// protocol, for example `"8080:80/tcp"`.
#[derive(Clone, Copy, Debug, PartialEq, Eq)]
pub struct PortMapping {
    /// The host port or port range on which to listen, when one is given.
    pub host_ports: Option<Ports>,
    /// The container port or port range to export.
    pub container_ports: Ports,
    /// The protocol of the mapping.
    pub protocol: Protocol,
}

/// One entry of a service's `environment` mapping.  `value` is `None` when
/// the entry's variable reference could not be interpolated upstream.
pub struct EnvironmentVariable {
    pub name: String,
    pub value: Option<String>,
}

/// A caller-supplied value for an environment entry that interpolation left
/// unresolved: the headless stand-in for prompting the user.
pub struct EnvironmentResolution {
    pub name: String,
    pub value: String,
}

/// One named workload definition within a Compose file.
pub struct Service {
    /// The container image reference, when the service declares one.
    pub image: Option<String>,
    /// The fixed container name, when the service declares one.
    pub container_name: Option<String>,
    /// The environment entries, in the order the Compose file gives them.
    pub environment: Vec<EnvironmentVariable>,
    /// The published port mappings.
    pub ports: Vec<PortMapping>,
    /// The exposed (declared but not published) ports, as literal strings.
    pub expose: Vec<String>,
}

/// A parsed Compose file: its services as an ordered association list, so
/// that conversion output keeps a reproducible order.
pub struct Compose {
    pub services: Vec<(String, Service)>,
}

/// The mathematical content of an [`EnvironmentVariable`].
pub struct EnvironmentVariableView {
    pub name: Seq<char>,
    pub value: Option<Seq<char>>,
}

/// The mathematical content of an [`EnvironmentResolution`].
pub struct EnvironmentResolutionView {
    pub name: Seq<char>,
    pub value: Seq<char>,
}

/// The mathematical content of a [`Service`].
#[verifier::ext_equal]
pub struct ServiceView {
    pub image: Option<Seq<char>>,
    pub container_name: Option<Seq<char>>,
    pub environment: Seq<EnvironmentVariableView>,
    pub ports: Seq<PortMapping>,
    pub expose: Seq<Seq<char>>,
}

/// The mathematical content of a [`Compose`] file.
#[verifier::ext_equal]
pub struct ComposeView {
    pub services: Seq<(Seq<char>, ServiceView)>,
}

impl View for EnvironmentVariable {
    type V = EnvironmentVariableView;

    open spec fn view(&self) -> EnvironmentVariableView {
        EnvironmentVariableView { name: self.name@, value: self.value.deep_view() }
    }
}

impl DeepView for EnvironmentVariable {
    type V = EnvironmentVariableView;

    open spec fn deep_view(&self) -> EnvironmentVariableView {
        self.view()
    }
}

impl View for EnvironmentResolution {
    type V = EnvironmentResolutionView;

    open spec fn view(&self) -> EnvironmentResolutionView {
        EnvironmentResolutionView { name: self.name@, value: self.value@ }
    }
}

impl DeepView for EnvironmentResolution {
    type V = EnvironmentResolutionView;

    open spec fn deep_view(&self) -> EnvironmentResolutionView {
        self.view()
    }
}

impl View for Service {
    type V = ServiceView;

    open spec fn view(&self) -> ServiceView {
        ServiceView {
            image: self.image.deep_view(),
            container_name: self.container_name.deep_view(),
            environment: self.environment.deep_view(),
            ports: self.ports@,
            expose: self.expose.deep_view(),
        }
    }
}

impl DeepView for Service {
    type V = ServiceView;

    open spec fn deep_view(&self) -> ServiceView {
        self.view()
    }
}

impl View for Compose {
    type V = ComposeView;

    open spec fn view(&self) -> ComposeView {
        ComposeView { services: self.services.deep_view() }
    }
}

impl DeepView for Compose {
    type V = ComposeView;

    open spec fn deep_view(&self) -> ComposeView {
        self.view()
    }
}

impl Clone for EnvironmentVariable {
    fn clone(&self) -> (r: Self)
        ensures
            r@ == self@,
    {
        EnvironmentVariable {
            name: self.name.clone(),
            value: match &self.value {
                Some(v) => Some(v.clone()),
                None => None,
            },
        }
    }
}

impl Clone for EnvironmentResolution {
    fn clone(&self) -> (r: Self)
        ensures
            r@ == self@,
    {
        EnvironmentResolution { name: self.name.clone(), value: self.value.clone() }
    }
}

pub(crate) fn clone_string_vec(v: &Vec<String>) -> (r: Vec<String>)
    ensures
        r.deep_view() == v.deep_view(),
{
    let mut r: Vec<String> = Vec::new();
    let n = v.len();
    let mut i: usize = 0;
    while i < n
        invariant
            0 <= i <= n,
            n == v@.len(),
            r.deep_view() == v.deep_view().take(i as int),
        decreases n - i,
    {
        let ghost before = r.deep_view();
        r.push(v[i].clone());
        proof {
            assert(r.deep_view() =~= before.push(v.deep_view()[i as int]));
            assert(r.deep_view() =~= v.deep_view().take(i + 1));
        }
        i = i + 1;
    }
    proof {
        assert(v.deep_view().take(n as int) =~= v.deep_view());
    }
    r
}

fn clone_environment_vec(v: &Vec<EnvironmentVariable>) -> (r: Vec<EnvironmentVariable>)
    ensures
        r.deep_view() == v.deep_view(),
{
    let mut r: Vec<EnvironmentVariable> = Vec::new();
    let n = v.len();
    let mut i: usize = 0;
    while i < n
        invariant
            0 <= i <= n,
            n == v@.len(),
            r.deep_view() == v.deep_view().take(i as int),
        decreases n - i,
    {
        let ghost before = r.deep_view();
        r.push(v[i].clone());
        proof {
            assert(r.deep_view() =~= before.push(v.deep_view()[i as int]));
            assert(r.deep_view() =~= v.deep_view().take(i + 1));
        }
        i = i + 1;
    }
    proof {
        assert(v.deep_view().take(n as int) =~= v.deep_view());
    }
    r
}

fn clone_port_vec(v: &Vec<PortMapping>) -> (r: Vec<PortMapping>)
    ensures
        r@ == v@,
{
    let mut r: Vec<PortMapping> = Vec::new();
    let n = v.len();
    let mut i: usize = 0;
    while i < n
        invariant
            0 <= i <= n,
            n == v@.len(),
            r@ == v@.take(i as int),
        decreases n - i,
    {
        r.push(v[i]);
        proof {
            assert(r@ =~= v@.take(i + 1));
        }
        i = i + 1;
    }
    proof {
        assert(v@.take(n as int) =~= v@);
    }
    r
}

impl Clone for Service {
    fn clone(&self) -> (r: Self)
        ensures
            r@ == self@,
    {
        let r = Service {
            image: match &self.image {
                Some(v) => Some(v.clone()),
                None => None,
            },
            container_name: match &self.container_name {
                Some(v) => Some(v.clone()),
                None => None,
            },
            environment: clone_environment_vec(&self.environment),
            ports: clone_port_vec(&self.ports),
            expose: clone_string_vec(&self.expose),
        };
        proof {
            assert(r@ =~= self@);
        }
        r
    }
}

} // verus!
