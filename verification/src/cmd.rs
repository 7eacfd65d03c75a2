//! The configuration a process is started with.

use vstd::prelude::*;

verus! {

/// The whole configuration.
#[derive(Debug, Clone, PartialEq, Eq)]
pub struct Config {
    /// The URL the service is reached under.
    pub url: String,
    /// The OpenID Connect settings.
    pub oidc: OidcConfig,
    /// The backends, in the order in which they are registered.
    pub drivers: Vec<DriverType>,
}

/// The OpenID Connect settings.
#[derive(Debug, Clone, PartialEq, Eq)]
pub struct OidcConfig {
    /// The URL of the OpenID provider.
    pub provider_url: String,
    /// The client identifier.
    pub client_id: String,
    /// The client secret.
    pub client_secret: String,
    /// A JMESPath expression over the claims of a token. Only callers for
    /// whom it yields true are let in.
    pub role_attribute_path: String,
}

/// The settings of one backend, by kind.
#[derive(Debug, Clone, PartialEq, Eq)]
pub enum DriverType {
    Debug(DriverDebug),
    Ipmi(DriverIpmi),
    Wol(DriverWol),
}

/// The settings of a debug backend.
#[derive(Debug, Clone, PartialEq, Eq)]
pub struct DriverDebug {
    /// The backend's identifier; unique among all backends.
    pub name: String,
}

/// The settings of an IPMI backend.
#[derive(Debug, Clone, PartialEq, Eq)]
pub struct DriverIpmi {
    /// The backend's identifier; unique among all backends.
    pub name: String,
    /// The chassis controller's socket address, `host:port`.
    pub server_addr: String,
    /// The IPMI user.
    pub username: String,
    /// The IPMI user's password.
    pub password: String,
}

/// The settings of a Wake-on-LAN backend.
#[derive(Debug, Clone, PartialEq, Eq)]
pub struct DriverWol {
    /// The backend's identifier; unique among all backends.
    pub name: String,
    /// The MAC address the magic packet is made for.
    pub mac_addr: String,
    /// The IP address the machine's state is read from.
    pub ip_addr: String,
}

/// The mathematical value of a [`DriverDebug`].
pub struct DriverDebugView {
    pub name: Seq<char>,
}

/// The mathematical value of a [`DriverIpmi`].
pub struct DriverIpmiView {
    pub name: Seq<char>,
    pub server_addr: Seq<char>,
    pub username: Seq<char>,
    pub password: Seq<char>,
}

/// The mathematical value of a [`DriverWol`].
pub struct DriverWolView {
    pub name: Seq<char>,
    pub mac_addr: Seq<char>,
    pub ip_addr: Seq<char>,
}

/// The mathematical value of a [`DriverType`].
pub enum DriverTypeView {
    Debug(DriverDebugView),
    Ipmi(DriverIpmiView),
    Wol(DriverWolView),
}

impl View for DriverDebug {
    type V = DriverDebugView;

    open spec fn view(&self) -> DriverDebugView {
        DriverDebugView { name: self.name@ }
    }
}

impl View for DriverIpmi {
    type V = DriverIpmiView;

    open spec fn view(&self) -> DriverIpmiView {
        DriverIpmiView {
            name: self.name@,
            server_addr: self.server_addr@,
            username: self.username@,
            password: self.password@,
        }
    }
}

impl View for DriverWol {
    type V = DriverWolView;

    open spec fn view(&self) -> DriverWolView {
        DriverWolView { name: self.name@, mac_addr: self.mac_addr@, ip_addr: self.ip_addr@ }
    }
}

impl View for DriverType {
    type V = DriverTypeView;

    open spec fn view(&self) -> DriverTypeView {
        match self {
            DriverType::Debug(c) => DriverTypeView::Debug(c@),
            DriverType::Ipmi(c) => DriverTypeView::Ipmi(c@),
            DriverType::Wol(c) => DriverTypeView::Wol(c@),
        }
    }
}

/// The mathematical values of a list of backend settings.
pub open spec fn driver_views(drivers: Seq<DriverType>) -> Seq<DriverTypeView> {
    drivers.map_values(|d: DriverType| d@)
}

} // verus!
