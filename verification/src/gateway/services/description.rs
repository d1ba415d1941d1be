//! The UPnP device description (`igddesc.xml`) and service descriptions
//! (SCPD documents) of a gateway, as plain values. Reading them from XML is
//! the caller's work.
use crate::gateway::Gateway;
use crate::request::{endpoint_url_text, gateway_headers, HttpMethod, HttpRequest, HttpRequestView};
use vstd::prelude::*;

verus! {

#[derive(Clone, Copy, Debug, PartialEq, Eq, Structural)]
pub struct SpecVersion {
    pub major: usize,
    pub minor: usize,
}

#[derive(Debug, PartialEq)]
pub struct ApiDescription {
    pub spec_version: SpecVersion,
    pub url_base: Option<String>,
    pub device: Device,
}

#[derive(Debug, PartialEq)]
pub struct Device {
    pub device_type: String,
    pub friendly_name: String,
    pub manufacturer: String,
    pub manufacturer_url: String,
    pub model_description: String,
    pub model_name: String,
    pub model_number: String,
    pub model_url: String,
    pub udn: String,
    pub upc: Option<String>,
    pub icon_list: Option<IconList>,
    pub service_list: Option<ServiceList>,
    pub device_list: Option<DeviceList>,
    pub presentation_url: Option<String>,
}

#[derive(Debug, PartialEq)]
pub struct IconList {
    pub icons: Vec<Icon>,
}

#[derive(Debug, PartialEq)]
pub struct Icon {
    pub mimetype: String,
    pub width: usize,
    pub height: usize,
    pub depth: usize,
    pub url: String,
}

#[derive(Debug, PartialEq)]
pub struct ServiceList {
    pub services: Vec<Service>,
}

#[derive(Debug, PartialEq)]
pub struct Service {
    pub service_type: String,
    pub service_id: String,
    pub control_url: String,
    pub event_sub_url: String,
    pub scpd_url: String,
}

#[derive(Debug, PartialEq)]
pub struct DeviceList {
    pub devices: Vec<Device>,
}

#[derive(Debug, PartialEq)]
pub struct ServiceDescription {
    pub spec_version: SpecVersion,
    pub action_list: ActionList,
    pub service_state_table: ServiceStateTable,
}

#[derive(Debug, PartialEq)]
pub struct ActionList {
    pub actions: Option<Vec<Action>>,
}

#[derive(Debug, PartialEq)]
pub struct Action {
    pub name: String,
    pub argument_list: Option<ArgumentList>,
}

#[derive(Debug, PartialEq)]
pub struct ArgumentList {
    pub arguments: Vec<Argument>,
}

/// An argument of an action; `kind` names its related state variable.
#[derive(Debug, PartialEq)]
pub struct Argument {
    pub name: String,
    pub kind: String,
    pub direction: ArgumentDirection,
}

impl Clone for Argument {
    fn clone(&self) -> (a: Self)
        ensures
            a == *self,
    {
        Argument { name: self.name.clone(), kind: self.kind.clone(), direction: self.direction }
    }
}

#[derive(Clone, Copy, Debug, PartialEq, Eq, Structural)]
pub enum ArgumentDirection {
    In,
    Out,
}

#[derive(Debug, PartialEq)]
pub struct ServiceStateTable {
    pub state_variables: Option<Vec<StateVariable>>,
}

/// A state variable of a service; `kind` is its data type.
#[derive(Debug, PartialEq)]
pub struct StateVariable {
    pub name: String,
    pub kind: String,
    pub default_value: Option<String>,
    pub allowed_value_list: Option<AllowedValueList>,
    pub allowed_range: Option<AllowedValueRange>,
}

#[derive(Debug, PartialEq)]
pub struct AllowedValueList {
    pub allowed_values: Vec<String>,
}

#[derive(Clone, Copy, Debug, PartialEq, Eq, Structural)]
pub struct AllowedValueRange {
    pub minimum: usize,
    pub maximum: usize,
    pub step: Option<usize>,
}

/// The services that a device lists.
pub open spec fn device_services(d: Device) -> Seq<Service> {
    match d.service_list {
        Some(l) => l.services@,
        None => Seq::empty(),
    }
}

/// The sub-devices that a device lists.
pub open spec fn device_children(d: Device) -> Seq<Device> {
    match d.device_list {
        Some(l) => l.devices@,
        None => Seq::empty(),
    }
}

/// The actions that a service description lists.
pub open spec fn service_actions(sd: ServiceDescription) -> Seq<Action> {
    match sd.action_list.actions {
        Some(v) => v@,
        None => Seq::empty(),
    }
}

/// The state variables that a service description lists.
pub open spec fn state_variables(sd: ServiceDescription) -> Seq<StateVariable> {
    match sd.service_state_table.state_variables {
        Some(v) => v@,
        None => Seq::empty(),
    }
}

/// The arguments that an action lists.
pub open spec fn action_arguments(a: Action) -> Seq<Argument> {
    match a.argument_list {
        Some(l) => l.arguments@,
        None => Seq::empty(),
    }
}

pub proof fn lemma_child_decreases(d: Device, j: int)
    requires
        0 <= j < device_children(d).len(),
    ensures
        decreases_to!(d => device_children(d)[j]),
{
    let l = d.device_list->0;
    assert(decreases_to!(d => d.device_list));
    assert(decreases_to!(l => l.devices));
    assert(decreases_to!(l.devices => l.devices@));
    assert(decreases_to!(l.devices@ => l.devices@[j]));
}

impl Gateway {
    /// The request for the gateway's device description, at its root URL
    /// (the location of the XML with the API description).
    pub fn api_description_request(&self) -> (r: HttpRequest)
        ensures
            r@ == (HttpRequestView {
                method: HttpMethod::Get,
                url: endpoint_url_text(self@, self.root_url@),
                headers: gateway_headers(self@),
                body: None,
            }),
    {
        self.api_xml_request(self.root_url.as_str())
    }

    /// The request for the service description (SCPD) at `endpoint`.
    pub fn service_description_request(&self, endpoint: &str) -> (r: HttpRequest)
        ensures
            r@ == (HttpRequestView {
                method: HttpMethod::Get,
                url: endpoint_url_text(self@, endpoint@),
                headers: gateway_headers(self@),
                body: None,
            }),
    {
        self.api_xml_request(endpoint)
    }
}

} // verus!
