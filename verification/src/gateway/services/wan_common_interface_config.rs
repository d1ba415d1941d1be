//! The `WANCommonInterfaceConfig` service: its `GetAddonInfos` action.
use crate::gateway::Gateway;
use crate::request::{
    envelope_text, endpoint_url_text, gateway_headers, soap_action_header_value, HttpMethod,
    HttpRequest, HttpRequestView, SOAP_ACTION_HEADER,
};
use crate::text::{decimal, u64_to_decimal};
use vstd::prelude::*;

verus! {

pub const CONTROL_ENDPOINT_PREFIX: &'static str = "/igdupnp/control/WANCommonIFC";

pub const SERVICE_TYPE_PREFIX: &'static str = "urn:schemas-upnp-org:service:WANCommonInterfaceConfig:";

pub const GET_ADDON_INFOS: &'static str = "GetAddonInfos";

/// The answer of `GetAddonInfos`.
#[derive(Debug, PartialEq)]
pub struct GetAddonInfosResponse {
    pub new_byte_send_rate: u32,
    pub new_byte_receive_rate: u32,
    pub new_packet_send_rate: u32,
    pub new_packet_receive_rate: u32,
    pub new_total_bytes_sent: u32,
    pub new_total_bytes_received: u32,
    pub new_auto_disconnect_time: u32,
    pub new_idle_disconnect_time: u32,
    pub new_dns_server_1: String,
    pub new_dns_server_2: String,
    pub new_voip_dns_server_1: String,
    pub new_voip_dns_server_2: String,
    pub new_upnp_control_enabled: bool,
    pub new_routed_bridged_mode_both: u8,
    pub newx_avm_de_total_bytes_sent_64: String,
    pub newx_avm_de_total_bytes_received_64: String,
    pub newx_avm_de_wan_access_type: XAvmDeWanAccessType,
}

/// How the gateway reaches the internet.
#[derive(Clone, Copy, Debug, PartialEq, Eq, Structural)]
pub enum XAvmDeWanAccessType {
    Dsl,
    Ata,
    UsbTethering,
    Cable,
    Lte,
    Serial,
    Wlan,
    Isdn,
    IpClient,
    Fiber,
    Other,
}

/// The version of the service to call: the given one, else 1.
pub open spec fn service_version(version: Option<usize>) -> nat {
    match version {
        Some(v) => v as nat,
        None => 1,
    }
}

/// The control URL of version `version` of the service.
pub open spec fn addon_infos_endpoint(version: Option<usize>) -> Seq<char> {
    CONTROL_ENDPOINT_PREFIX@ + decimal(service_version(version))
}

/// The service type of version `version` of the service.
pub open spec fn addon_infos_service_type(version: Option<usize>) -> Seq<char> {
    SERVICE_TYPE_PREFIX@ + decimal(service_version(version))
}

impl Gateway {
    /// The request that calls `GetAddonInfos` of version `version` (default
    /// 1) of the `WANCommonInterfaceConfig` service.
    pub fn addon_infos_request(&self, version: Option<usize>) -> (r: HttpRequest)
        ensures
            r@ == (HttpRequestView {
                method: HttpMethod::Post,
                url: endpoint_url_text(self@, addon_infos_endpoint(version)),
                headers: gateway_headers(self@).insert(
                    SOAP_ACTION_HEADER@,
                    soap_action_header_value(addon_infos_service_type(version), GET_ADDON_INFOS@),
                ),
                body: Some(envelope_text(addon_infos_service_type(version), GET_ADDON_INFOS@)),
            }),
    {
        let v: usize = match version {
            Some(v) => v,
            None => 1,
        };
        let number = u64_to_decimal(v as u64);
        let mut endpoint = CONTROL_ENDPOINT_PREFIX.to_string();
        endpoint.append(number.as_str());
        let mut service_type = SERVICE_TYPE_PREFIX.to_string();
        service_type.append(number.as_str());
        self.action_request(endpoint.as_str(), service_type.as_str(), GET_ADDON_INFOS)
    }
}

} // verus!
