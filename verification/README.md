# fritz_tr064_upnp

A verified client library for the TR-064/UPnP interface of Fritz!Box
gateways, written in Verus.

- `src/` is the library, each function with a contract that Verus proves:
  - `gateway`: the `Gateway`, its typestate builder, the SSDP search request
    and the parsing of search responses; `gateway::overview` combines device
    and service descriptions into an overview of the device tree;
    `gateway::services` holds the description types and the
    `WANCommonInterfaceConfig` request.
  - `request`: the HTTP requests (URL, a `reqwest` header map, SOAP envelope) sent to a
    gateway, and the judging of a response's status code.
  - `request_helper`: the same for a `UpnpHost` named by a host name.
  - `host`, `text`: host names as the `url` crate parses and prints them,
    decimal rendering, whitespace trimming.
- `app/` is the program around it: UDP discovery, HTTP with `reqwest`, XML
  decoding with `serde-xml-rs`, and the error type with `thiserror`.
- `tests/` runs the library on concrete values.
