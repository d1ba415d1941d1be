use fritz_tr064_upnp::gateway::overview::{create_overview_for_device, scpd_urls};
use fritz_tr064_upnp::gateway::services::description::{
    Action, ActionList, AllowedValueList, AllowedValueRange, Argument, ArgumentDirection,
    ArgumentList, Device, DeviceList, Service, ServiceDescription, ServiceList, ServiceStateTable,
    SpecVersion, StateVariable,
};
use fritz_tr064_upnp::services::overview::{
    self, combine_argument_and_type, extract_arguments_from_action, map_service_from_api,
};

fn service(kind: &str, scpd: &str) -> Service {
    Service {
        service_type: kind.into(),
        service_id: format!("id-{}", kind),
        control_url: format!("/ctl/{}", kind),
        event_sub_url: "/ev".into(),
        scpd_url: scpd.into(),
    }
}

fn device(name: &str, services: Vec<Service>, devices: Vec<Device>) -> Device {
    Device {
        device_type: format!("type-{}", name),
        friendly_name: name.into(),
        manufacturer: "AVM".into(),
        manufacturer_url: "http://avm.de".into(),
        model_description: "desc".into(),
        model_name: "model".into(),
        model_number: "7590".into(),
        model_url: "http://avm.de/model".into(),
        udn: format!("uuid:{}", name),
        upc: None,
        icon_list: None,
        service_list: if services.is_empty() { None } else { Some(ServiceList { services }) },
        device_list: if devices.is_empty() { None } else { Some(DeviceList { devices }) },
        presentation_url: Some("http://fritz.box".into()),
    }
}

fn argument(name: &str, var: &str, direction: ArgumentDirection) -> Argument {
    Argument { name: name.into(), kind: var.into(), direction }
}

fn variables() -> Vec<StateVariable> {
    vec![
        StateVariable {
            name: "Rate".into(),
            kind: "ui4".into(),
            default_value: Some("0".into()),
            allowed_value_list: None,
            allowed_range: Some(AllowedValueRange { minimum: 1, maximum: 100, step: Some(5) }),
        },
        StateVariable {
            name: "Mode".into(),
            kind: "string".into(),
            default_value: None,
            allowed_value_list: Some(AllowedValueList { allowed_values: vec!["DSL".into(), "Cable".into()] }),
            allowed_range: None,
        },
        StateVariable {
            name: "Rate".into(),
            kind: "shadowed".into(),
            default_value: None,
            allowed_value_list: None,
            allowed_range: None,
        },
    ]
}

fn description() -> ServiceDescription {
    ServiceDescription {
        spec_version: SpecVersion { major: 1, minor: 0 },
        action_list: ActionList {
            actions: Some(vec![
                Action {
                    name: "GetInfo".into(),
                    argument_list: Some(ArgumentList {
                        arguments: vec![
                            argument("NewMode", "Mode", ArgumentDirection::In),
                            argument("NewRate", "Rate", ArgumentDirection::Out),
                            argument("NewOther", "Unknown", ArgumentDirection::Out),
                        ],
                    }),
                },
                Action { name: "Reset".into(), argument_list: None },
            ]),
        },
        service_state_table: ServiceStateTable { state_variables: Some(variables()) },
    }
}

#[test]
fn argument_type_from_first_matching_state_variable() {
    let vars = variables();
    let a = combine_argument_and_type(&argument("NewRate", "Rate", ArgumentDirection::Out), &vars);
    assert_eq!(a.name, "NewRate");
    assert_eq!(a.kind.name, "Rate");
    assert_eq!(a.kind.kind.as_deref(), Some("ui4"));
    assert_eq!(a.kind.default.as_deref(), Some("0"));
    assert!(a.kind.allowed_values.is_none());
    let range = a.kind.allowed_range.unwrap();
    assert_eq!(range.range, 1..=100);
    assert_eq!(range.step, Some(5));
    let m = combine_argument_and_type(&argument("NewMode", "Mode", ArgumentDirection::In), &vars);
    assert_eq!(m.kind.allowed_values, Some(vec!["DSL".to_string(), "Cable".to_string()]));
    let u = combine_argument_and_type(&argument("X", "Unknown", ArgumentDirection::In), &vars);
    assert_eq!(u.kind.name, "Unknown");
    assert!(u.kind.kind.is_none() && u.kind.default.is_none() && u.kind.allowed_range.is_none());
}

#[test]
fn extracted_arguments_keep_order() {
    let d = description();
    let actions = d.action_list.actions.as_ref().unwrap();
    let args = extract_arguments_from_action(&actions[0]);
    assert_eq!(args.iter().map(|a| a.name.as_str()).collect::<Vec<_>>(), vec!["NewMode", "NewRate", "NewOther"]);
    assert!(extract_arguments_from_action(&actions[1]).is_empty());
}

#[test]
fn service_actions_split_inputs_and_outputs() {
    let s = map_service_from_api(&service("urn:x:1", "/x.xml"), &description());
    assert_eq!(s.id, "id-urn:x:1");
    assert_eq!(s.kind, "urn:x:1");
    assert_eq!(s.scpd_url, "/x.xml");
    assert_eq!(s.actions.len(), 2);
    let a = &s.actions[0];
    assert_eq!(a.soap_action, "urn:x:1#GetInfo");
    assert_eq!(a.control_url, "/ctl/urn:x:1");
    assert_eq!(a.inputs.len(), 1);
    assert_eq!(a.outputs.len(), 2);
    assert_eq!(a.inputs.len() + a.outputs.len(), 3);
    assert_eq!(a.outputs[1].name, "NewOther");
    assert!(s.actions[1].inputs.is_empty() && s.actions[1].outputs.is_empty());
}

#[test]
fn scpd_urls_in_pre_order() {
    let tree = device(
        "root",
        vec![service("a", "/a.xml")],
        vec![
            device("wan", vec![service("b", "/b.xml"), service("c", "/c.xml")], vec![device("conn", vec![service("d", "/d.xml")], vec![])]),
            device("lan", vec![service("e", "/e.xml")], vec![]),
        ],
    );
    assert_eq!(scpd_urls(&tree), vec!["/a.xml", "/b.xml", "/c.xml", "/d.xml", "/e.xml"]);
}

#[test]
fn overview_mirrors_device_tree() {
    let tree = device("root", vec![service("a", "/a.xml")], vec![device("wan", vec![service("b", "/b.xml")], vec![])]);
    let table: Vec<(String, ServiceDescription)> =
        scpd_urls(&tree).into_iter().map(|u| (u, description())).collect();
    let o = create_overview_for_device(&tree, &table).unwrap();
    assert_eq!(o.name, "root");
    assert_eq!(o.udn, "uuid:root");
    assert_eq!(o.kind, "type-root");
    assert_eq!(o.url.as_deref(), Some("http://fritz.box"));
    assert_eq!(o.services.len(), 1);
    assert_eq!(o.devices.len(), 1);
    assert_eq!(o.devices[0].services[0].actions[0].soap_action, "b#GetInfo");
}

#[test]
fn overview_needs_every_listed_description() {
    let tree = device("root", vec![service("a", "/a.xml")], vec![device("wan", vec![service("b", "/b.xml")], vec![])]);
    let table = vec![("/a.xml".to_string(), description())];
    assert!(create_overview_for_device(&tree, &table).is_none());
    let empty = device("empty", vec![], vec![]);
    assert!(create_overview_for_device(&empty, &Vec::new()).is_some());
}

#[test]
fn device_overview_without_presentation_url() {
    let tree = device("root", vec![service("a", "/a.xml")], vec![device("lan", vec![], vec![])]);
    let table = vec![("/a.xml".to_string(), description())];
    let o = overview::create_overview_for_device(&tree, &table).unwrap();
    assert_eq!(o.name, "root");
    assert_eq!(o.services[0].actions.len(), 2);
    assert_eq!(o.devices.len(), 1);
    assert_eq!(o.devices[0].name, "lan");
    assert!(overview::create_overview_for_device(&tree, &Vec::new()).is_none());
}

#[test]
fn first_description_for_a_url_is_used() {
    let tree = device("root", vec![service("a", "/a.xml")], vec![]);
    let empty = ServiceDescription {
        spec_version: SpecVersion { major: 1, minor: 0 },
        action_list: ActionList { actions: None },
        service_state_table: ServiceStateTable { state_variables: None },
    };
    let table = vec![("/a.xml".to_string(), empty), ("/a.xml".to_string(), description())];
    let o = create_overview_for_device(&tree, &table).unwrap();
    assert!(o.services[0].actions.is_empty());
}
