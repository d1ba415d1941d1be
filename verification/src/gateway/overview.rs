//! The overview of a gateway: its device tree, each device with its
//! services and their actions, combined from the device description and the
//! service descriptions that the devices' services name.
use crate::gateway::services::description::{
    self, device_children, device_services, lemma_child_decreases, ServiceDescription,
};
use crate::services::overview::{map_service_from_api, service_view};
use crate::text::{clone_opt_text, opt_text, texts};
use vstd::prelude::*;

pub use crate::services::overview::{AllowedRange, Action, Argument, ArgumentType, Service};

verus! {

/// A device with its services and sub-devices.
#[derive(Debug, PartialEq)]
pub struct Device {
    pub name: String,
    pub udn: String,
    pub kind: String,
    pub model_name: String,
    pub model_number: String,
    pub model_description: String,
    pub url: Option<String>,
    pub services: Vec<self::Service>,
    pub devices: Vec<Self>,
}

impl Clone for Device {
    fn clone(&self) -> Self
        decreases self,
    {
        let mut devices: Vec<Device> = Vec::new();
        let mut j: usize = 0;
        while j < self.devices.len()
            invariant
                j <= self.devices@.len(),
            decreases self.devices.len() - j,
        {
            proof {
                assert(decreases_to!(self => self.devices));
                assert(decreases_to!(self.devices => self.devices@));
                assert(decreases_to!(self.devices@ => self.devices@[j as int]));
            }
            devices.push(self.devices[j].clone());
            j = j + 1;
        }
        Device {
            name: self.name.clone(),
            udn: self.udn.clone(),
            kind: self.kind.clone(),
            model_name: self.model_name.clone(),
            model_number: self.model_number.clone(),
            model_description: self.model_description.clone(),
            url: self.url.clone(),
            services: self.services.clone(),
            devices,
        }
    }
}

/// The service description fetched for an SCPD URL: the first entry of the
/// table with that URL.
pub open spec fn lookup_description(
    table: Seq<(String, ServiceDescription)>,
    url: Seq<char>,
) -> Option<ServiceDescription>
    decreases table.len(),
{
    if table.len() == 0 {
        None
    } else if table[0].0@ == url {
        Some(table[0].1)
    } else {
        lookup_description(table.drop_first(), url)
    }
}

/// The table holds a description for every service of the device and of
/// all its sub-devices.
pub open spec fn overview_available(d: description::Device, table: Seq<(String, ServiceDescription)>) -> bool
    decreases d,
{
    &&& forall|i: int|
        0 <= i < device_services(d).len() ==> (#[trigger] lookup_description(
            table,
            device_services(d)[i].scpd_url@,
        )) is Some
    &&& forall|j: int|
        0 <= j < device_children(d).len() ==> overview_available(
            #[trigger] device_children(d)[j],
            table,
        )
}

/// `o` is the overview of the device `d`: its name, UDN, type, model and
/// presentation URL are the device's; its services are the device's, in
/// their order, each with the actions of its description in the table; its
/// sub-devices are the overviews of the device's sub-devices, in order.
pub open spec fn is_overview_of(
    o: Device,
    d: description::Device,
    table: Seq<(String, ServiceDescription)>,
) -> bool
    decreases d,
{
    &&& o.name@ == d.friendly_name@
    &&& o.udn@ == d.udn@
    &&& o.kind@ == d.device_type@
    &&& o.model_name@ == d.model_name@
    &&& o.model_number@ == d.model_number@
    &&& o.model_description@ == d.model_description@
    &&& opt_text(o.url) == opt_text(d.presentation_url)
    &&& o.services@.len() == device_services(d).len()
    &&& forall|i: int|
        0 <= i < device_services(d).len() ==> (#[trigger] o.services@[i])@ == service_view(
            device_services(d)[i],
            lookup_description(table, device_services(d)[i].scpd_url@)->0,
        )
    &&& o.devices@.len() == device_children(d).len()
    &&& forall|j: int|
        0 <= j < device_children(d).len() ==> is_overview_of(
            #[trigger] o.devices@[j],
            device_children(d)[j],
            table,
        )
}

/// The service description fetched for an SCPD URL.
pub fn lookup_description_exec<'a>(table: &'a Vec<(String, ServiceDescription)>, url: &String) -> (r:
    Option<&'a ServiceDescription>)
    ensures
        match r {
            Some(sd) => lookup_description(table@, url@) == Some(*sd),
            None => lookup_description(table@, url@) is None,
        },
{
    let mut i: usize = 0;
    assert(table@.subrange(0, table@.len() as int) =~= table@);
    while i < table.len()
        invariant
            i <= table@.len(),
            lookup_description(table@, url@) == lookup_description(
                table@.subrange(i as int, table@.len() as int),
                url@,
            ),
        decreases table.len() - i,
    {
        assert(table@.subrange(i as int, table@.len() as int).drop_first() =~= table@.subrange(
            i + 1,
            table@.len() as int,
        ));
        if table[i].0 == *url {
            return Some(&table[i].1);
        }
        i = i + 1;
    }
    None
}

/// The overview of a device, made of the service descriptions in
/// `descriptions` (pairs of an SCPD URL and the description fetched from
/// it); `None` where a service of the device or of a sub-device has no
/// description there.
pub fn create_overview_for_device(
    device: &description::Device,
    descriptions: &Vec<(String, ServiceDescription)>,
) -> (r: Option<Device>)
    ensures
        r is Some <==> overview_available(*device, descriptions@),
        r matches Some(o) ==> is_overview_of(o, *device, descriptions@),
        r matches Some(o) ==> {
            &&& o.name@ == device.friendly_name@
            &&& o.udn@ == device.udn@
            &&& o.kind@ == device.device_type@
            &&& o.model_name@ == device.model_name@
            &&& o.model_number@ == device.model_number@
            &&& o.model_description@ == device.model_description@
            &&& opt_text(o.url) == opt_text(device.presentation_url)
            &&& o.services@.len() == device_services(*device).len()
            &&& o.devices@.len() == device_children(*device).len()
        },
    decreases device,
{
    let mut services: Vec<self::Service> = Vec::new();
    match &device.service_list {
        Some(list) => {
            let mut i: usize = 0;
            while i < list.services.len()
                invariant
                    i <= list.services@.len(),
                    list.services@ == device_services(*device),
                    services@.len() == i,
                    forall|k: int|
                        0 <= k < i ==> (#[trigger] lookup_description(
                            descriptions@,
                            device_services(*device)[k].scpd_url@,
                        )) is Some,
                    forall|k: int|
                        0 <= k < i ==> (#[trigger] services@[k])@ == service_view(
                            device_services(*device)[k],
                            lookup_description(
                                descriptions@,
                                device_services(*device)[k].scpd_url@,
                            )->0,
                        ),
                decreases list.services.len() - i,
            {
                let service = &list.services[i];
                match lookup_description_exec(descriptions, &service.scpd_url) {
                    Some(sd) => {
                        services.push(map_service_from_api(service, sd));
                    },
                    None => {
                        return None;
                    },
                }
                i = i + 1;
            }
        },
        None => {},
    }
    let mut devices: Vec<Device> = Vec::new();
    match &device.device_list {
        Some(list) => {
            let mut j: usize = 0;
            while j < list.devices.len()
                invariant
                    j <= list.devices@.len(),
                    list.devices@ == device_children(*device),
                    devices@.len() == j,
                    forall|k: int|
                        0 <= k < j ==> overview_available(
                            #[trigger] device_children(*device)[k],
                            descriptions@,
                        ),
                    forall|k: int|
                        0 <= k < j ==> is_overview_of(
                            #[trigger] devices@[k],
                            device_children(*device)[k],
                            descriptions@,
                        ),
                decreases list.devices.len() - j,
            {
                proof {
                    lemma_child_decreases(*device, j as int);
                }
                match create_overview_for_device(&list.devices[j], descriptions) {
                    Some(o) => {
                        devices.push(o);
                    },
                    None => {
                        return None;
                    },
                }
                j = j + 1;
            }
        },
        None => {},
    }
    Some(
        Device {
            name: device.friendly_name.clone(),
            udn: device.udn.clone(),
            kind: device.device_type.clone(),
            model_name: device.model_name.clone(),
            model_number: device.model_number.clone(),
            model_description: device.model_description.clone(),
            url: clone_opt_text(&device.presentation_url),
            services,
            devices,
        },
    )
}

/// What an overview holds of its device: the overview of a device carries
/// the device's friendly name, UDN, device type, model name, model number,
/// model description and presentation URL; one service for each of the
/// device's services, in order, with that service's id, type, control URL
/// and SCPD URL, and as many actions as its description lists, each called
/// at the service's control URL as `service_type#name`; and one sub-device
/// for each of the device's sub-devices, in order, which is in turn that
/// sub-device's overview and so carries its fields.
pub proof fn lemma_overview_fields(
    o: Device,
    d: description::Device,
    table: Seq<(String, ServiceDescription)>,
)
    requires
        is_overview_of(o, d, table),
    ensures
        o.name@ == d.friendly_name@,
        o.udn@ == d.udn@,
        o.kind@ == d.device_type@,
        o.model_name@ == d.model_name@,
        o.model_number@ == d.model_number@,
        o.model_description@ == d.model_description@,
        opt_text(o.url) == opt_text(d.presentation_url),
        o.services@.len() == device_services(d).len(),
        forall|i: int|
            #![trigger o.services@[i]]
            0 <= i < device_services(d).len() ==> {
                let s = o.services@[i];
                let ds = device_services(d)[i];
                let sd = lookup_description(table, ds.scpd_url@)->0;
                &&& s.id@ == ds.service_id@
                &&& s.kind@ == ds.service_type@
                &&& s.control_url@ == ds.control_url@
                &&& s.scpd_url@ == ds.scpd_url@
                &&& s.actions@.len() == description::service_actions(sd).len()
                &&& forall|k: int|
                    #![trigger s.actions@[k]]
                    0 <= k < s.actions@.len() ==> {
                        &&& s.actions@[k].name@ == description::service_actions(sd)[k].name@
                        &&& s.actions@[k].control_url@ == ds.control_url@
                        &&& s.actions@[k].soap_action@ == ds.service_type@ + "#"@
                            + description::service_actions(sd)[k].name@
                    }
            },
        o.devices@.len() == device_children(d).len(),
        forall|j: int|
            #![trigger o.devices@[j]]
            0 <= j < device_children(d).len() ==> {
                let c = o.devices@[j];
                let dc = device_children(d)[j];
                &&& c.name@ == dc.friendly_name@
                &&& c.udn@ == dc.udn@
                &&& c.kind@ == dc.device_type@
                &&& c.model_name@ == dc.model_name@
                &&& c.model_number@ == dc.model_number@
                &&& c.model_description@ == dc.model_description@
                &&& opt_text(c.url) == opt_text(dc.presentation_url)
                &&& is_overview_of(c, dc, table)
            },
{
    assert forall|i: int|
        #![trigger o.services@[i]]
        0 <= i < device_services(d).len() implies {
            let s = o.services@[i];
            let ds = device_services(d)[i];
            let sd = lookup_description(table, ds.scpd_url@)->0;
            &&& s.id@ == ds.service_id@
            &&& s.kind@ == ds.service_type@
            &&& s.control_url@ == ds.control_url@
            &&& s.scpd_url@ == ds.scpd_url@
            &&& s.actions@.len() == description::service_actions(sd).len()
            &&& forall|k: int|
                #![trigger s.actions@[k]]
                0 <= k < s.actions@.len() ==> {
                    &&& s.actions@[k].name@ == description::service_actions(sd)[k].name@
                    &&& s.actions@[k].control_url@ == ds.control_url@
                    &&& s.actions@[k].soap_action@ == ds.service_type@ + "#"@
                        + description::service_actions(sd)[k].name@
                }
        } by {
        let s = o.services@[i];
        let ds = device_services(d)[i];
        let sd = lookup_description(table, ds.scpd_url@)->0;
        assert(s@ == service_view(ds, sd));
        crate::services::overview::lemma_service_view_fields(ds, sd);
        assert(s@.actions.len() == s.actions@.len());
        assert forall|k: int|
            #![trigger s.actions@[k]]
            0 <= k < s.actions@.len() implies {
                &&& s.actions@[k].name@ == description::service_actions(sd)[k].name@
                &&& s.actions@[k].control_url@ == ds.control_url@
                &&& s.actions@[k].soap_action@ == ds.service_type@ + "#"@
                    + description::service_actions(sd)[k].name@
            } by {
            assert(s@.actions[k] == s.actions@[k]@);
        }
    }
    assert forall|j: int|
        #![trigger o.devices@[j]]
        0 <= j < device_children(d).len() implies {
            let c = o.devices@[j];
            let dc = device_children(d)[j];
            &&& c.name@ == dc.friendly_name@
            &&& c.udn@ == dc.udn@
            &&& c.kind@ == dc.device_type@
            &&& c.model_name@ == dc.model_name@
            &&& c.model_number@ == dc.model_number@
            &&& c.model_description@ == dc.model_description@
            &&& opt_text(c.url) == opt_text(dc.presentation_url)
            &&& is_overview_of(c, dc, table)
        } by {
        lemma_child_decreases(d, j);
        assert(is_overview_of(o.devices@[j], device_children(d)[j], table));
    }
}

/// The SCPD URLs of a device's own services, in order.
pub open spec fn service_urls(d: description::Device) -> Seq<Seq<char>> {
    device_services(d).map_values(|s: description::Service| s.scpd_url@)
}

/// The SCPD URLs of all services of the device tree, in pre-order: the
/// device's own services, then those of each sub-device in turn.
pub open spec fn device_urls(d: description::Device) -> Seq<Seq<char>>
    decreases d, device_children(d).len() + 1,
{
    service_urls(d) + children_urls(d, device_children(d).len() as int)
}

/// The SCPD URLs of the trees of the first `n` sub-devices, in order.
pub open spec fn children_urls(d: description::Device, n: int) -> Seq<Seq<char>>
    decreases d, n,
{
    if n <= 0 || n > device_children(d).len() {
        Seq::empty()
    } else {
        proof {
            lemma_child_decreases(d, n - 1);
        }
        children_urls(d, n - 1) + device_urls(device_children(d)[n - 1])
    }
}

/// Append the SCPD URLs of the device tree, in pre-order.
fn collect_scpd_urls(device: &description::Device, out: &mut Vec<String>)
    ensures
        texts(final(out)@) == texts(old(out)@) + device_urls(*device),
    decreases device,
{
    let ghost start = texts(out@);
    match &device.service_list {
        Some(list) => {
            let mut i: usize = 0;
            while i < list.services.len()
                invariant
                    i <= list.services@.len(),
                    list.services@ == device_services(*device),
                    texts(out@) == start + service_urls(*device).take(i as int),
                decreases list.services.len() - i,
            {
                let ghost before = out@;
                out.push(list.services[i].scpd_url.clone());
                assert(texts(out@) =~= texts(before).push(list.services@[i as int].scpd_url@));
                assert(service_urls(*device).take(i + 1) =~= service_urls(*device).take(i as int).push(
                    list.services@[i as int].scpd_url@,
                ));
                i = i + 1;
            }
            assert(service_urls(*device).take(i as int) =~= service_urls(*device));
        },
        None => {
            assert(service_urls(*device) =~= Seq::<Seq<char>>::empty());
            assert(texts(out@) =~= start + service_urls(*device));
        },
    }
    let ghost middle = texts(out@);
    match &device.device_list {
        Some(list) => {
            let mut j: usize = 0;
            while j < list.devices.len()
                invariant
                    j <= list.devices@.len(),
                    list.devices@ == device_children(*device),
                    texts(out@) == middle + children_urls(*device, j as int),
                decreases list.devices.len() - j,
            {
                proof {
                    lemma_child_decreases(*device, j as int);
                }
                let ghost before = texts(out@);
                collect_scpd_urls(&list.devices[j], out);
                assert(children_urls(*device, j + 1) == children_urls(*device, j as int)
                    + device_urls(device_children(*device)[j as int]));
                assert(texts(out@) =~= middle + children_urls(*device, j + 1));
                j = j + 1;
            }
        },
        None => {
            assert(children_urls(*device, 0) =~= Seq::<Seq<char>>::empty());
        },
    }
    assert(texts(out@) =~= start + device_urls(*device));
}

/// The SCPD URLs of all services of the device tree, in pre-order: the
/// service descriptions that its overview needs.
pub fn scpd_urls(device: &description::Device) -> (urls: Vec<String>)
    ensures
        texts(urls@) == device_urls(*device),
{
    let mut urls: Vec<String> = Vec::new();
    collect_scpd_urls(device, &mut urls);
    assert(texts(Seq::<String>::empty()) + device_urls(*device) =~= device_urls(*device));
    urls
}

/// The table holds a description for each of the URLs.
pub open spec fn all_fetched(urls: Seq<Seq<char>>, table: Seq<(String, ServiceDescription)>) -> bool {
    forall|k: int| 0 <= k < urls.len() ==> (#[trigger] lookup_description(table, urls[k])) is Some
}

proof fn lemma_all_fetched_concat(
    a: Seq<Seq<char>>,
    b: Seq<Seq<char>>,
    table: Seq<(String, ServiceDescription)>,
)
    ensures
        all_fetched(a + b, table) <==> all_fetched(a, table) && all_fetched(b, table),
{
    if all_fetched(a + b, table) {
        assert forall|k: int| 0 <= k < a.len() implies (#[trigger] lookup_description(
            table,
            a[k],
        )) is Some by {
            assert((a + b)[k] == a[k]);
        }
        assert forall|k: int| 0 <= k < b.len() implies (#[trigger] lookup_description(
            table,
            b[k],
        )) is Some by {
            assert((a + b)[a.len() + k] == b[k]);
        }
    }
    if all_fetched(a, table) && all_fetched(b, table) {
        assert forall|k: int| 0 <= k < (a + b).len() implies (#[trigger] lookup_description(
            table,
            (a + b)[k],
        )) is Some by {
            if k < a.len() {
                assert((a + b)[k] == a[k]);
            } else {
                assert((a + b)[k] == b[k - a.len()]);
            }
        }
    }
}

proof fn lemma_children_fetched(
    d: description::Device,
    n: int,
    table: Seq<(String, ServiceDescription)>,
)
    requires
        0 <= n <= device_children(d).len(),
    ensures
        all_fetched(children_urls(d, n), table) <==> forall|j: int|
            0 <= j < n ==> all_fetched(device_urls(#[trigger] device_children(d)[j]), table),
    decreases n,
{
    if n > 0 {
        lemma_children_fetched(d, n - 1, table);
        lemma_all_fetched_concat(
            children_urls(d, n - 1),
            device_urls(device_children(d)[n - 1]),
            table,
        );
    } else {
        assert(children_urls(d, n) =~= Seq::<Seq<char>>::empty());
    }
}

/// The overview of a device can be made exactly when every SCPD URL that
/// [`scpd_urls`] lists for it has a description in the table: fetching
/// those descriptions is all that the overview needs.
pub proof fn lemma_overview_needs_listed_urls(
    d: description::Device,
    table: Seq<(String, ServiceDescription)>,
)
    ensures
        overview_available(d, table) <==> all_fetched(device_urls(d), table),
    decreases d,
{
    let n = device_children(d).len() as int;
    assert forall|j: int| 0 <= j < n implies (overview_available(
        #[trigger] device_children(d)[j],
        table,
    ) <==> all_fetched(device_urls(device_children(d)[j]), table)) by {
        lemma_child_decreases(d, j);
        lemma_overview_needs_listed_urls(device_children(d)[j], table);
    }
    lemma_children_fetched(d, n, table);
    lemma_all_fetched_concat(service_urls(d), children_urls(d, n), table);
    assert(all_fetched(service_urls(d), table) <==> forall|i: int|
        0 <= i < device_services(d).len() ==> (#[trigger] lookup_description(
            table,
            device_services(d)[i].scpd_url@,
        )) is Some) by {
        if all_fetched(service_urls(d), table) {
            assert forall|i: int| 0 <= i < device_services(d).len() implies (#[trigger] lookup_description(
                table,
                device_services(d)[i].scpd_url@,
            )) is Some by {
                assert(service_urls(d)[i] == device_services(d)[i].scpd_url@);
            }
        }
    }
}

} // verus!
