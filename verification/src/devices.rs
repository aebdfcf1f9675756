//! Nearby devices found by discovery, and how discovery events update the list
//! the Send view shows.
use vstd::prelude::*;

verus! {

/// A nearby device the user can send to.
#[derive(Clone, PartialEq, Eq, Debug)]
pub struct Device {
    pub id: String,
    pub name: String,
    /// `ip:port` for an mDNS/Wi-Fi endpoint; empty for a Bluetooth-only one.
    pub addr: String,
    /// Set when the device was found over Bluetooth rather than mDNS.
    pub bt_address: Option<String>,
    pub psm: Option<u16>,
}

/// The abstract value of a [`Device`].
pub struct DeviceView {
    pub id: Seq<char>,
    pub name: Seq<char>,
    pub addr: Seq<char>,
    pub bt_address: Option<Seq<char>>,
    pub psm: Option<u16>,
}

impl View for Device {
    type V = DeviceView;

    open spec fn view(&self) -> DeviceView {
        DeviceView {
            id: self.id@,
            name: self.name@,
            addr: self.addr@,
            bt_address: self.bt_address.deep_view(),
            psm: self.psm,
        }
    }
}

/// A discovery event about one endpoint: present or gone, with whatever
/// addressing it carries (mDNS gives ip and port, Bluetooth an address and PSM).
pub struct Endpoint {
    pub id: String,
    pub name: Option<String>,
    pub ip: Option<String>,
    pub port: Option<String>,
    pub present: Option<bool>,
    pub bt_address: Option<String>,
    pub psm: Option<u16>,
}

/// The abstract value of an [`Endpoint`].
pub struct EndpointView {
    pub id: Seq<char>,
    pub name: Option<Seq<char>>,
    pub ip: Option<Seq<char>>,
    pub port: Option<Seq<char>>,
    pub present: Option<bool>,
    pub bt_address: Option<Seq<char>>,
    pub psm: Option<u16>,
}

impl View for Endpoint {
    type V = EndpointView;

    open spec fn view(&self) -> EndpointView {
        EndpointView {
            id: self.id@,
            name: self.name.deep_view(),
            ip: self.ip.deep_view(),
            port: self.port.deep_view(),
            present: self.present,
            bt_address: self.bt_address.deep_view(),
            psm: self.psm,
        }
    }
}

/// The abstract values of a list of devices.
pub open spec fn views(list: Seq<Device>) -> Seq<DeviceView> {
    list.map_values(|d: Device| d@)
}

/// No two devices in the list share an id.
pub open spec fn ids_unique(list: Seq<DeviceView>) -> bool {
    forall|i: int, j: int| 0 <= i < list.len() && 0 <= j < list.len() && i != j ==> list[i].id != list[j].id
}

/// The device an endpoint describes: an mDNS endpoint (ip and port) is reached at
/// `ip:port`; otherwise a Bluetooth one keeps its address and PSM with an empty
/// `addr`; an endpoint with neither describes no device. Its name defaults to its id.
pub open spec fn spec_device_of(ep: EndpointView) -> Option<DeviceView> {
    let name = match ep.name {
        Some(n) => n,
        None => ep.id,
    };
    if ep.ip is Some && ep.port is Some {
        Some(DeviceView {
            id: ep.id,
            name,
            addr: ep.ip->0 + ":"@ + ep.port->0,
            bt_address: None,
            psm: None,
        })
    } else if ep.bt_address is Some {
        Some(DeviceView { id: ep.id, name, addr: Seq::empty(), bt_address: ep.bt_address, psm: ep.psm })
    } else {
        None
    }
}

/// The list without the devices whose id is `id`.
pub open spec fn without_id(list: Seq<DeviceView>, id: Seq<char>) -> Seq<DeviceView> {
    list.filter(|d: DeviceView| d.id != id)
}

/// The list with `dev` in place of the first device with its id, or appended
/// when none has it.
pub open spec fn upserted(list: Seq<DeviceView>, dev: DeviceView) -> Seq<DeviceView> {
    if exists|i: int| 0 <= i < list.len() && list[i].id == dev.id {
        let i = choose|i: int|
            0 <= i < list.len() && list[i].id == dev.id && forall|j: int| 0 <= j < i ==> list[j].id != dev.id;
        list.update(i, dev)
    } else {
        list.push(dev)
    }
}

/// The list after a discovery event: an endpoint reported gone is removed; one
/// that describes a device is added or replaces the entry with its id; anything
/// else leaves the list as it was.
pub open spec fn spec_apply_endpoint(list: Seq<DeviceView>, ep: EndpointView) -> Seq<DeviceView> {
    if ep.present == Some(false) {
        without_id(list, ep.id)
    } else {
        match spec_device_of(ep) {
            Some(dev) => upserted(list, dev),
            None => list,
        }
    }
}

fn copy_opt(s: &Option<String>) -> (r: Option<String>)
    ensures
        r.deep_view() == s.deep_view(),
{
    match s {
        Some(x) => Some(x.clone()),
        None => None,
    }
}

impl Device {
    /// A copy of this device.
    pub fn copy(&self) -> (d: Device)
        ensures
            d@ == self@,
    {
        Device {
            id: self.id.clone(),
            name: self.name.clone(),
            addr: self.addr.clone(),
            bt_address: copy_opt(&self.bt_address),
            psm: self.psm,
        }
    }
}

/// The device an endpoint describes, if any.
pub fn device_from_endpoint(ep: &Endpoint) -> (d: Option<Device>)
    ensures
        match d {
            Some(d) => spec_device_of(ep@) == Some(d@),
            None => spec_device_of(ep@) is None,
        },
{
    let name = match &ep.name {
        Some(n) => n.clone(),
        None => ep.id.clone(),
    };
    match (&ep.ip, &ep.port) {
        (Some(ip), Some(port)) => {
            let mut addr = ip.clone();
            addr.append(":");
            addr.append(port.as_str());
            return Some(Device { id: ep.id.clone(), name, addr, bt_address: None, psm: None });
        },
        _ => {},
    }
    match &ep.bt_address {
        Some(bt) => {
            let addr = String::new();
            Some(Device { id: ep.id.clone(), name, addr, bt_address: Some(bt.clone()), psm: ep.psm })
        },
        None => None,
    }
}

/// Removes every device whose id is `id`, keeping the others in order.
pub fn remove_id(list: &mut Vec<Device>, id: &String)
    ensures
        views(final(list)@) == without_id(views(old(list)@), id@),
{
    let ghost pred = |d: DeviceView| d.id != id@;
    let mut kept: Vec<Device> = Vec::new();
    let n = list.len();
    let mut i: usize = 0;
    while i < n
        invariant
            n == list@.len(),
            i <= n,
            pred == (|d: DeviceView| d.id != id@),
            views(kept@) =~= views(list@).take(i as int).filter(pred),
        decreases n - i,
    {
        let ghost t = views(list@).take(i + 1);
        proof {
            assert(t.drop_last() =~= views(list@).take(i as int));
            assert(t.last() == list@[i as int]@);
        }
        let same = list[i].id == *id;
        if !same {
            kept.push(list[i].copy());
            assert(views(kept@) =~= views(list@).take(i as int).filter(pred).push(list@[i as int]@));
        }
        proof {
            reveal_with_fuel(Seq::filter, 1);
            assert(t.len() > 0);
            assert(t.filter(pred) == (if pred(t.last()) {
                t.drop_last().filter(pred).push(t.last())
            } else {
                t.drop_last().filter(pred)
            }));
            assert(views(kept@) =~= t.filter(pred));
        }
        i = i + 1;
    }
    assert(views(list@).take(n as int) =~= views(list@));
    *list = kept;
}

/// Adds `dev`, or puts it in place of the first device with the same id.
pub fn upsert(list: &mut Vec<Device>, dev: Device)
    ensures
        views(final(list)@) == upserted(views(old(list)@), dev@),
{
    let n = list.len();
    let mut i: usize = 0;
    while i < n
        invariant
            n == list@.len(),
            list@ == old(list)@,
            i <= n,
            forall|j: int| 0 <= j < i ==> list@[j].id@ != dev.id@,
        decreases n - i,
    {
        if list[i].id == dev.id {
            let ghost l = views(old(list)@);
            assert(l[i as int].id == dev@.id);
            let ghost k = choose|k: int|
                0 <= k < l.len() && l[k].id == dev@.id && forall|j: int| 0 <= j < k ==> l[j].id != dev@.id;
            assert(k == i) by {
                if k < i {
                    assert(l[k].id == list@[k].id@);
                }
                if k > i {
                    assert(l[i as int].id != dev@.id);
                }
            }
            list.set(i, dev);
            assert(views(list@) =~= l.update(i as int, dev@));
            return;
        }
        i = i + 1;
    }
    let ghost l = views(old(list)@);
    assert(!exists|k: int| 0 <= k < l.len() && l[k].id == dev@.id) by {
        assert forall|k: int| 0 <= k < l.len() implies l[k].id != dev@.id by {
            assert(l[k].id == list@[k].id@);
        }
    }
    list.push(dev);
    assert(views(list@) =~= l.push(dev@));
}

/// Applies one discovery event to the device list.
pub fn apply_endpoint(list: &mut Vec<Device>, ep: &Endpoint)
    ensures
        views(final(list)@) == spec_apply_endpoint(views(old(list)@), ep@),
{
    if ep.present == Some(false) {
        remove_id(list, &ep.id);
    } else {
        match device_from_endpoint(ep) {
            Some(dev) => upsert(list, dev),
            None => {},
        }
    }
}

} // verus!

verus! {

proof fn lemma_filter_keeps_ids_unique(s: Seq<DeviceView>, p: spec_fn(DeviceView) -> bool)
    requires
        ids_unique(s),
    ensures
        ids_unique(s.filter(p)),
    decreases s.len(),
{
    reveal_with_fuel(Seq::filter, 1);
    if s.len() > 0 {
        let rest = s.drop_last();
        assert(ids_unique(rest)) by {
            assert forall|i: int, j: int|
                0 <= i < rest.len() && 0 <= j < rest.len() && i != j implies rest[i].id != rest[j].id by {
                assert(rest[i] == s[i] && rest[j] == s[j]);
            }
        }
        lemma_filter_keeps_ids_unique(rest, p);
        let f = rest.filter(p);
        if p(s.last()) {
            assert forall|i: int| 0 <= i < f.len() implies f[i].id != s.last().id by {
                assert(f.contains(f[i]));
                rest.lemma_filter_contains_rev(p, f[i]);
                let k = choose|k: int| 0 <= k < rest.len() && rest[k] == f[i];
                assert(s[k] == f[i]);
            }
            let g = f.push(s.last());
            assert forall|i: int, j: int|
                0 <= i < g.len() && 0 <= j < g.len() && i != j implies g[i].id != g[j].id by {
                if i < f.len() && j < f.len() {
                    assert(g[i] == f[i] && g[j] == f[j]);
                } else if i < f.len() {
                    assert(g[i] == f[i]);
                } else if j < f.len() {
                    assert(g[j] == f[j]);
                }
            }
        }
    }
}

/// Discovery never lists a device twice: every event keeps the ids of a list unique.
pub proof fn law_ids_stay_unique(list: Seq<DeviceView>, ep: EndpointView)
    requires
        ids_unique(list),
    ensures
        ids_unique(spec_apply_endpoint(list, ep)),
{
    if ep.present == Some(false) {
        lemma_filter_keeps_ids_unique(list, |d: DeviceView| d.id != ep.id);
    } else if let Some(dev) = spec_device_of(ep) {
        let r = upserted(list, dev);
        if exists|i: int| 0 <= i < list.len() && list[i].id == dev.id {
            let k = choose|k: int|
                0 <= k < list.len() && list[k].id == dev.id && forall|j: int| 0 <= j < k ==> list[j].id != dev.id;
            assert(r == list.update(k, dev));
            assert forall|i: int, j: int|
                0 <= i < r.len() && 0 <= j < r.len() && i != j implies r[i].id != r[j].id by {
                if i != k && j != k {
                    assert(r[i] == list[i] && r[j] == list[j]);
                } else if i == k {
                    assert(r[j] == list[j]);
                } else {
                    assert(r[i] == list[i]);
                }
            }
        } else {
            assert forall|i: int, j: int|
                0 <= i < r.len() && 0 <= j < r.len() && i != j implies r[i].id != r[j].id by {
                if i < list.len() && j < list.len() {
                    assert(r[i] == list[i] && r[j] == list[j]);
                } else if i < list.len() {
                    assert(r[i] == list[i]);
                } else if j < list.len() {
                    assert(r[j] == list[j]);
                }
            }
        }
    }
}

/// A device reported gone is no longer listed, and every other listed device stays.
pub proof fn law_gone_device_is_removed(list: Seq<DeviceView>, ep: EndpointView)
    requires
        ep.present == Some(false),
    ensures
        forall|i: int|
            0 <= i < spec_apply_endpoint(list, ep).len() ==> #[trigger] spec_apply_endpoint(list, ep)[i].id != ep.id,
        forall|i: int|
            0 <= i < list.len() && list[i].id != ep.id ==> spec_apply_endpoint(list, ep).contains(#[trigger] list[i]),
{
    let p = |d: DeviceView| d.id != ep.id;
    let r = list.filter(p);
    assert forall|i: int| 0 <= i < r.len() implies #[trigger] r[i].id != ep.id by {
        list.lemma_filter_pred(p, i);
    }
    assert forall|i: int| 0 <= i < list.len() && list[i].id != ep.id implies r.contains(#[trigger] list[i]) by {
        list.lemma_filter_contains(p, i);
    }
}

/// A device reported present is listed exactly as its endpoint describes it, and
/// in a list with unique ids it is the only entry with its id; every device with
/// another id stays where it was.
pub proof fn law_present_device_is_listed(list: Seq<DeviceView>, ep: EndpointView)
    requires
        ids_unique(list),
        ep.present != Some(false),
        spec_device_of(ep) is Some,
    ensures
        ({
            let r = spec_apply_endpoint(list, ep);
            let dev = spec_device_of(ep)->0;
            &&& r.contains(dev)
            &&& forall|j: int| 0 <= j < r.len() && r[j].id == dev.id ==> r[j] == dev
            &&& forall|i: int| 0 <= i < list.len() && list[i].id != dev.id ==> r[i] == list[i]
        }),
{
    let dev = spec_device_of(ep)->0;
    let r = spec_apply_endpoint(list, ep);
    law_ids_stay_unique(list, ep);
    if exists|i: int| 0 <= i < list.len() && list[i].id == dev.id {
        let k = choose|k: int|
            0 <= k < list.len() && list[k].id == dev.id && forall|j: int| 0 <= j < k ==> list[j].id != dev.id;
        assert(r == list.update(k, dev));
        assert(r[k] == dev);
        assert forall|j: int| 0 <= j < r.len() && r[j].id == dev.id implies r[j] == dev by {
            if j != k {
                assert(r[j].id != r[k].id);
            }
        }
    } else {
        assert(r == list.push(dev));
        assert(r[list.len() as int] == dev);
        assert forall|j: int| 0 <= j < r.len() && r[j].id == dev.id implies r[j] == dev by {
            if j < list.len() {
                assert(r[j] == list[j]);
            }
        }
    }
}

} // verus!

verus! {

/// The device an endpoint describes keeps the endpoint's id, and its name does not
/// depend on how it is addressed: it is the endpoint's name when it has one and its
/// id otherwise. A Bluetooth-only device keeps the endpoint's Bluetooth address and
/// PSM; an mDNS device has no Bluetooth address.
pub proof fn law_device_identity(ep: EndpointView)
    ensures
        spec_device_of(ep) matches Some(d) ==> {
            &&& d.id == ep.id
            &&& d.name == (match ep.name {
                Some(n) => n,
                None => ep.id,
            })
            &&& (d.bt_address is Some <==> d.addr.len() == 0)
            &&& d.bt_address is Some ==> d.bt_address == ep.bt_address && d.psm == ep.psm
        },
        spec_device_of(ep) is None <==> ((ep.ip is None || ep.port is None) && ep.bt_address is None),
{
    if let Some(d) = spec_device_of(ep) {
        if ep.ip is Some && ep.port is Some {
            reveal_strlit(":");
            assert(d.addr.len() >= 1);
        }
    }
}

} // verus!
