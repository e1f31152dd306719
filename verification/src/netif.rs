//! Local network interfaces, and which of them are offered for binding.

use crate::addr::Ipv4;
use crate::text::{starts_with, string_from_chars};
use vstd::prelude::*;
use vstd::string::StringExecFns;

verus! {

/// One IPv4 address of an interface, with the broadcast address of its
/// network.
#[derive(Clone, Copy, Debug, PartialEq, Eq, Structural)]
pub struct Ipv4Net {
    pub addr: Ipv4,
    pub broadcast: Ipv4,
}

/// What the system tells of one interface.
#[derive(Clone, Debug, PartialEq, Eq)]
pub struct Iface {
    pub name: String,
    pub friendly_name: Option<String>,
    pub ipv4: Vec<Ipv4Net>,
    pub physical: bool,
    pub up: bool,
    pub running: bool,
    pub loopback: bool,
    pub broadcast: bool,
}

/// An interface as a plain value.
pub struct IfaceView {
    pub name: Seq<char>,
    pub friendly_name: Option<Seq<char>>,
    pub ipv4: Seq<Ipv4Net>,
    pub physical: bool,
    pub up: bool,
    pub running: bool,
    pub loopback: bool,
    pub broadcast: bool,
}

impl View for Iface {
    type V = IfaceView;

    open spec fn view(&self) -> IfaceView {
        IfaceView {
            name: self.name@,
            friendly_name: match self.friendly_name {
                Some(n) => Some(n@),
                None => None,
            },
            ipv4: self.ipv4@,
            physical: self.physical,
            up: self.up,
            running: self.running,
            loopback: self.loopback,
            broadcast: self.broadcast,
        }
    }
}

/// An IPv4 address of an interface, with the broadcast address where the
/// system knows one.
#[derive(Clone, Copy, Debug, PartialEq, Eq, Structural)]
pub struct V4Address {
    pub ip: Ipv4,
    pub broadcast: Option<Ipv4>,
}

/// One address of the system under the name of its interface. `addr` is
/// absent for an address that is not IPv4.
#[derive(Clone, Debug, PartialEq, Eq)]
pub struct IfAddress {
    pub name: String,
    pub addr: Option<V4Address>,
}

/// An address of the system as a plain value.
pub struct IfAddressView {
    pub name: Seq<char>,
    pub addr: Option<V4Address>,
}

impl View for IfAddress {
    type V = IfAddressView;

    open spec fn view(&self) -> IfAddressView {
        IfAddressView { name: self.name@, addr: self.addr }
    }
}

/// A local address that can be bound, under the name of its interface.
#[derive(Clone, Debug, PartialEq, Eq)]
pub struct Netif {
    pub name: String,
    pub ip: Ipv4,
    pub bc: Option<Ipv4>,
}

/// A bindable address as a plain value.
pub struct NetifView {
    pub name: Seq<char>,
    pub ip: Ipv4,
    pub bc: Option<Ipv4>,
}

impl View for Netif {
    type V = NetifView;

    open spec fn view(&self) -> NetifView {
        NetifView { name: self.name@, ip: self.ip, bc: self.bc }
    }
}

/// The plain values of a list of interfaces.
pub open spec fn iface_views(v: Seq<Iface>) -> Seq<IfaceView> {
    v.map_values(|i: Iface| i@)
}

/// The plain values of a list of bindable addresses.
pub open spec fn netif_views(v: Seq<Netif>) -> Seq<NetifView> {
    v.map_values(|n: Netif| n@)
}

/// Whether an interface is offered: it has an IPv4 address, is up, and is
/// physical or the loopback.
pub open spec fn offered(i: IfaceView) -> bool {
    i.ipv4.len() > 0 && i.up && (i.ipv4[0].addr.loopback() || i.physical)
}

/// The entry for an offered interface: its first IPv4 address, with the
/// broadcast address unless it is the loopback. `friendly` asks for the
/// interface's friendly name where it has one.
pub open spec fn entry_of(i: IfaceView, friendly: bool) -> NetifView {
    NetifView {
        name: if friendly && i.friendly_name is Some {
            i.friendly_name->0
        } else {
            i.name
        },
        ip: i.ipv4[0].addr,
        bc: if i.ipv4[0].addr.loopback() {
            None
        } else {
            Some(i.ipv4[0].broadcast)
        },
    }
}

/// The entry that stands for every local address, `0.0.0.0`.
pub open spec fn any_entry() -> NetifView {
    NetifView { name: "INADDR_ANY"@, ip: Ipv4(0, 0, 0, 0), bc: None }
}

/// The entries for the offered ones among `ifaces`, in order.
pub open spec fn offered_entries(ifaces: Seq<IfaceView>, friendly: bool) -> Seq<NetifView> {
    ifaces.filter(|i: IfaceView| offered(i)).map_values(|i: IfaceView| entry_of(i, friendly))
}

/// The list for binding: the offered interfaces, then `0.0.0.0`.
pub open spec fn selection(ifaces: Seq<IfaceView>, friendly: bool) -> Seq<NetifView> {
    offered_entries(ifaces, friendly).push(any_entry())
}

/// Whether an interface counts as live: it has an IPv4 address and is the
/// loopback, or physical and running.
pub open spec fn live(i: IfaceView) -> bool {
    i.ipv4.len() > 0 && (i.loopback || (i.physical && i.running))
}

/// The entry for a live interface: its first IPv4 address, with the
/// broadcast address where the interface can broadcast.
pub open spec fn live_entry_of(i: IfaceView) -> NetifView {
    NetifView {
        name: i.name,
        ip: i.ipv4[0].addr,
        bc: if i.broadcast {
            Some(i.ipv4[0].broadcast)
        } else {
            None
        },
    }
}

/// The entries for the live ones among `ifaces`, in order.
pub open spec fn live_entries(ifaces: Seq<IfaceView>) -> Seq<NetifView> {
    ifaces.filter(|i: IfaceView| live(i)).map_values(|i: IfaceView| live_entry_of(i))
}

/// Whether a name begins like that of a virtual interface.
pub open spec fn virtual_name(name: Seq<char>) -> bool {
    ||| "veth"@.is_prefix_of(name)
    ||| "docker"@.is_prefix_of(name)
    ||| "vmnet"@.is_prefix_of(name)
    ||| "vbox"@.is_prefix_of(name)
    ||| "utun"@.is_prefix_of(name)
    ||| "tun"@.is_prefix_of(name)
    ||| "tap"@.is_prefix_of(name)
    ||| "ipsec"@.is_prefix_of(name)
}

/// `name` in lower case, as `str::to_lowercase` makes it.
pub uninterp spec fn lowercase_text(name: Seq<char>) -> Seq<char>;

/// Lower-cases `name` with `str::to_lowercase` of std. The result depends on
/// the text alone.
#[verifier::external_body]
fn lowercase(name: &str) -> (s: String)
    ensures
        s@ == lowercase_text(name@),
{
    name.to_lowercase()
}

/// The plain values of a list of addresses.
pub open spec fn address_views(v: Seq<IfAddress>) -> Seq<IfAddressView> {
    v.map_values(|a: IfAddress| a@)
}

/// The entry for an address under the name `lower`, its interface's name in
/// lower case: none for an address that is not IPv4, and none where the name
/// is that of a virtual interface.
pub open spec fn named_entry(lower: Seq<char>, addr: Option<V4Address>) -> Option<NetifView> {
    match addr {
        Some(a) => if virtual_name(lower) {
            None
        } else {
            Some(NetifView { name: lower, ip: a.ip, bc: a.broadcast })
        },
        None => None,
    }
}

/// The entries for `addrs`, in order, each under its lower-cased name.
pub open spec fn named_entries(addrs: Seq<IfAddressView>) -> Seq<NetifView>
    decreases addrs.len(),
{
    if addrs.len() == 0 {
        Seq::empty()
    } else {
        let front = named_entries(addrs.drop_last());
        match named_entry(lowercase_text(addrs.last().name), addrs.last().addr) {
            Some(e) => front.push(e),
            None => front,
        }
    }
}

/// Reads the addresses of this machine with `get_if_addrs::get_if_addrs` and
/// writes each as plain values; nothing where the system call failed.
/// Nothing is claimed of what is found.
#[verifier::external_body]
fn system_addresses() -> (v: Option<Vec<IfAddress>>) {
    get_if_addrs::get_if_addrs().ok().map(|list| list.into_iter().map(|i| IfAddress {
        name: i.name,
        addr: match i.addr {
            get_if_addrs::IfAddr::V4(a) => Some(V4Address {
                ip: Ipv4::from_octets(a.ip.octets()),
                broadcast: a.broadcast.map(|b| Ipv4::from_octets(b.octets())),
            }),
            get_if_addrs::IfAddr::V6(_) => None,
        },
    }).collect())
}

/// Reads the interfaces of this machine with `netdev::get_interfaces` and
/// writes each as plain values: names, flags, and each IPv4 network by its
/// address and its broadcast address. Nothing is claimed of what is found.
#[verifier::external_body]
fn system_interfaces() -> (v: Vec<Iface>) {
    netdev::get_interfaces().into_iter().map(|i| Iface {
        physical: i.is_physical(),
        up: i.is_up(),
        running: i.is_running(),
        loopback: i.is_loopback(),
        broadcast: i.is_broadcast(),
        ipv4: i.ipv4.iter().map(|n| Ipv4Net {
            addr: Ipv4::from_octets(n.addr().octets()),
            broadcast: Ipv4::from_octets(n.broadcast().octets()),
        }).collect(),
        name: i.name,
        friendly_name: i.friendly_name,
    }).collect()
}

impl Netif {
    /// The entry as one line: name, address, and the broadcast address where
    /// there is one.
    pub open spec fn line(self) -> Seq<char> {
        match self.bc {
            Some(bc) => self.name@ + " - "@ + self.ip.text() + " ( bc = "@ + bc.text() + " )"@,
            None => self.name@ + " - "@ + self.ip.text(),
        }
    }

    /// The address to start from when typing a neighbour's address.
    pub open spec fn template(self) -> Seq<char> {
        if self.ip.loopback() {
            self.ip.text()
        } else if self.ip.zero() {
            Ipv4(127, 0, 0, 1).text()
        } else {
            self.ip.prefix_text()
        }
    }

    /// The entry as one line.
    pub fn describe(&self) -> (s: String)
        ensures
            s@ == self.line(),
    {
        let mut s = self.name.clone();
        s.append(" - ");
        s.append(self.ip.to_text().as_str());
        match self.bc {
            Some(bc) => {
                s.append(" ( bc = ");
                s.append(bc.to_text().as_str());
                s.append(" )");
            },
            None => {},
        }
        s
    }

    /// An address to start from when typing a neighbour's address: the
    /// loopback address itself, `127.0.0.1` for `0.0.0.0`, else the first
    /// three octets with their dots.
    pub fn remote_ip_template(&self) -> (s: String)
        ensures
            s@ == self.template(),
    {
        if self.ip.is_loopback() {
            return self.ip.to_text();
        }
        if self.ip.is_unspecified() {
            return Ipv4::localhost().to_text();
        }
        string_from_chars(self.ip.prefix_chars())
    }

    /// The list for binding out of what the system tells: each interface that
    /// is offered, by its first IPv4 address, then `0.0.0.0`.
    pub fn select(ifaces: &Vec<Iface>, friendly: bool) -> (res: Vec<Netif>)
        ensures
            netif_views(res@) == selection(iface_views(ifaces@), friendly),
    {
        let mut res: Vec<Netif> = Vec::new();
        let ghost all = iface_views(ifaces@);
        let mut k: usize = 0;
        while k < ifaces.len()
            invariant
                k <= ifaces.len(),
                all == iface_views(ifaces@),
                netif_views(res@) == offered_entries(all.take(k as int), friendly),
            decreases ifaces.len() - k,
        {
            let iface = &ifaces[k];
            proof {
                lemma_offered_step(all, k as int, friendly);
            }
            let ghost before = res@;
            if iface.ipv4.len() > 0 && iface.up && (iface.ipv4[0].addr.is_loopback()
                || iface.physical) {
                let first = iface.ipv4[0];
                let name = match &iface.friendly_name {
                    Some(n) => if friendly {
                        n.clone()
                    } else {
                        iface.name.clone()
                    },
                    None => iface.name.clone(),
                };
                let bc = if first.addr.is_loopback() {
                    None
                } else {
                    Some(first.broadcast)
                };
                let entry = Netif { name, ip: first.addr, bc };
                res.push(entry);
                proof {
                    assert(netif_views(res@) =~= netif_views(before).push(entry@));
                }
            }
            k = k + 1;
        }
        proof {
            assert(all.take(ifaces.len() as int) =~= all);
        }
        let ghost before = res@;
        let any = Netif { name: String::from_str("INADDR_ANY"), ip: Ipv4::unspecified(), bc: None };
        res.push(any);
        proof {
            assert(netif_views(res@) =~= netif_views(before).push(any@));
        }
        res
    }

    /// The list for binding on this machine: what `select` makes of the
    /// interfaces that the system reports, under their friendly names where
    /// `friendly` asks for them. Whatever is found, the list ends with
    /// `0.0.0.0`.
    pub fn get_local_netif_named(friendly: bool) -> (res: Vec<Netif>)
        ensures
            exists|ifaces: Seq<IfaceView>|
                netif_views(res@) == #[trigger] selection(ifaces, friendly),
            res@.len() >= 1,
            res@.last()@ == any_entry(),
    {
        let ifaces = system_interfaces();
        let res = Netif::select(&ifaces, friendly);
        proof {
            let views = iface_views(ifaces@);
            assert(netif_views(res@) == selection(views, friendly));
            assert(netif_views(res@).len() == res@.len());
            assert(netif_views(res@).last() == res@.last()@);
        }
        res
    }

    /// The list for binding on this machine under the interfaces' system
    /// names: `get_local_netif_named(false)`.
    pub fn get_local_netif() -> (res: Vec<Netif>)
        ensures
            exists|ifaces: Seq<IfaceView>| netif_views(res@) == #[trigger] selection(ifaces, false),
            res@.len() >= 1,
            res@.last()@ == any_entry(),
    {
        Netif::get_local_netif_named(false)
    }

    /// The entries for the live interfaces among `ifaces`: the loopback, and
    /// each physical interface that runs.
    pub fn select_live(ifaces: &Vec<Iface>) -> (res: Vec<Netif>)
        ensures
            netif_views(res@) == live_entries(iface_views(ifaces@)),
    {
        let mut res: Vec<Netif> = Vec::new();
        let ghost all = iface_views(ifaces@);
        let mut k: usize = 0;
        while k < ifaces.len()
            invariant
                k <= ifaces.len(),
                all == iface_views(ifaces@),
                netif_views(res@) == live_entries(all.take(k as int)),
            decreases ifaces.len() - k,
        {
            let iface = &ifaces[k];
            proof {
                lemma_live_step(all, k as int);
            }
            let ghost before = res@;
            if iface.ipv4.len() > 0 && (iface.loopback || (iface.physical && iface.running)) {
                let first = iface.ipv4[0];
                let bc = if iface.broadcast {
                    Some(first.broadcast)
                } else {
                    None
                };
                let entry = Netif { name: iface.name.clone(), ip: first.addr, bc };
                res.push(entry);
                proof {
                    assert(netif_views(res@) =~= netif_views(before).push(entry@));
                }
            }
            k = k + 1;
        }
        proof {
            assert(all.take(ifaces.len() as int) =~= all);
        }
        res
    }

    /// The live interfaces of this machine: what `select_live` makes of the
    /// interfaces that the system reports.
    pub fn get_live_netif() -> (res: Vec<Netif>)
        ensures
            exists|ifaces: Seq<IfaceView>| netif_views(res@) == #[trigger] live_entries(ifaces),
    {
        let ifaces = system_interfaces();
        let res = Netif::select_live(&ifaces);
        proof {
            assert(netif_views(res@) == live_entries(iface_views(ifaces@)));
        }
        res
    }

    /// The entry for one address whose interface is called `lower` in lower
    /// case: none for an address that is not IPv4 and none for a virtual
    /// interface.
    pub fn entry_for(lower: String, addr: Option<V4Address>) -> (r: Option<Netif>)
        ensures
            match named_entry(lower@, addr) {
                Some(e) => r is Some && r->0@ == e,
                None => r is None,
            },
    {
        match addr {
            Some(a) => {
                if Netif::is_likely_virtual(lower.as_str()) {
                    None
                } else {
                    Some(Netif { name: lower, ip: a.ip, bc: a.broadcast })
                }
            },
            None => None,
        }
    }

    /// The entries for the IPv4 addresses among `addrs` whose interface is not
    /// virtual by its name, in order, under lower-cased names.
    pub fn select_named(addrs: &Vec<IfAddress>) -> (res: Vec<Netif>)
        ensures
            netif_views(res@) == named_entries(address_views(addrs@)),
    {
        let mut res: Vec<Netif> = Vec::new();
        let ghost all = address_views(addrs@);
        let mut k: usize = 0;
        while k < addrs.len()
            invariant
                k <= addrs.len(),
                all == address_views(addrs@),
                netif_views(res@) == named_entries(all.take(k as int)),
            decreases addrs.len() - k,
        {
            proof {
                assert(all.take(k + 1).drop_last() =~= all.take(k as int));
            }
            let ghost before = res@;
            let lower = lowercase(addrs[k].name.as_str());
            match Netif::entry_for(lower, addrs[k].addr) {
                Some(entry) => {
                    res.push(entry);
                    proof {
                        assert(netif_views(res@) =~= netif_views(before).push(entry@));
                    }
                },
                None => {},
            }
            k = k + 1;
        }
        proof {
            assert(all.take(addrs.len() as int) =~= all);
        }
        res
    }

    /// The named addresses of this machine: what `select_named` makes of the
    /// addresses that the system reports, and nothing where it reports none.
    pub fn get_named_netif() -> (res: Vec<Netif>)
        ensures
            exists|addrs: Seq<IfAddressView>| netif_views(res@) == #[trigger] named_entries(addrs),
    {
        match system_addresses() {
            Some(addrs) => {
                let res = Netif::select_named(&addrs);
                proof {
                    assert(netif_views(res@) == named_entries(address_views(addrs@)));
                }
                res
            },
            None => {
                let res: Vec<Netif> = Vec::new();
                proof {
                    assert(netif_views(res@) =~= named_entries(Seq::<IfAddressView>::empty()));
                }
                res
            },
        }
    }

    /// Whether `name` begins like the name of a virtual interface.
    pub fn is_likely_virtual(name: &str) -> (b: bool)
        ensures
            b == virtual_name(name@),
    {
        starts_with(name, "veth") || starts_with(name, "docker") || starts_with(name, "vmnet")
            || starts_with(name, "vbox") || starts_with(name, "utun") || starts_with(name, "tun")
            || starts_with(name, "tap") || starts_with(name, "ipsec")
    }
}

/// One more interface adds its entry to the offered ones exactly when it is
/// offered.
pub proof fn lemma_offered_step(all: Seq<IfaceView>, k: int, friendly: bool)
    requires
        0 <= k < all.len(),
    ensures
        offered_entries(all.take(k + 1), friendly) == if offered(all[k]) {
            offered_entries(all.take(k), friendly).push(entry_of(all[k], friendly))
        } else {
            offered_entries(all.take(k), friendly)
        },
{
    reveal(Seq::filter);
    assert(all.take(k + 1).drop_last() =~= all.take(k));
    let kept = all.take(k).filter(|i: IfaceView| offered(i));
    if offered(all[k]) {
        assert(kept.push(all[k]).map_values(|i: IfaceView| entry_of(i, friendly)) =~= kept.map_values(
            |i: IfaceView| entry_of(i, friendly),
        ).push(entry_of(all[k], friendly)));
    }
}

/// One more interface adds its entry to the live ones exactly when it is
/// live.
pub proof fn lemma_live_step(all: Seq<IfaceView>, k: int)
    requires
        0 <= k < all.len(),
    ensures
        live_entries(all.take(k + 1)) == if live(all[k]) {
            live_entries(all.take(k)).push(live_entry_of(all[k]))
        } else {
            live_entries(all.take(k))
        },
{
    reveal(Seq::filter);
    assert(all.take(k + 1).drop_last() =~= all.take(k));
    let kept = all.take(k).filter(|i: IfaceView| live(i));
    if live(all[k]) {
        assert(kept.push(all[k]).map_values(|i: IfaceView| live_entry_of(i)) =~= kept.map_values(
            |i: IfaceView| live_entry_of(i),
        ).push(live_entry_of(all[k])));
    }
}

} // verus!
