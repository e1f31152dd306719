use udptcp::addr::{Endpoint, Ip, Ipv4, Ipv6, V6Host};
use udptcp::form::{socket_string, AddressForm};
use udptcp::netif::{IfAddress, Iface, Ipv4Net, Netif, V4Address};

fn iface(name: &str, ip: Ipv4, bc: Ipv4) -> Iface {
    Iface {
        name: name.to_string(),
        friendly_name: None,
        ipv4: vec![Ipv4Net { addr: ip, broadcast: bc }],
        physical: true,
        up: true,
        running: true,
        loopback: false,
        broadcast: true,
    }
}

fn lo() -> Iface {
    Iface {
        name: "lo".to_string(),
        friendly_name: None,
        ipv4: vec![Ipv4Net { addr: Ipv4(127, 0, 0, 1), broadcast: Ipv4(127, 255, 255, 255) }],
        physical: false,
        up: true,
        running: true,
        loopback: true,
        broadcast: false,
    }
}

fn any() -> Netif {
    Netif { name: "INADDR_ANY".to_string(), ip: Ipv4(0, 0, 0, 0), bc: None }
}

#[test]
fn test_netif() {
    let _netifs = Netif::get_local_netif();
}

#[test]
fn local_netif_list_ends_with_inaddr_any() {
    let netifs = Netif::get_local_netif();
    assert_eq!(netifs.last(), Some(&any()));
}

#[test]
fn local_netif_list_by_friendly_names_ends_with_inaddr_any() {
    let by_friendly = Netif::get_local_netif_named(true);
    assert_eq!(by_friendly.last(), Some(&any()));
    let by_system = Netif::get_local_netif_named(false);
    assert_eq!(by_system.last(), Some(&any()));
}

#[test]
fn other_netif_lists_can_be_read() {
    let _live = Netif::get_live_netif();
    let named = Netif::get_named_netif();
    for n in named.iter() {
        assert_eq!(n.name, n.name.to_lowercase());
        assert!(!Netif::is_likely_virtual(&n.name));
    }
}

#[test]
fn ipv4_text_and_flags() {
    assert_eq!(Ipv4(192, 168, 0, 10).to_text(), "192.168.0.10");
    assert_eq!(Ipv4(0, 0, 0, 0).to_text(), "0.0.0.0");
    assert_eq!(Ipv4(255, 255, 255, 255).to_text(), "255.255.255.255");
    assert_eq!(Ipv4::localhost(), Ipv4(127, 0, 0, 1));
    assert_eq!(Ipv4::unspecified(), Ipv4(0, 0, 0, 0));
    assert!(Ipv4(127, 0, 0, 1).is_loopback());
    assert!(Ipv4(127, 9, 9, 9).is_loopback());
    assert!(!Ipv4(128, 0, 0, 1).is_loopback());
    assert!(Ipv4(0, 0, 0, 0).is_unspecified());
    assert!(!Ipv4(0, 0, 0, 1).is_unspecified());
    assert_eq!(Ipv4::from_octets([10, 20, 30, 40]), Ipv4(10, 20, 30, 40));
    assert_eq!(Ipv4(10, 20, 30, 40).octets(), [10, 20, 30, 40]);
}

#[test]
fn endpoint_text() {
    assert_eq!(Endpoint::v4(Ipv4(10, 0, 0, 1), 0).to_text(), "10.0.0.1:0");
    assert_eq!(Endpoint::v4(Ipv4(10, 0, 0, 1), 65535).to_text(), "10.0.0.1:65535");
    assert_eq!(
        Endpoint::v4(Ipv4(10, 0, 0, 1), 7),
        Endpoint { ip: Ip::V4(Ipv4(10, 0, 0, 1)), port: 7 }
    );
}

#[test]
fn ipv6_endpoint_text_is_written_in_full() {
    let lo = Ipv6(0, 0, 0, 0, 0, 0, 0, 1);
    assert_eq!(lo.text_chars().iter().collect::<String>(), "0:0:0:0:0:0:0:1");
    let doc = Ipv6(0x2001, 0xdb8, 0, 0, 0xa, 0xff00, 0x42, 0x8329);
    let host = V6Host { addr: doc, flowinfo: 0, scope_id: 0 };
    assert_eq!(Endpoint::v6(host, 8080).to_text(), "[2001:db8:0:0:a:ff00:42:8329]:8080");
    assert_eq!(Endpoint::v6(host, 8080), Endpoint { ip: Ip::V6(host), port: 8080 });
    let link = V6Host { addr: Ipv6(0xfe80, 0, 0, 0, 0, 0, 0, 0xffff), flowinfo: 9, scope_id: 12 };
    assert_eq!(Endpoint::v6(link, 1).to_text(), "[fe80:0:0:0:0:0:0:ffff%12]:1");
    assert_eq!(link.text_chars().iter().collect::<String>(), "fe80:0:0:0:0:0:0:ffff%12");
    assert_eq!(Ipv6::from_segments([1, 2, 3, 4, 5, 6, 7, 8]), Ipv6(1, 2, 3, 4, 5, 6, 7, 8));
    assert_eq!(Ipv6(1, 2, 3, 4, 5, 6, 7, 8).segments(), [1, 2, 3, 4, 5, 6, 7, 8]);
    assert_eq!(
        Endpoint::v6(V6Host { addr: lo, flowinfo: 0, scope_id: 0 }, 0).to_text(),
        "[0:0:0:0:0:0:0:1]:0"
    );
}

#[test]
fn select_keeps_physical_interfaces_that_are_up_and_the_loopback() {
    let eth = iface("eth0", Ipv4(192, 168, 1, 7), Ipv4(192, 168, 1, 255));
    let mut down = iface("eth1", Ipv4(10, 0, 0, 7), Ipv4(10, 0, 0, 255));
    down.up = false;
    let mut tunnel = iface("utun4", Ipv4(10, 8, 0, 2), Ipv4(10, 8, 0, 255));
    tunnel.physical = false;
    let mut bare = iface("awdl0", Ipv4(0, 0, 0, 0), Ipv4(0, 0, 0, 0));
    bare.ipv4 = vec![];
    let mut lo_down = lo();
    lo_down.up = false;
    let got = Netif::select(&vec![lo(), eth, down, tunnel, bare, lo_down], false);
    assert_eq!(
        got,
        vec![
            Netif { name: "lo".to_string(), ip: Ipv4(127, 0, 0, 1), bc: None },
            Netif {
                name: "eth0".to_string(),
                ip: Ipv4(192, 168, 1, 7),
                bc: Some(Ipv4(192, 168, 1, 255))
            },
            any(),
        ]
    );
}

#[test]
fn select_of_nothing_is_inaddr_any_alone() {
    assert_eq!(Netif::select(&vec![], false), vec![any()]);
    assert_eq!(Netif::select(&vec![], true), vec![any()]);
}

#[test]
fn select_uses_the_first_address_and_the_friendly_name_on_request() {
    let mut eth = iface("{GUID}", Ipv4(192, 168, 1, 7), Ipv4(192, 168, 1, 255));
    eth.friendly_name = Some("Ethernet".to_string());
    eth.ipv4.push(Ipv4Net { addr: Ipv4(172, 16, 0, 1), broadcast: Ipv4(172, 16, 255, 255) });
    let plain = iface("wlan0", Ipv4(10, 0, 0, 7), Ipv4(10, 0, 0, 255));
    let ifaces = vec![eth, plain];
    let got = Netif::select(&ifaces, true);
    assert_eq!(got[0].name, "Ethernet");
    assert_eq!(got[0].ip, Ipv4(192, 168, 1, 7));
    assert_eq!(got[1].name, "wlan0");
    assert_eq!(got.len(), 3);
    let got = Netif::select(&ifaces, false);
    assert_eq!(got[0].name, "{GUID}");
}

#[test]
fn select_live_keeps_the_loopback_and_running_hardware() {
    let eth = iface("eth0", Ipv4(192, 168, 1, 7), Ipv4(192, 168, 1, 255));
    let mut idle = iface("eth1", Ipv4(10, 0, 0, 7), Ipv4(10, 0, 0, 255));
    idle.running = false;
    let mut tunnel = iface("tun0", Ipv4(10, 8, 0, 2), Ipv4(10, 8, 0, 255));
    tunnel.physical = false;
    let mut quiet = iface("eth2", Ipv4(10, 1, 0, 7), Ipv4(10, 1, 0, 255));
    quiet.broadcast = false;
    let mut bare = lo();
    bare.ipv4 = vec![];
    let got = Netif::select_live(&vec![lo(), eth, idle, tunnel, quiet, bare]);
    assert_eq!(
        got,
        vec![
            Netif { name: "lo".to_string(), ip: Ipv4(127, 0, 0, 1), bc: None },
            Netif {
                name: "eth0".to_string(),
                ip: Ipv4(192, 168, 1, 7),
                bc: Some(Ipv4(192, 168, 1, 255))
            },
            Netif { name: "eth2".to_string(), ip: Ipv4(10, 1, 0, 7), bc: None },
        ]
    );
}

#[test]
fn select_named_lowers_names_and_drops_virtual_interfaces() {
    let v4 = |last: u8| Some(V4Address { ip: Ipv4(10, 0, 0, last), broadcast: Some(Ipv4(10, 0, 0, 255)) });
    let addrs = vec![
        IfAddress { name: "En0".to_string(), addr: v4(1) },
        IfAddress { name: "Docker0".to_string(), addr: v4(2) },
        IfAddress { name: "en1".to_string(), addr: None },
        IfAddress { name: "UTUN3".to_string(), addr: v4(3) },
        IfAddress {
            name: "LO".to_string(),
            addr: Some(V4Address { ip: Ipv4(127, 0, 0, 1), broadcast: None }),
        },
    ];
    assert_eq!(
        Netif::select_named(&addrs),
        vec![
            Netif { name: "en0".to_string(), ip: Ipv4(10, 0, 0, 1), bc: Some(Ipv4(10, 0, 0, 255)) },
            Netif { name: "lo".to_string(), ip: Ipv4(127, 0, 0, 1), bc: None },
        ]
    );
}

#[test]
fn entry_for_one_address() {
    let a = V4Address { ip: Ipv4(10, 0, 0, 1), broadcast: None };
    assert_eq!(
        Netif::entry_for("eth0".to_string(), Some(a)),
        Some(Netif { name: "eth0".to_string(), ip: Ipv4(10, 0, 0, 1), bc: None })
    );
    assert_eq!(Netif::entry_for("eth0".to_string(), None), None);
    assert_eq!(Netif::entry_for("tap1".to_string(), Some(a)), None);
}

#[test]
fn virtual_names() {
    for name in ["veth12", "docker0", "vmnet8", "vboxnet0", "utun4", "tun0", "tap", "ipsec1"] {
        assert!(Netif::is_likely_virtual(name), "{}", name);
    }
    for name in ["eth0", "en0", "lo", "", "vet", "xtun0", "Docker0", "wlan0"] {
        assert!(!Netif::is_likely_virtual(name), "{}", name);
    }
}

#[test]
fn netif_describe() {
    let eth = Netif {
        name: "eth0".to_string(),
        ip: Ipv4(192, 168, 1, 7),
        bc: Some(Ipv4(192, 168, 1, 255)),
    };
    assert_eq!(eth.describe(), "eth0 - 192.168.1.7 ( bc = 192.168.1.255 )");
    assert_eq!(any().describe(), "INADDR_ANY - 0.0.0.0");
}

#[test]
fn netif_remote_ip_template() {
    let of = |ip: Ipv4| Netif { name: "x".to_string(), ip, bc: None }.remote_ip_template();
    assert_eq!(of(Ipv4(127, 0, 0, 1)), "127.0.0.1");
    assert_eq!(of(Ipv4(127, 1, 2, 3)), "127.1.2.3");
    assert_eq!(of(Ipv4(0, 0, 0, 0)), "127.0.0.1");
    assert_eq!(of(Ipv4(192, 168, 1, 7)), "192.168.1.");
    assert_eq!(of(Ipv4(10, 0, 0, 200)), "10.0.0.");
}

#[test]
fn form_starts_empty() {
    let f = AddressForm::new();
    assert_eq!(f.netif_selected, 0);
    assert_eq!(f.local_ip, "");
    assert_eq!(f.udp_local(), ":");
    assert_eq!(f.udp_destination(true), ":");
}

#[test]
fn form_takes_over_the_chosen_interface() {
    let netifs = vec![
        Netif { name: "lo".to_string(), ip: Ipv4(127, 0, 0, 1), bc: None },
        Netif {
            name: "eth0".to_string(),
            ip: Ipv4(192, 168, 1, 7),
            bc: Some(Ipv4(192, 168, 1, 255)),
        },
        any(),
    ];
    let mut f = AddressForm::new();
    f.remote_port_udp = "9000".to_string();
    f.broadcast_ip_manual_udp = "1.2.3.4".to_string();
    f.apply_netif_selection(&netifs, 1);
    let expected = AddressForm {
        netif_selected: 1,
        local_ip: "192.168.1.7".to_string(),
        local_port_udp: "0".to_string(),
        broadcast_ip_udp: "192.168.1.255".to_string(),
        broadcast_ip_manual_udp: String::new(),
        remote_ip_udp: "192.168.1.".to_string(),
        remote_port_udp: String::new(),
        local_port_tcp_server: "0".to_string(),
        local_port_tcp_client: "0".to_string(),
        remote_ip_tcpserver: "192.168.1.".to_string(),
        remote_port_tcpserver: String::new(),
    };
    assert_eq!(f, expected);
    f.apply_netif_selection(&netifs, 3);
    assert_eq!(f, expected);
    f.apply_netif_selection(&netifs, 0);
    assert_eq!(f.local_ip, "127.0.0.1");
    assert_eq!(f.broadcast_ip_udp, "");
    assert_eq!(f.remote_ip_udp, "127.0.0.1");
    f.apply_netif_selection(&netifs, 2);
    assert_eq!(f.local_ip, "0.0.0.0");
    assert_eq!(f.remote_ip_tcpserver, "127.0.0.1");
}

#[test]
fn form_addresses() {
    let mut f = AddressForm::new();
    f.local_ip = "192.168.1.7".to_string();
    f.local_port_udp = "5000".to_string();
    f.local_port_tcp_server = "6000".to_string();
    f.remote_ip_udp = "192.168.1.9".to_string();
    f.remote_port_udp = "5001".to_string();
    f.broadcast_ip_udp = "192.168.1.255".to_string();
    f.remote_ip_tcpserver = "192.168.1.20".to_string();
    f.remote_port_tcpserver = "6001".to_string();
    assert_eq!(f.udp_local(), "192.168.1.7:5000");
    assert_eq!(f.tcp_server_local(), "192.168.1.7:6000");
    assert_eq!(f.tcp_client_remote(), "192.168.1.20:6001");
    assert_eq!(f.udp_destination(false), "192.168.1.9:5001");
    assert_eq!(f.udp_destination(true), "192.168.1.255:5001");
    f.broadcast_ip_manual_udp = "255.255.255.255".to_string();
    assert_eq!(f.udp_destination(true), "255.255.255.255:5001");
    assert_eq!(f.udp_destination(false), "192.168.1.9:5001");
    assert_eq!(socket_string("a", "b"), "a:b");
}
