use swiss_iperf::error::Error;
use swiss_iperf::handshake::{client_role, expect_client_hello, expect_server_hello, server_role, DataRole};
use swiss_iperf::opts::{ClientHello, ClientOpts, CommonOpts, ControlMessage, IpAddress, ServerHello, ServerOpts};

fn client_opts(reversed: bool, host: IpAddress, interface: Option<String>) -> ClientOpts {
    ClientOpts {
        host,
        reversed,
        time: 10,
        interface,
        mss: Some(1400),
        window: None,
        zerocopy: true,
        common_opts: CommonOpts { port: 5202, json: false },
    }
}

fn hello(reversed: bool) -> ClientHello {
    ClientHello { time: 5, mss: None, reversed, window: Some(4096), zerocopy: false }
}

#[test]
fn hello_copies_the_measurement_options() {
    let opts = client_opts(true, IpAddress::V4([127, 0, 0, 1]), None);
    let h = ClientHello::from(&opts);
    assert_eq!(h, ClientHello { time: 10, mss: Some(1400), reversed: true, window: None, zerocopy: true });
}

#[test]
fn roles_are_opposite() {
    for reversed in [false, true] {
        let opts = client_opts(reversed, IpAddress::V4([10, 0, 0, 1]), None);
        let sent = ControlMessage::ClientHello(ClientHello::from(&opts));
        let accepted = expect_client_hello(sent).unwrap();
        assert_ne!(client_role(opts.reversed), server_role(&accepted));
    }
    assert_eq!(client_role(false), DataRole::Sender);
    assert_eq!(client_role(true), DataRole::Receiver);
    assert_eq!(server_role(&hello(false)), DataRole::Receiver);
    assert_eq!(server_role(&hello(true)), DataRole::Sender);
}

#[test]
fn server_accepts_a_client_hello() {
    let r = expect_client_hello(ControlMessage::ClientHello(hello(true)));
    assert_eq!(r.unwrap(), hello(true));
}

#[test]
fn server_refuses_a_server_hello() {
    match expect_client_hello(ControlMessage::ServerHello(ServerHello { data_port: 1 })) {
        Err(Error::Protocol(m)) => assert_eq!(m, "unexpected control message"),
        other => panic!("unexpected result {:?}", other),
    }
}

#[test]
fn client_accepts_a_server_hello() {
    let r = expect_server_hello(ControlMessage::ServerHello(ServerHello { data_port: 40000 }));
    assert_eq!(r.unwrap(), ServerHello { data_port: 40000 });
}

#[test]
fn client_refuses_a_client_hello() {
    match expect_server_hello(ControlMessage::ClientHello(hello(false))) {
        Err(Error::Protocol(m)) => assert_eq!(m, "unexpected control message"),
        other => panic!("unexpected result {:?}", other),
    }
}

#[test]
fn only_ipv6_addresses_take_a_scope() {
    let v6 = client_opts(false, IpAddress::V6([0xfe80, 0, 0, 0, 0, 0, 0, 1]), Some("eth0".to_string()));
    assert_eq!(v6.scope_interface().map(|s| s.as_str()), Some("eth0"));
    let v4 = client_opts(false, IpAddress::V4([192, 168, 0, 1]), Some("eth0".to_string()));
    assert_eq!(v4.scope_interface(), None);
    let none = client_opts(false, IpAddress::V6([0; 8]), None);
    assert_eq!(none.scope_interface(), None);

    let server = ServerOpts {
        port: 5202,
        data_port: 0,
        bind: IpAddress::V6([0xfe80, 0, 0, 0, 0, 0, 0, 2]),
        single: true,
        bind_dev: Some("swissknife0".to_string()),
        json: false,
        common_opts: CommonOpts { port: 5202, json: false },
    };
    assert_eq!(server.scope_interface().map(|s| s.as_str()), Some("swissknife0"));
    let server4 = ServerOpts { bind: IpAddress::V4([0, 0, 0, 0]), ..server };
    assert_eq!(server4.scope_interface(), None);
}
