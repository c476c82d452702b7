use vstd::prelude::*;

verus! {

/// An IP address as the options carry it: the four octets of an IPv4
/// address or the eight 16-bit segments of an IPv6 address.
#[derive(Clone, Copy, Debug)]
pub enum IpAddress {
    V4([u8; 4]),
    V6([u16; 8]),
}

/// Options that both sides of a measurement share.
#[derive(Debug)]
pub struct CommonOpts {
    /// server port of the control channel
    pub port: u16,
    /// print the output as JSON
    pub json: bool,
}

/// Options of the server side.
#[derive(Debug)]
pub struct ServerOpts {
    /// server port of the control channel
    pub port: u16,
    /// server port of the data channel (0: chosen by the system)
    pub data_port: u16,
    /// address to bind to
    pub bind: IpAddress,
    /// accept only a single client
    pub single: bool,
    /// network interface to bind to (e.g. eth0)
    pub bind_dev: Option<String>,
    /// print the output as JSON
    pub json: bool,
    pub common_opts: CommonOpts,
}

/// Options of the client side.
#[derive(Debug)]
pub struct ClientOpts {
    /// host to connect to
    pub host: IpAddress,
    /// the server sends data to the client
    pub reversed: bool,
    /// time to run the benchmark, in seconds
    pub time: u64,
    /// network interface to use (e.g. eth0), for link-local IPv6 hosts
    pub interface: Option<String>,
    /// maximum segment size
    pub mss: Option<i32>,
    /// TCP send and receive buffer size
    pub window: Option<usize>,
    /// send with sendfile() in place of write()
    pub zerocopy: bool,
    pub common_opts: CommonOpts,
}

/// The two sub-commands of the tool.
#[derive(Debug)]
pub enum Opt {
    Server(ServerOpts),
    Client(ClientOpts),
}

/// The measurement's parameters, which the client sends to the server.
#[derive(Clone, Debug, PartialEq, Eq, Structural)]
pub struct ClientHello {
    pub time: u64,
    pub mss: Option<i32>,
    pub reversed: bool,
    pub window: Option<usize>,
    pub zerocopy: bool,
}

/// The server's answer: the port on which it accepts the data connection.
#[derive(Clone, Debug, PartialEq, Eq, Structural)]
pub struct ServerHello {
    pub data_port: u16,
}

/// A message on the control connection.
#[derive(Debug, PartialEq, Eq, Structural)]
pub enum ControlMessage {
    ClientHello(ClientHello),
    ServerHello(ServerHello),
}

/// The result of a measurement: the bytes moved, the seconds it took and,
/// on the sending side, the TCP retransmissions counted.
#[derive(Debug, PartialEq, Eq, Structural)]
pub struct Summary {
    pub bytes_written: usize,
    pub time: u64,
    pub retransmits: Option<u32>,
}

/// The hello that a client with these options sends: the options'
/// measurement parameters, field by field.
pub open spec fn hello_of(opts: &ClientOpts) -> ClientHello {
    ClientHello {
        time: opts.time,
        mss: opts.mss,
        reversed: opts.reversed,
        window: opts.window,
        zerocopy: opts.zerocopy,
    }
}

impl<'a> From<&'a ClientOpts> for ClientHello {
    fn from(opts: &'a ClientOpts) -> (hello: ClientHello)
        ensures
            hello.time == opts.time,
            hello.mss == opts.mss,
            hello.reversed == opts.reversed,
            hello.window == opts.window,
            hello.zerocopy == opts.zerocopy,
    {
        ClientHello {
            time: opts.time,
            mss: opts.mss,
            reversed: opts.reversed,
            window: opts.window,
            zerocopy: opts.zerocopy,
        }
    }
}

impl<'a> vstd::std_specs::convert::FromSpecImpl<&'a ClientOpts> for ClientHello {
    open spec fn obeys_from_spec() -> bool {
        true
    }

    open spec fn from_spec(opts: &'a ClientOpts) -> ClientHello {
        hello_of(opts)
    }
}

/// The hello carries every measurement option of the client unchanged: the
/// time, the segment size, the direction, the window and the sending mode.
pub proof fn law_hello_carries_options(opts: &ClientOpts)
    ensures
        hello_of(opts).time == opts.time,
        hello_of(opts).mss == opts.mss,
        hello_of(opts).reversed == opts.reversed,
        hello_of(opts).window == opts.window,
        hello_of(opts).zerocopy == opts.zerocopy,
{
}

/// The network interface whose index becomes the scope of the address:
/// only an IPv6 address has a scope, so for an IPv4 address the device is
/// not used.
pub open spec fn scope_device_of(addr: IpAddress, device: Option<String>) -> Option<String> {
    match addr {
        IpAddress::V6(_) => device,
        IpAddress::V4(_) => None,
    }
}

impl ClientOpts {
    /// The interface that scopes the address of the host, if any.
    pub fn scope_interface(&self) -> (dev: Option<&String>)
        ensures
            match scope_device_of(self.host, self.interface) {
                Some(d) => dev matches Some(x) && x@ == d@,
                None => dev is None,
            },
    {
        match self.host {
            IpAddress::V6(_) => match &self.interface {
                Some(d) => Some(d),
                None => None,
            },
            IpAddress::V4(_) => None,
        }
    }
}

impl ServerOpts {
    /// The interface that scopes the address the server binds to, if any.
    pub fn scope_interface(&self) -> (dev: Option<&String>)
        ensures
            match scope_device_of(self.bind, self.bind_dev) {
                Some(d) => dev matches Some(x) && x@ == d@,
                None => dev is None,
            },
    {
        match self.bind {
            IpAddress::V6(_) => match &self.bind_dev {
                Some(d) => Some(d),
                None => None,
            },
            IpAddress::V4(_) => None,
        }
    }
}

} // verus!
