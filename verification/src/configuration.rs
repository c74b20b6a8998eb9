//! What a device is to be created with: a builder whose setters record the
//! settings, and the checks that creating a device makes first.
use vstd::prelude::*;

use crate::address::{IntoIpv4Addr, Ipv4Addr};
use crate::error::{Error, Result};

verus! {

/// The network layer a device works at: Ethernet frames (TAP) or IP packets (TUN).
#[derive(Debug, Clone, Copy, PartialEq, Eq, Structural)]
pub enum Layer {
    L2,
    L3,
}

impl Default for Layer {
    fn default() -> (r: Self)
        ensures
            r == Layer::L3,
    {
        Layer::L3
    }
}

/// Linux-specific settings of a device.
#[derive(Debug, Clone, Copy)]
pub struct TunConf {
    packet_information: bool,
}

impl View for TunConf {
    /// Whether reads and writes carry the packet information header.
    type V = bool;

    closed spec fn view(&self) -> bool {
        self.packet_information
    }
}

impl Default for TunConf {
    fn default() -> (r: Self)
        ensures
            r@ == false,
    {
        TunConf { packet_information: false }
    }
}

impl TunConf {
    /// Whether reads and writes carry the 4-byte packet information header.
    pub fn packet_information(&mut self, value: bool) -> (r: &mut Self)
        ensures
            r@ == value,
            *final(self) == *final(r),
    {
        self.packet_information = value;
        self
    }

    /// Whether reads and writes carry the 4-byte packet information header.
    pub fn has_packet_information(&self) -> (r: bool)
        ensures
            r == self@,
    {
        self.packet_information
    }
}

/// The settings a configuration holds.
pub struct ConfigurationView {
    pub name: Option<Seq<char>>,
    pub packet_information: bool,
    pub address: Option<Ipv4Addr>,
    pub destination: Option<Ipv4Addr>,
    pub broadcast: Option<Ipv4Addr>,
    pub netmask: Option<Ipv4Addr>,
    /// Set once any address setter was handed a value that is no IPv4 address.
    pub invalid_address: bool,
    pub mtu: Option<i32>,
    /// Whether the interface is brought up once created.
    pub enabled: bool,
    pub layer: Layer,
    pub queues: Option<usize>,
    pub raw_fd: Option<i32>,
}

impl ConfigurationView {
    /// The settings of a new configuration: nothing set, layer 3, interface down.
    pub open spec fn initial() -> ConfigurationView {
        ConfigurationView {
            name: None,
            packet_information: false,
            address: None,
            destination: None,
            broadcast: None,
            netmask: None,
            invalid_address: false,
            mtu: None,
            enabled: false,
            layer: Layer::L3,
            queues: None,
            raw_fd: None,
        }
    }

    /// The settings after handing `value` to the address setter.
    pub open spec fn with_address(self, value: Option<Ipv4Addr>) -> ConfigurationView {
        match value {
            Some(a) => ConfigurationView { address: Some(a), ..self },
            None => ConfigurationView { invalid_address: true, ..self },
        }
    }

    /// The settings after handing `value` to the destination setter.
    pub open spec fn with_destination(self, value: Option<Ipv4Addr>) -> ConfigurationView {
        match value {
            Some(a) => ConfigurationView { destination: Some(a), ..self },
            None => ConfigurationView { invalid_address: true, ..self },
        }
    }

    /// The settings after handing `value` to the broadcast setter.
    pub open spec fn with_broadcast(self, value: Option<Ipv4Addr>) -> ConfigurationView {
        match value {
            Some(a) => ConfigurationView { broadcast: Some(a), ..self },
            None => ConfigurationView { invalid_address: true, ..self },
        }
    }

    /// The settings after handing `value` to the netmask setter.
    pub open spec fn with_netmask(self, value: Option<Ipv4Addr>) -> ConfigurationView {
        match value {
            Some(a) => ConfigurationView { netmask: Some(a), ..self },
            None => ConfigurationView { invalid_address: true, ..self },
        }
    }

    /// What checking a configuration before any device is created gives.
    pub open spec fn validity(self) -> Result<(), Error> {
        if self.invalid_address {
            Err(Error::InvalidAddress)
        } else {
            Ok(())
        }
    }

    /// What checking a configuration before creating a single device gives:
    /// the configuration must be valid and ask for at most one queue.
    pub open spec fn single_queue_validity(self) -> Result<(), Error> {
        if self.invalid_address {
            Err(Error::InvalidAddress)
        } else if self.queues matches Some(n) && n > 1 {
            Err(Error::InvalidConfig)
        } else {
            Ok(())
        }
    }
}

/// One call of a builder method of `Configuration`, with what it was handed;
/// an address setter's value is given as the address it stands for, if any.
pub enum BuilderCall {
    Name(Seq<char>),
    Platform(bool),
    Address(Option<Ipv4Addr>),
    Destination(Option<Ipv4Addr>),
    Broadcast(Option<Ipv4Addr>),
    Netmask(Option<Ipv4Addr>),
    Mtu(i32),
    Up,
    Down,
    SetLayer(Layer),
    Queues(usize),
    RawFd(i32),
}

impl BuilderCall {
    /// An address setter handed a value that is no IPv4 address.
    pub open spec fn refuses_address(self) -> bool {
        match self {
            BuilderCall::Address(None) => true,
            BuilderCall::Destination(None) => true,
            BuilderCall::Broadcast(None) => true,
            BuilderCall::Netmask(None) => true,
            _ => false,
        }
    }
}

impl ConfigurationView {
    /// The settings after one builder call.
    pub open spec fn after(self, call: BuilderCall) -> ConfigurationView {
        match call {
            BuilderCall::Name(n) => ConfigurationView { name: Some(n), ..self },
            BuilderCall::Platform(pi) => ConfigurationView { packet_information: pi, ..self },
            BuilderCall::Address(a) => self.with_address(a),
            BuilderCall::Destination(a) => self.with_destination(a),
            BuilderCall::Broadcast(a) => self.with_broadcast(a),
            BuilderCall::Netmask(a) => self.with_netmask(a),
            BuilderCall::Mtu(m) => ConfigurationView { mtu: Some(m), ..self },
            BuilderCall::Up => ConfigurationView { enabled: true, ..self },
            BuilderCall::Down => ConfigurationView { enabled: false, ..self },
            BuilderCall::SetLayer(l) => ConfigurationView { layer: l, ..self },
            BuilderCall::Queues(q) => ConfigurationView { queues: Some(q), ..self },
            BuilderCall::RawFd(fd) => ConfigurationView { raw_fd: Some(fd), ..self },
        }
    }

    /// The settings after a sequence of builder calls, made in order.
    pub open spec fn after_calls(self, calls: Seq<BuilderCall>) -> ConfigurationView
        decreases calls.len(),
    {
        if calls.len() == 0 {
            self
        } else {
            self.after_calls(calls.drop_last()).after(calls.last())
        }
    }
}

/// The settings a device is created with.
#[derive(Debug, Clone)]
pub struct Configuration {
    name: Option<String>,
    platform: TunConf,
    address: Option<Ipv4Addr>,
    destination: Option<Ipv4Addr>,
    broadcast: Option<Ipv4Addr>,
    netmask: Option<Ipv4Addr>,
    // Keep invalid address input sticky so a later setter call cannot silently hide it.
    invalid_address: bool,
    mtu: Option<i32>,
    // Set the interface to be enabled once created
    enabled: bool,
    layer: Layer,
    queues: Option<usize>,
    raw_fd: Option<i32>,
}

/// The characters of an optional string.
pub open spec fn opt_string_view(s: Option<String>) -> Option<Seq<char>> {
    match s {
        Some(s) => Some(s@),
        None => None,
    }
}

impl View for Configuration {
    type V = ConfigurationView;

    closed spec fn view(&self) -> ConfigurationView {
        ConfigurationView {
            name: opt_string_view(self.name),
            packet_information: self.platform@,
            address: self.address,
            destination: self.destination,
            broadcast: self.broadcast,
            netmask: self.netmask,
            invalid_address: self.invalid_address,
            mtu: self.mtu,
            enabled: self.enabled,
            layer: self.layer,
            queues: self.queues,
            raw_fd: self.raw_fd,
        }
    }
}

impl Default for Configuration {
    fn default() -> (r: Self)
        ensures
            r@ == ConfigurationView::initial(),
    {
        Configuration {
            name: None,
            platform: TunConf::default(),
            address: None,
            destination: None,
            broadcast: None,
            netmask: None,
            invalid_address: false,
            mtu: None,
            enabled: false,
            layer: Layer::L3,
            queues: None,
            raw_fd: None,
        }
    }
}

impl Configuration {
    /// Sets the platform-specific settings.
    pub fn platform(&mut self, conf: TunConf) -> (r: &mut Self)
        ensures
            r@ == old(self)@.after(BuilderCall::Platform(conf@)),
            r@ == (ConfigurationView { packet_information: conf@, ..old(self)@ }),
            *final(self) == *final(r),
    {
        self.platform = conf;
        self
    }

    /// The platform-specific settings.
    pub fn platform_conf(&self) -> (r: TunConf)
        ensures
            r@ == self@.packet_information,
    {
        self.platform
    }

    /// Names the interface.
    pub fn name(&mut self, name: &str) -> (r: &mut Self)
        ensures
            r@ == old(self)@.after(BuilderCall::Name(name@)),
            r@ == (ConfigurationView { name: Some(name@), ..old(self)@ }),
            *final(self) == *final(r),
    {
        self.name = Some(name.to_owned());
        self
    }

    /// Sets the interface's address; a value that is no IPv4 address marks the
    /// configuration invalid instead.
    pub fn address<A: IntoIpv4Addr>(&mut self, value: A) -> (r: &mut Self)
        ensures
            r@ == old(self)@.after(BuilderCall::Address(value.ipv4_of())),
            r@ == old(self)@.with_address(value.ipv4_of()),
            *final(self) == *final(r),
    {
        match value.into_ipv4() {
            Ok(addr) => self.address = Some(addr),
            Err(_) => self.invalid_address = true,
        }
        self
    }

    /// Sets the address of the other end of the link; a value that is no IPv4
    /// address marks the configuration invalid instead.
    pub fn destination<A: IntoIpv4Addr>(&mut self, value: A) -> (r: &mut Self)
        ensures
            r@ == old(self)@.after(BuilderCall::Destination(value.ipv4_of())),
            r@ == old(self)@.with_destination(value.ipv4_of()),
            *final(self) == *final(r),
    {
        match value.into_ipv4() {
            Ok(addr) => self.destination = Some(addr),
            Err(_) => self.invalid_address = true,
        }
        self
    }

    /// Sets the broadcast address; a value that is no IPv4 address marks the
    /// configuration invalid instead.
    pub fn broadcast<A: IntoIpv4Addr>(&mut self, value: A) -> (r: &mut Self)
        ensures
            r@ == old(self)@.after(BuilderCall::Broadcast(value.ipv4_of())),
            r@ == old(self)@.with_broadcast(value.ipv4_of()),
            *final(self) == *final(r),
    {
        match value.into_ipv4() {
            Ok(addr) => self.broadcast = Some(addr),
            Err(_) => self.invalid_address = true,
        }
        self
    }

    /// Sets the netmask; a value that is no IPv4 address marks the
    /// configuration invalid instead.
    pub fn netmask<A: IntoIpv4Addr>(&mut self, value: A) -> (r: &mut Self)
        ensures
            r@ == old(self)@.after(BuilderCall::Netmask(value.ipv4_of())),
            r@ == old(self)@.with_netmask(value.ipv4_of()),
            *final(self) == *final(r),
    {
        match value.into_ipv4() {
            Ok(addr) => self.netmask = Some(addr),
            Err(_) => self.invalid_address = true,
        }
        self
    }

    /// Sets the MTU.
    pub fn mtu(&mut self, value: i32) -> (r: &mut Self)
        ensures
            r@ == old(self)@.after(BuilderCall::Mtu(value)),
            r@ == (ConfigurationView { mtu: Some(value), ..old(self)@ }),
            *final(self) == *final(r),
    {
        self.mtu = Some(value);
        self
    }

    /// Brings the interface up once it is created.
    pub fn up(&mut self) -> (r: &mut Self)
        ensures
            r@ == old(self)@.after(BuilderCall::Up),
            r@ == (ConfigurationView { enabled: true, ..old(self)@ }),
            *final(self) == *final(r),
    {
        self.enabled = true;
        self
    }

    /// Leaves the interface down once it is created.
    pub fn down(&mut self) -> (r: &mut Self)
        ensures
            r@ == old(self)@.after(BuilderCall::Down),
            r@ == (ConfigurationView { enabled: false, ..old(self)@ }),
            *final(self) == *final(r),
    {
        self.enabled = false;
        self
    }

    /// Sets the layer the device works at.
    pub fn layer(&mut self, layer: Layer) -> (r: &mut Self)
        ensures
            r@ == old(self)@.after(BuilderCall::SetLayer(layer)),
            r@ == (ConfigurationView { layer, ..old(self)@ }),
            *final(self) == *final(r),
    {
        self.layer = layer;
        self
    }

    /// Sets the number of queues.
    pub fn queues(&mut self, queues: usize) -> (r: &mut Self)
        ensures
            r@ == old(self)@.after(BuilderCall::Queues(queues)),
            r@ == (ConfigurationView { queues: Some(queues), ..old(self)@ }),
            *final(self) == *final(r),
    {
        self.queues = Some(queues);
        self
    }

    /// Sets an already opened descriptor for the device.
    pub fn raw_fd(&mut self, fd: i32) -> (r: &mut Self)
        ensures
            r@ == old(self)@.after(BuilderCall::RawFd(fd)),
            r@ == (ConfigurationView { raw_fd: Some(fd), ..old(self)@ }),
            *final(self) == *final(r),
    {
        self.raw_fd = Some(fd);
        self
    }

    /// Fails when any address setter was handed a value that is no IPv4 address.
    pub fn ensure_valid(&self) -> (r: Result<()>)
        ensures
            r matches Ok(_) <==> self@.validity() is Ok,
            r matches Err(Error::InvalidAddress) <==> self@.validity() is Err,
    {
        if self.invalid_address {
            return Err(Error::InvalidAddress);
        }
        Ok(())
    }

    /// The check that creating a single device makes before any system call:
    /// the configuration must be valid and ask for at most one queue.
    pub fn ensure_single_queue(&self) -> (r: Result<()>)
        ensures
            r matches Ok(_) <==> self@.single_queue_validity() is Ok,
            r matches Err(Error::InvalidAddress) <==> self@.single_queue_validity() matches Err(
                Error::InvalidAddress,
            ),
            r matches Err(Error::InvalidConfig) <==> self@.single_queue_validity() matches Err(
                Error::InvalidConfig,
            ),
    {
        self.ensure_valid()?;
        match self.queues {
            Some(n) if n > 1 => Err(Error::InvalidConfig),
            _ => Ok(()),
        }
    }

    /// The interface name, if one was set.
    pub fn get_name(&self) -> (r: Option<&str>)
        ensures
            r matches Some(s) ==> self@.name == Some(s@),
            r is None ==> self@.name is None,
    {
        match &self.name {
            Some(n) => Some(n.as_str()),
            None => None,
        }
    }

    /// The layer the device works at.
    pub fn get_layer(&self) -> (r: Layer)
        ensures
            r == self@.layer,
    {
        self.layer
    }

    /// The number of queues asked for, if set.
    pub fn get_queues(&self) -> (r: Option<usize>)
        ensures
            r == self@.queues,
    {
        self.queues
    }

    /// The address, if set.
    pub fn get_address(&self) -> (r: Option<Ipv4Addr>)
        ensures
            r == self@.address,
    {
        self.address
    }

    /// The destination address, if set.
    pub fn get_destination(&self) -> (r: Option<Ipv4Addr>)
        ensures
            r == self@.destination,
    {
        self.destination
    }

    /// The broadcast address, if set.
    pub fn get_broadcast(&self) -> (r: Option<Ipv4Addr>)
        ensures
            r == self@.broadcast,
    {
        self.broadcast
    }

    /// The netmask, if set.
    pub fn get_netmask(&self) -> (r: Option<Ipv4Addr>)
        ensures
            r == self@.netmask,
    {
        self.netmask
    }

    /// The MTU, if set.
    pub fn get_mtu(&self) -> (r: Option<i32>)
        ensures
            r == self@.mtu,
    {
        self.mtu
    }

    /// Whether the interface is brought up once created.
    pub fn is_enabled(&self) -> (r: bool)
        ensures
            r == self@.enabled,
    {
        self.enabled
    }

    /// The descriptor set for the device, if any.
    pub fn get_raw_fd(&self) -> (r: Option<i32>)
        ensures
            r == self@.raw_fd,
    {
        self.raw_fd
    }
}


/// Each address setter, handed an address, sets its own field to it and
/// leaves every other setting as it was.
pub proof fn lemma_address_setters_change_only_their_field(v: ConfigurationView, a: Ipv4Addr)
    ensures
        ({
            let w = v.with_address(Some(a));
            &&& w.address == Some(a)
            &&& w.destination == v.destination && w.broadcast == v.broadcast && w.netmask
                == v.netmask
            &&& w.name == v.name && w.packet_information == v.packet_information
            &&& w.invalid_address == v.invalid_address && w.mtu == v.mtu && w.enabled == v.enabled
            &&& w.layer == v.layer && w.queues == v.queues && w.raw_fd == v.raw_fd
        }),
        ({
            let w = v.with_destination(Some(a));
            &&& w.destination == Some(a)
            &&& w.address == v.address && w.broadcast == v.broadcast && w.netmask == v.netmask
            &&& w.name == v.name && w.packet_information == v.packet_information
            &&& w.invalid_address == v.invalid_address && w.mtu == v.mtu && w.enabled == v.enabled
            &&& w.layer == v.layer && w.queues == v.queues && w.raw_fd == v.raw_fd
        }),
        ({
            let w = v.with_broadcast(Some(a));
            &&& w.broadcast == Some(a)
            &&& w.address == v.address && w.destination == v.destination && w.netmask
                == v.netmask
            &&& w.name == v.name && w.packet_information == v.packet_information
            &&& w.invalid_address == v.invalid_address && w.mtu == v.mtu && w.enabled == v.enabled
            &&& w.layer == v.layer && w.queues == v.queues && w.raw_fd == v.raw_fd
        }),
        ({
            let w = v.with_netmask(Some(a));
            &&& w.netmask == Some(a)
            &&& w.address == v.address && w.destination == v.destination && w.broadcast
                == v.broadcast
            &&& w.name == v.name && w.packet_information == v.packet_information
            &&& w.invalid_address == v.invalid_address && w.mtu == v.mtu && w.enabled == v.enabled
            &&& w.layer == v.layer && w.queues == v.queues && w.raw_fd == v.raw_fd
        }),
{
}

/// A setter handed a value that is no address only marks the configuration
/// invalid: every setting is left as it was.
pub proof fn lemma_refused_address_changes_only_validity(v: ConfigurationView)
    ensures
        v.with_address(None) == (ConfigurationView { invalid_address: true, ..v }),
        v.with_destination(None) == (ConfigurationView { invalid_address: true, ..v }),
        v.with_broadcast(None) == (ConfigurationView { invalid_address: true, ..v }),
        v.with_netmask(None) == (ConfigurationView { invalid_address: true, ..v }),
{
}

/// An invalid address is never forgotten: once a configuration holds one, every
/// setter keeps the mark, and the configuration stays invalid.
pub proof fn lemma_invalid_address_is_sticky(v: ConfigurationView, value: Option<Ipv4Addr>)
    requires
        v.invalid_address,
    ensures
        v.with_address(value).invalid_address,
        v.with_destination(value).invalid_address,
        v.with_broadcast(value).invalid_address,
        v.with_netmask(value).invalid_address,
        v.with_address(value).validity() == Err::<(), Error>(Error::InvalidAddress),
        v.with_address(value).single_queue_validity() == Err::<(), Error>(Error::InvalidAddress),
{
}

/// A value that is no address leaves every address already set as it was.
pub proof fn lemma_invalid_value_keeps_addresses(v: ConfigurationView)
    ensures
        v.with_address(None).address == v.address,
        v.with_destination(None).destination == v.destination,
        v.with_broadcast(None).broadcast == v.broadcast,
        v.with_netmask(None).netmask == v.netmask,
        v.with_address(None).validity() == Err::<(), Error>(Error::InvalidAddress),
{
}

/// A valid address is set as given and leaves validity as it was.
pub proof fn lemma_valid_address_is_recorded(v: ConfigurationView, a: Ipv4Addr)
    ensures
        v.with_address(Some(a)).address == Some(a),
        v.with_address(Some(a)).invalid_address == v.invalid_address,
        v.with_destination(Some(a)).destination == Some(a),
        v.with_broadcast(Some(a)).broadcast == Some(a),
        v.with_netmask(Some(a)).netmask == Some(a),
{
}


/// A configuration is invalid exactly when some address setter among the
/// builder calls that made it was handed a value that is no IPv4 address,
/// whatever the other calls and their order: checking it then fails with
/// `InvalidAddress`, and succeeds otherwise.
pub proof fn lemma_validity_after_calls(calls: Seq<BuilderCall>)
    ensures
        ConfigurationView::initial().after_calls(calls).invalid_address <==> exists|i: int|
            0 <= i < calls.len() && (#[trigger] calls[i]).refuses_address(),
        ConfigurationView::initial().after_calls(calls).validity() == if exists|i: int|
            0 <= i < calls.len() && (#[trigger] calls[i]).refuses_address() {
            Err::<(), Error>(Error::InvalidAddress)
        } else {
            Ok::<(), Error>(())
        },
{
    lemma_invalid_after_calls(ConfigurationView::initial(), calls);
}

/// Builder calls mark a configuration invalid exactly when it was already, or
/// some address setter among them was handed a value that is no address.
pub proof fn lemma_invalid_after_calls(v: ConfigurationView, calls: Seq<BuilderCall>)
    ensures
        v.after_calls(calls).invalid_address <==> v.invalid_address || exists|i: int|
            0 <= i < calls.len() && (#[trigger] calls[i]).refuses_address(),
    decreases calls.len(),
{
    if calls.len() > 0 {
        let init = calls.drop_last();
        lemma_invalid_after_calls(v, init);
        if exists|i: int| 0 <= i < init.len() && (#[trigger] init[i]).refuses_address() {
            let i = choose|i: int| 0 <= i < init.len() && (#[trigger] init[i]).refuses_address();
            assert(calls[i] == init[i]);
        }
        if exists|i: int| 0 <= i < calls.len() && (#[trigger] calls[i]).refuses_address() {
            let i = choose|i: int| 0 <= i < calls.len() && (#[trigger] calls[i]).refuses_address();
            if i < init.len() {
                assert(init[i] == calls[i]);
            }
        }
    }
}

} // verus!
