//! What configuring a created interface consists of.
use vstd::prelude::*;

use crate::address::Ipv4Addr;
use crate::configuration::{Configuration, ConfigurationView};
use crate::sys::{iff_running, iff_up};

verus! {

/// One request made while configuring an interface.
#[derive(Debug, Clone, Copy, PartialEq, Eq, Structural)]
pub enum ConfigStep {
    SetAddress(Ipv4Addr),
    SetDestination(Ipv4Addr),
    SetBroadcast(Ipv4Addr),
    SetNetmask(Ipv4Addr),
    SetMtu(i32),
    /// Bring the interface up (`true`) or down (`false`).
    Enable(bool),
}

/// The requests that configuring an interface makes, in order: each address
/// that is set, then the MTU if set, then bringing the interface up or down.
pub open spec fn configure_steps_of(v: ConfigurationView) -> Seq<ConfigStep> {
    let address = match v.address {
        Some(a) => seq![ConfigStep::SetAddress(a)],
        None => Seq::empty(),
    };
    let destination = match v.destination {
        Some(a) => seq![ConfigStep::SetDestination(a)],
        None => Seq::empty(),
    };
    let broadcast = match v.broadcast {
        Some(a) => seq![ConfigStep::SetBroadcast(a)],
        None => Seq::empty(),
    };
    let netmask = match v.netmask {
        Some(a) => seq![ConfigStep::SetNetmask(a)],
        None => Seq::empty(),
    };
    let mtu = match v.mtu {
        Some(m) => seq![ConfigStep::SetMtu(m)],
        None => Seq::empty(),
    };
    address + destination + broadcast + netmask + mtu + seq![ConfigStep::Enable(v.enabled)]
}

/// The requests that configuring an interface with `config` makes, in the order
/// they are made; the first one that fails ends the configuration.
pub fn configure_steps(config: &Configuration) -> (r: Vec<ConfigStep>)
    ensures
        r@ == configure_steps_of(config@),
{
    let mut steps: Vec<ConfigStep> = Vec::new();
    if let Some(addr) = config.get_address() {
        steps.push(ConfigStep::SetAddress(addr));
    }
    if let Some(addr) = config.get_destination() {
        steps.push(ConfigStep::SetDestination(addr));
    }
    if let Some(addr) = config.get_broadcast() {
        steps.push(ConfigStep::SetBroadcast(addr));
    }
    if let Some(addr) = config.get_netmask() {
        steps.push(ConfigStep::SetNetmask(addr));
    }
    if let Some(mtu) = config.get_mtu() {
        steps.push(ConfigStep::SetMtu(mtu));
    }
    steps.push(ConfigStep::Enable(config.is_enabled()));
    assert(steps@ =~= configure_steps_of(config@));
    steps
}

/// The interface flags after bringing it up (`IFF_UP` and `IFF_RUNNING` set)
/// or down (`IFF_UP` cleared).
pub open spec fn enabled_flags_of(flags: i16, value: bool) -> i16 {
    if value {
        flags | 0x41
    } else {
        flags & !0x1i16
    }
}

/// The interface flags after bringing it up or down; every other flag is kept.
pub fn enable_flags(flags: i16, value: bool) -> (r: i16)
    ensures
        r == enabled_flags_of(flags, value),
        r & 0x1 == (if value {
            1i16
        } else {
            0i16
        }),
        value ==> r & 0x40 == 0x40,
        value ==> r & !0x41i16 == flags & !0x41i16,
        !value ==> r & !0x1i16 == flags & !0x1i16,
{
    assert((flags | 0x41) & 0x1 == 1) by (bit_vector);
    assert((flags | 0x41) & 0x40 == 0x40) by (bit_vector);
    assert((flags | 0x41) & !0x41i16 == flags & !0x41i16) by (bit_vector);
    assert((flags & !0x1i16) & 0x1 == 0) by (bit_vector);
    assert((flags & !0x1i16) & !0x1i16 == flags & !0x1i16) by (bit_vector);
    let up = iff_up() as i16;
    let running = iff_running() as i16;
    assert(up | running == 0x41 && !up == !0x1i16) by (bit_vector)
        requires
            up == 1,
            running == 0x40,
    ;
    if value {
        flags | (up | running)
    } else {
        flags & !up
    }
}


/// Configuring an interface always ends by bringing it up or down as the
/// configuration says, after every other request, and makes one request for
/// each setting that is set.
pub proof fn lemma_configure_ends_with_enable(v: ConfigurationView)
    ensures
        configure_steps_of(v).len() >= 1,
        configure_steps_of(v).last() == ConfigStep::Enable(v.enabled),
        forall|i: int|
            0 <= i < configure_steps_of(v).len() - 1 ==> !(#[trigger] configure_steps_of(v)[i] is Enable),
        configure_steps_of(v).len() == 1 + (if v.address is Some { 1int } else { 0int }) + (if v.destination is Some { 1int } else { 0int })
            + (if v.broadcast is Some { 1int } else { 0int }) + (if v.netmask is Some { 1int } else { 0int }) + (if v.mtu is Some { 1int } else { 0int }),
{
}


/// A concatenation holds what either part holds.
proof fn lemma_contains_concat(a: Seq<ConfigStep>, b: Seq<ConfigStep>, x: ConfigStep)
    ensures
        (a + b).contains(x) <==> a.contains(x) || b.contains(x),
{
    if (a + b).contains(x) {
        let i = choose|i: int| 0 <= i < (a + b).len() && (a + b)[i] == x;
        if i < a.len() {
            assert(a[i] == x);
        } else {
            assert(b[i - a.len()] == x);
        }
    }
    if a.contains(x) {
        let i = choose|i: int| 0 <= i < a.len() && a[i] == x;
        assert((a + b)[i] == x);
    }
    if b.contains(x) {
        let i = choose|i: int| 0 <= i < b.len() && b[i] == x;
        assert((a + b)[i + a.len()] == x);
    }
}

/// The requests for one setting: one request when it is set, none otherwise.
pub open spec fn piece(step: Option<ConfigStep>) -> Seq<ConfigStep> {
    match step {
        Some(x) => seq![x],
        None => Seq::empty(),
    }
}

/// A setting's requests hold exactly its own request.
proof fn lemma_piece_contains(step: Option<ConfigStep>, x: ConfigStep)
    ensures
        piece(step).contains(x) <==> step == Some(x),
{
    if step == Some(x) {
        assert(piece(step)[0] == x);
    }
}

/// Each request carries the setting of its own kind: a request to set the
/// address, destination, broadcast address, netmask or MTU to a value is made
/// exactly when the configuration holds that value for that setting, and the
/// interface is brought up or down exactly as the configuration says.
#[verifier::spinoff_prover]
pub proof fn lemma_steps_carry_their_own_settings(v: ConfigurationView)
    ensures
        forall|a: Ipv4Addr|
            #[trigger] configure_steps_of(v).contains(ConfigStep::SetAddress(a)) <==> v.address
                == Some(a),
        forall|a: Ipv4Addr|
            #[trigger] configure_steps_of(v).contains(ConfigStep::SetDestination(a))
                <==> v.destination == Some(a),
        forall|a: Ipv4Addr|
            #[trigger] configure_steps_of(v).contains(ConfigStep::SetBroadcast(a)) <==> v.broadcast
                == Some(a),
        forall|a: Ipv4Addr|
            #[trigger] configure_steps_of(v).contains(ConfigStep::SetNetmask(a)) <==> v.netmask
                == Some(a),
        forall|m: i32|
            #[trigger] configure_steps_of(v).contains(ConfigStep::SetMtu(m)) <==> v.mtu == Some(m),
        forall|b: bool|
            #[trigger] configure_steps_of(v).contains(ConfigStep::Enable(b)) <==> v.enabled == b,
{
    let p0 = match v.address {
        Some(a) => Some(ConfigStep::SetAddress(a)),
        None => None,
    };
    let p1 = match v.destination {
        Some(a) => Some(ConfigStep::SetDestination(a)),
        None => None,
    };
    let p2 = match v.broadcast {
        Some(a) => Some(ConfigStep::SetBroadcast(a)),
        None => None,
    };
    let p3 = match v.netmask {
        Some(a) => Some(ConfigStep::SetNetmask(a)),
        None => None,
    };
    let p4 = match v.mtu {
        Some(m) => Some(ConfigStep::SetMtu(m)),
        None => None,
    };
    let p5 = Some(ConfigStep::Enable(v.enabled));
    let s = configure_steps_of(v);
    assert(s =~= piece(p0) + piece(p1) + piece(p2) + piece(p3) + piece(p4) + piece(p5));
    assert forall|x: ConfigStep| #[trigger] s.contains(x) <==> (p0 == Some(x) || p1 == Some(x)
        || p2 == Some(x) || p3 == Some(x) || p4 == Some(x) || p5 == Some(x)) by {
        lemma_contains_concat(
            piece(p0) + piece(p1) + piece(p2) + piece(p3) + piece(p4),
            piece(p5),
            x,
        );
        lemma_contains_concat(piece(p0) + piece(p1) + piece(p2) + piece(p3), piece(p4), x);
        lemma_contains_concat(piece(p0) + piece(p1) + piece(p2), piece(p3), x);
        lemma_contains_concat(piece(p0) + piece(p1), piece(p2), x);
        lemma_contains_concat(piece(p0), piece(p1), x);
        lemma_piece_contains(p0, x);
        lemma_piece_contains(p1, x);
        lemma_piece_contains(p2, x);
        lemma_piece_contains(p3, x);
        lemma_piece_contains(p4, x);
        lemma_piece_contains(p5, x);
    }
}

/// What configuring an interface does next.
#[derive(Debug, Clone, Copy, PartialEq, Eq, Structural)]
pub enum ConfigureAction {
    /// Make this request.
    Request(ConfigStep),
    /// The last request failed: stop and report its error.
    Fail,
    /// Every request succeeded.
    Finish,
}

/// The next action of configuring with `steps`, given whether each request
/// made so far succeeded: stop at a failed request, else make the next one,
/// else finish.
pub open spec fn next_action_of(steps: Seq<ConfigStep>, outcomes: Seq<bool>) -> ConfigureAction {
    if outcomes.len() > 0 && !outcomes.last() {
        ConfigureAction::Fail
    } else if outcomes.len() < steps.len() {
        ConfigureAction::Request(steps[outcomes.len() as int])
    } else {
        ConfigureAction::Finish
    }
}

/// The next action of configuring with `steps`, given whether each request
/// made so far succeeded.
pub fn next_configure_action(steps: &Vec<ConfigStep>, outcomes: &Vec<bool>) -> (r: ConfigureAction)
    ensures
        r == next_action_of(steps@, outcomes@),
{
    let n = outcomes.len();
    if n > 0 && !outcomes[n - 1] {
        ConfigureAction::Fail
    } else if n < steps.len() {
        ConfigureAction::Request(steps[n])
    } else {
        ConfigureAction::Finish
    }
}

/// Configuring makes the requests in order up to and including the first that
/// fails, then stops with that failure; when none fails it makes them all and
/// finishes. `ok` says whether each request would succeed, `f` is the first
/// that would not (or the number of requests).
pub proof fn lemma_configure_stops_at_first_failure(
    steps: Seq<ConfigStep>,
    ok: Seq<bool>,
    f: int,
)
    requires
        ok.len() == steps.len(),
        0 <= f <= steps.len(),
        forall|i: int| 0 <= i < f ==> #[trigger] ok[i],
        f < steps.len() ==> !ok[f],
    ensures
        forall|k: int|
            0 <= k <= f && k < steps.len() ==> next_action_of(steps, #[trigger] ok.take(k))
                == ConfigureAction::Request(steps[k]),
        f < steps.len() ==> next_action_of(steps, ok.take(f + 1)) == ConfigureAction::Fail,
        f == steps.len() ==> next_action_of(steps, ok) == ConfigureAction::Finish,
{
    assert forall|k: int| 0 <= k <= f && k < steps.len() implies next_action_of(
        steps,
        #[trigger] ok.take(k),
    ) == ConfigureAction::Request(steps[k]) by {
        if k > 0 {
            assert(ok.take(k).last() == ok[k - 1]);
        }
    }
    if f < steps.len() {
        assert(ok.take(f + 1).last() == ok[f]);
    } else {
        assert(ok.take(f) =~= ok);
        if f > 0 {
            assert(ok.last() == ok[f - 1]);
        }
    }
}

} // verus!
