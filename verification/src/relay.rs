//! The relay that mirrors actions between participants. The host keeps a
//! registry of connected peers and hands every message on to all of them but
//! the one it came from; a peer that no longer takes messages loses its place.

use crate::timer::TimerAction;
use flume::Sender;
use vstd::prelude::*;

verus! {

/// `flume::Sender`, the sending end of a channel. It is kept and handed to
/// `try_send`, and never looked into.
#[verifier::external_type_specification]
#[verifier::external_body]
#[verifier::reject_recursive_types(T)]
pub struct ExSender<T>(Sender<T>);

/// A network address: an IPv4 or IPv6 host and a port, the parts as numbers.
#[derive(Clone, Copy, Debug, PartialEq, Eq, Hash, Structural)]
pub enum PeerAddr {
    V4 { octets: u32, port: u16 },
    V6 { segments: u128, port: u16, flowinfo: u32, scope_id: u32 },
}

/// An action on its way between participants, with the address of the one
/// who took it.
#[derive(Clone, Copy, Debug, PartialEq, Eq, Structural)]
pub struct TimerMessage {
    pub action: TimerAction,
    pub sender: PeerAddr,
}

/// A connected peer: its address and the channel that leads to its
/// connection.
pub struct Peer {
    pub addr: PeerAddr,
    pub outbox: Sender<TimerMessage>,
}

/// One attempt to hand a message to a peer: the peer's address, the message
/// that was handed to its channel, and whether the channel took it.
#[derive(Clone, Copy, Debug, PartialEq, Eq, Structural)]
pub struct Delivery {
    pub to: PeerAddr,
    pub message: TimerMessage,
    pub accepted: bool,
}

/// One attempt to hand a message to the local application: the message that
/// was handed to its channel, and whether the channel took it.
#[derive(Clone, Copy, Debug, PartialEq, Eq, Structural)]
pub struct Offer {
    pub message: TimerMessage,
    pub accepted: bool,
}

/// `flume::Sender::try_send` puts the message into the channel without
/// waiting and fails when the channel is full or every receiver is gone.
/// Whether it fails depends on the other end, so nothing is promised.
#[verifier::external_body]
pub(crate) fn offer(outbox: &Sender<TimerMessage>, message: TimerMessage) -> (accepted: bool) {
    outbox.try_send(message).is_ok()
}

/// The addresses of the peers, in their order.
pub open spec fn addresses(peers: Seq<Peer>) -> Seq<PeerAddr> {
    peers.map_values(|p: Peer| p.addr)
}

/// The addresses that the attempts of a report went to, in their order.
pub open spec fn targets(report: Seq<Delivery>) -> Seq<PeerAddr> {
    report.map_values(|d: Delivery| d.to)
}

/// Every attempt of the report handed on `message`, as it was given.
pub open spec fn carries(report: Seq<Delivery>, message: TimerMessage) -> bool {
    forall|i: int| 0 <= i < report.len() ==> (#[trigger] report[i]).message == message
}

/// No address is registered twice.
pub open spec fn distinct(peers: Seq<Peer>) -> bool {
    forall|i: int, j: int| 0 <= i < j < peers.len() ==> peers[i].addr != peers[j].addr
}

/// The peers at other addresses than `addr`.
pub open spec fn without(peers: Seq<Peer>, addr: PeerAddr) -> Seq<Peer> {
    peers.filter(|p: Peer| p.addr != addr)
}

/// The addresses that a message from `sender` goes to: every registered one
/// but the sender's own.
pub open spec fn recipients(peers: Seq<Peer>, sender: PeerAddr) -> Seq<PeerAddr> {
    addresses(without(peers, sender))
}

/// Whether the report holds an attempt at `addr` that was not accepted.
pub open spec fn refused(report: Seq<Delivery>, addr: PeerAddr) -> bool {
    exists|i: int| 0 <= i < report.len() && (#[trigger] report[i]).to == addr && !report[i].accepted
}

/// The peers that stay after the attempts in `report`: all but those whose
/// channel did not take the message.
pub open spec fn survivors(peers: Seq<Peer>, report: Seq<Delivery>) -> Seq<Peer> {
    peers.filter(|p: Peer| !refused(report, p.addr))
}

proof fn lemma_filter_step<A>(s: Seq<A>, p: spec_fn(A) -> bool, k: int)
    requires
        0 <= k < s.len(),
    ensures
        s.take(k + 1).filter(p) == if p(s[k]) {
            s.take(k).filter(p).push(s[k])
        } else {
            s.take(k).filter(p)
        },
{
    reveal(Seq::filter);
    assert(s.take(k + 1).drop_last() =~= s.take(k));
}

proof fn lemma_filter_agree<A>(s: Seq<A>, p: spec_fn(A) -> bool, q: spec_fn(A) -> bool)
    requires
        forall|i: int| 0 <= i < s.len() ==> p(s[i]) == q(s[i]),
    ensures
        s.filter(p) == s.filter(q),
    decreases s.len(),
{
    reveal(Seq::filter);
    if s.len() > 0 {
        lemma_filter_agree(s.drop_last(), p, q);
    }
}

proof fn lemma_filter_all<A>(s: Seq<A>, p: spec_fn(A) -> bool)
    requires
        forall|i: int| 0 <= i < s.len() ==> p(s[i]),
    ensures
        s.filter(p) == s,
    decreases s.len(),
{
    reveal(Seq::filter);
    if s.len() > 0 {
        lemma_filter_all(s.drop_last(), p);
    }
}

proof fn lemma_without_at(s: Seq<Peer>, addr: PeerAddr, at: int)
    requires
        distinct(s),
        0 <= at < s.len(),
        s[at].addr == addr,
    ensures
        without(s, addr) == s.remove(at),
    decreases s.len(),
{
    reveal(Seq::filter);
    let p = |p: Peer| p.addr != addr;
    if at == s.len() - 1 {
        lemma_filter_all(s.drop_last(), p);
    } else {
        lemma_without_at(s.drop_last(), addr, at);
    }
}

fn position(peers: &Vec<Peer>, addr: PeerAddr) -> (at: Option<usize>)
    ensures
        match at {
            Some(i) => i < peers@.len() && peers@[i as int].addr == addr,
            None => forall|j: int| 0 <= j < peers@.len() ==> peers@[j].addr != addr,
        },
{
    let mut i: usize = 0;
    while i < peers.len()
        invariant
            i <= peers@.len(),
            forall|j: int| 0 <= j < i ==> peers@[j].addr != addr,
        decreases peers.len() - i,
    {
        if peers[i].addr == addr {
            return Some(i);
        }
        i += 1;
    }
    None
}

fn remove_addr(peers: &mut Vec<Peer>, addr: PeerAddr) -> (found: bool)
    requires
        distinct(old(peers)@),
    ensures
        final(peers)@ == without(old(peers)@, addr),
        found == addresses(old(peers)@).contains(addr),
        distinct(final(peers)@),
{
    match position(peers, addr) {
        Some(i) => {
            proof {
                lemma_without_at(peers@, addr, i as int);
                assert(addresses(peers@)[i as int] == addr);
            }
            peers.remove(i);
            true
        },
        None => {
            proof {
                lemma_filter_all(peers@, |p: Peer| p.addr != addr);
            }
            false
        },
    }
}

/// Offers `message` to every peer but the one at its sender's address, in
/// the order of registration, and drops the peers that did not take it.
fn fan_out(peers: &mut Vec<Peer>, message: TimerMessage) -> (report: Vec<Delivery>)
    requires
        distinct(old(peers)@),
    ensures
        targets(report@) == recipients(old(peers)@, message.sender),
        carries(report@, message),
        final(peers)@ == survivors(old(peers)@, report@),
        distinct(final(peers)@),
{
    // Of the registry as it was, `k` peers have been dealt with; those of
    // them that stay are the first `i` of the registry as it is, and the rest
    // of both is the same.
    let ghost orig = peers@;
    let ghost mut k: int = 0;
    let mut report: Vec<Delivery> = Vec::new();
    let mut i: usize = 0;
    proof {
        reveal(Seq::filter);
    }
    while i < peers.len()
        invariant
            distinct(orig),
            distinct(peers@),
            0 <= k <= orig.len(),
            i <= peers@.len(),
            peers@.len() - i == orig.len() - k,
            peers@.take(i as int) == survivors(orig.take(k), report@),
            peers@.skip(i as int) == orig.skip(k),
            targets(report@) == recipients(orig.take(k), message.sender),
            carries(report@, message),
            forall|j: int|
                0 <= j < report@.len() ==> exists|m: int|
                    0 <= m < k && (#[trigger] orig[m]).addr == (#[trigger] report@[j]).to,
        decreases peers.len() - i,
    {
        let ghost before = report@;
        let ghost held = peers@;
        // The peer at hand is the next one of the registry as it was.
        assert(orig[k] == orig.skip(k)[0]);
        let addr = peers[i].addr;
        let kept = if addr == message.sender {
            true
        } else {
            let accepted = offer(&peers[i].outbox, message);
            report.push(Delivery { to: addr, message, accepted });
            accepted
        };
        proof {
            let stays = |p: Peer| !refused(report@, p.addr);
            let stayed = |p: Peer| !refused(before, p.addr);
            let other = |p: Peer| p.addr != message.sender;
            // The peers dealt with so far are judged as before: the new
            // attempt, if there is one, is at another address than theirs.
            assert forall|m: int| 0 <= m < k implies stays(orig.take(k)[m]) == stayed(
                orig.take(k)[m],
            ) by {
                let a = orig[m].addr;
                if refused(report@, a) {
                    let x = choose|x: int|
                        0 <= x < report@.len() && (#[trigger] report@[x]).to == a
                            && !report@[x].accepted;
                    assert(before[x] == report@[x]);
                }
                if refused(before, a) {
                    let x = choose|x: int|
                        0 <= x < before.len() && (#[trigger] before[x]).to == a
                            && !before[x].accepted;
                    assert(report@[x] == before[x]);
                }
            }
            lemma_filter_agree(orig.take(k), stays, stayed);
            lemma_filter_step(orig, stays, k);
            lemma_filter_step(orig, other, k);
            if addr != message.sender {
                assert(report@.last().to == addr);
                assert(addresses(orig.take(k).filter(other).push(orig[k])) =~= addresses(
                    orig.take(k).filter(other),
                ).push(addr));
            }
        }
        if kept {
            proof {
                let rest = peers@.skip(i + 1);
                let goal = orig.skip(k + 1);
                assert forall|x: int| 0 <= x < goal.len() implies #[trigger] rest[x] == goal[x] by {
                    assert(held.skip(i as int)[x + 1] == orig.skip(k)[x + 1]);
                }
            }
            i += 1;
        } else {
            peers.remove(i);
            proof {
                let rest = peers@.skip(i as int);
                let goal = orig.skip(k + 1);
                assert forall|x: int| 0 <= x < goal.len() implies #[trigger] rest[x] == goal[x] by {
                    assert(held.skip(i as int)[x + 1] == orig.skip(k)[x + 1]);
                }
            }
        }
        proof {
            k = k + 1;
        }
    }
    proof {
        assert(orig.take(k) =~= orig);
    }
    report
}

/// The peers connected to a host, in the order they registered, at most one
/// for an address.
pub struct PeerRegistry {
    peers: Vec<Peer>,
}

impl View for PeerRegistry {
    type V = Seq<Peer>;

    closed spec fn view(&self) -> Seq<Peer> {
        self.peers@
    }
}

impl PeerRegistry {
    #[verifier::type_invariant]
    spec fn one_entry_each(self) -> bool {
        distinct(self.peers@)
    }

    /// A registry without peers.
    pub fn new() -> (registry: Self)
        ensures
            registry@ == Seq::<Peer>::empty(),
    {
        PeerRegistry { peers: Vec::new() }
    }

    /// The number of registered peers.
    pub fn len(&self) -> (n: usize)
        ensures
            n == self@.len(),
            distinct(self@),
    {
        proof {
            use_type_invariant(self);
        }
        self.peers.len()
    }

    /// Whether a peer is registered at `addr`.
    pub fn contains(&self, addr: PeerAddr) -> (found: bool)
        ensures
            found == addresses(self@).contains(addr),
    {
        match position(&self.peers, addr) {
            Some(i) => {
                assert(addresses(self@)[i as int] == addr);
                true
            },
            None => false,
        }
    }

    /// The registered addresses, in the order of registration.
    pub fn addrs(&self) -> (list: Vec<PeerAddr>)
        ensures
            list@ == addresses(self@),
    {
        let mut list: Vec<PeerAddr> = Vec::new();
        let mut i: usize = 0;
        while i < self.peers.len()
            invariant
                i <= self.peers@.len(),
                list@ == addresses(self.peers@.take(i as int)),
            decreases self.peers.len() - i,
        {
            list.push(self.peers[i].addr);
            i += 1;
        }
        list
    }

    /// Takes the peer at `addr` out of the registry and tells whether there
    /// was one.
    pub fn deregister(&mut self, addr: PeerAddr) -> (found: bool)
        ensures
            final(self)@ == without(old(self)@, addr),
            found == addresses(old(self)@).contains(addr),
            distinct(final(self)@),
    {
        proof {
            use_type_invariant(&*self);
        }
        let mut peers: Vec<Peer> = Vec::new();
        std::mem::swap(&mut self.peers, &mut peers);
        let found = remove_addr(&mut peers, addr);
        self.peers = peers;
        found
    }

    /// Registers the peer at `addr` with the channel that leads to it. A peer
    /// already registered at that address gives way.
    pub fn register(&mut self, addr: PeerAddr, outbox: Sender<TimerMessage>)
        ensures
            final(self)@ == without(old(self)@, addr).push(Peer { addr, outbox }),
            distinct(final(self)@),
    {
        proof {
            use_type_invariant(&*self);
        }
        let mut peers: Vec<Peer> = Vec::new();
        std::mem::swap(&mut self.peers, &mut peers);
        remove_addr(&mut peers, addr);
        peers.push(Peer { addr, outbox });
        self.peers = peers;
    }

    /// Hands `message` to every registered peer but the one it came from.
    /// The report lists the attempts in the order of registration. A peer
    /// whose channel does not take the message loses its place; the others
    /// are offered the message all the same and stay.
    pub fn broadcast(&mut self, message: TimerMessage) -> (report: Vec<Delivery>)
        ensures
            targets(report@) == recipients(old(self)@, message.sender),
            carries(report@, message),
            final(self)@ == survivors(old(self)@, report@),
            distinct(final(self)@),
    {
        proof {
            use_type_invariant(&*self);
        }
        let mut peers: Vec<Peer> = Vec::new();
        std::mem::swap(&mut self.peers, &mut peers);
        let report = fan_out(&mut peers, message);
        self.peers = peers;
        report
    }
}

/// What happens on one connection of a relay.
#[derive(Clone, Copy, Debug, PartialEq, Eq, Structural)]
pub enum LinkEvent {
    /// The remote side sent a message.
    Received(TimerMessage),
    /// The remote side sent a frame that is no message.
    Garbled,
    /// The local application took an action.
    Local(TimerMessage),
    /// A broadcast has staged a message for this connection.
    Staged(TimerMessage),
    /// The connection is closed, or writing to it failed.
    Closed,
}

/// What the connection's task is to do next.
#[derive(Clone, Copy, Debug, PartialEq, Eq, Structural)]
pub enum LinkCommand {
    /// Wait for the next event.
    Continue,
    /// Write the message to the connection, then wait.
    Write(TimerMessage),
    /// End the task.
    Stop,
}

/// What a relay did with an event: the command for the connection's task,
/// what was offered to the local application where something was, and the
/// attempts of the broadcast where there was one.
pub struct Routed {
    pub command: LinkCommand,
    pub to_app: Option<Offer>,
    pub report: Vec<Delivery>,
}

/// What an event makes a relay offer to the local application: the message
/// that the remote side sent, and nothing otherwise.
pub open spec fn offered_to_app(event: LinkEvent, to_app: Option<Offer>) -> bool {
    match event {
        LinkEvent::Received(message) => to_app matches Some(offer) && offer.message == message,
        _ => to_app is None,
    }
}

/// The command that follows an event: a staged message is written out, a
/// closed connection ends its task, and everything else waits for more.
pub open spec fn host_command(event: LinkEvent) -> LinkCommand {
    match event {
        LinkEvent::Staged(message) => LinkCommand::Write(message),
        LinkEvent::Closed => LinkCommand::Stop,
        _ => LinkCommand::Continue,
    }
}

/// The message that an event makes the host broadcast, if it does.
pub open spec fn host_broadcasts(event: LinkEvent) -> Option<TimerMessage> {
    match event {
        LinkEvent::Received(message) => Some(message),
        LinkEvent::Local(message) => Some(message),
        _ => None,
    }
}

/// The command that follows an event on the joining side, which has one
/// connection and writes to it whatever is to go out.
pub open spec fn join_command(event: LinkEvent) -> LinkCommand {
    match event {
        LinkEvent::Local(message) => LinkCommand::Write(message),
        LinkEvent::Staged(message) => LinkCommand::Write(message),
        LinkEvent::Closed => LinkCommand::Stop,
        _ => LinkCommand::Continue,
    }
}

/// The host's side of a shared session: the registry of peers and the channel
/// to the local application.
pub struct Hub {
    registry: PeerRegistry,
    to_app: Sender<TimerMessage>,
}

impl View for Hub {
    type V = Seq<Peer>;

    closed spec fn view(&self) -> Seq<Peer> {
        self.registry@
    }
}

impl Hub {
    /// A host without peers, whose application listens on `to_app`.
    pub fn new(to_app: Sender<TimerMessage>) -> (hub: Self)
        ensures
            hub@ == Seq::<Peer>::empty(),
            hub.app_channel() == to_app,
    {
        Hub { registry: PeerRegistry::new(), to_app }
    }

    /// The channel on which the local application listens. It is the one the
    /// host was made with, for as long as the host lives.
    pub closed spec fn app_channel(&self) -> Sender<TimerMessage> {
        self.to_app
    }

    /// The addresses of the connected peers, in the order they connected.
    pub fn peers(&self) -> (list: Vec<PeerAddr>)
        ensures
            list@ == addresses(self@),
    {
        self.registry.addrs()
    }

    /// Takes in the peer that has connected from `addr`; messages for it go
    /// to `outbox`.
    pub fn connect(&mut self, addr: PeerAddr, outbox: Sender<TimerMessage>)
        ensures
            final(self)@ == without(old(self)@, addr).push(Peer { addr, outbox }),
            distinct(final(self)@),
            final(self).app_channel() == old(self).app_channel(),
    {
        self.registry.register(addr, outbox);
    }

    /// Hands `message` to every peer but the one it came from.
    pub fn broadcast(&mut self, message: TimerMessage) -> (report: Vec<Delivery>)
        ensures
            targets(report@) == recipients(old(self)@, message.sender),
            carries(report@, message),
            final(self)@ == survivors(old(self)@, report@),
            distinct(final(self)@),
            final(self).app_channel() == old(self).app_channel(),
    {
        self.registry.broadcast(message)
    }

    /// Deals with an event on the connection of the peer at `addr`. A message
    /// from the peer is offered to the local application and broadcast; one
    /// from the application is broadcast; a staged one is to be written to
    /// the connection; a frame that is no message is dropped; and when the
    /// connection is closed its peer leaves the registry.
    pub fn handle(&mut self, addr: PeerAddr, event: LinkEvent) -> (routed: Routed)
        ensures
            routed.command == host_command(event),
            offered_to_app(event, routed.to_app),
            final(self).app_channel() == old(self).app_channel(),
            match host_broadcasts(event) {
                Some(message) => {
                    &&& targets(routed.report@) == recipients(old(self)@, message.sender)
                    &&& carries(routed.report@, message)
                    &&& final(self)@ == survivors(old(self)@, routed.report@)
                },
                None => routed.report@.len() == 0 && final(self)@ == (if event is Closed {
                    without(old(self)@, addr)
                } else {
                    old(self)@
                }),
            },
    {
        match event {
            LinkEvent::Received(message) => {
                let accepted = offer(&self.to_app, message);
                let report = self.registry.broadcast(message);
                Routed {
                    command: LinkCommand::Continue,
                    to_app: Some(Offer { message, accepted }),
                    report,
                }
            },
            LinkEvent::Local(message) => {
                let report = self.registry.broadcast(message);
                Routed { command: LinkCommand::Continue, to_app: None, report }
            },
            LinkEvent::Staged(message) => Routed {
                command: LinkCommand::Write(message),
                to_app: None,
                report: Vec::new(),
            },
            LinkEvent::Garbled => Routed {
                command: LinkCommand::Continue,
                to_app: None,
                report: Vec::new(),
            },
            LinkEvent::Closed => {
                self.registry.deregister(addr);
                Routed { command: LinkCommand::Stop, to_app: None, report: Vec::new() }
            },
        }
    }
}

/// Deals with an event on the one connection of a participant that has
/// joined a host. A message from the host is offered to the local
/// application and goes no further; one from the application is to be
/// written to the connection; a frame that is no message is dropped.
pub fn join_handle(to_app: &Sender<TimerMessage>, event: LinkEvent) -> (routed: Routed)
    ensures
        routed.command == join_command(event),
        offered_to_app(event, routed.to_app),
        routed.report@.len() == 0,
{
    let to_app = match event {
        LinkEvent::Received(message) => Some(
            Offer { message, accepted: offer(to_app, message) },
        ),
        _ => None,
    };
    let command = match event {
        LinkEvent::Local(message) => LinkCommand::Write(message),
        LinkEvent::Staged(message) => LinkCommand::Write(message),
        LinkEvent::Closed => LinkCommand::Stop,
        _ => LinkCommand::Continue,
    };
    Routed { command, to_app, report: Vec::new() }
}

/// A message never goes back to the address it came from.
pub proof fn law_never_echoes(peers: Seq<Peer>, sender: PeerAddr)
    ensures
        !recipients(peers, sender).contains(sender),
{
}

/// What a broadcast reports handing on is the message it was given, action
/// and sender's address, and it hands it to no peer at that address.
pub proof fn law_report_has_no_echo(peers: Seq<Peer>, message: TimerMessage, report: Seq<Delivery>)
    requires
        targets(report) == recipients(peers, message.sender),
        carries(report, message),
    ensures
        forall|j: int|
            0 <= j < report.len() ==> (#[trigger] report[j]).message == message && report[j].to
                != report[j].message.sender,
{
    law_never_echoes(peers, message.sender);
    assert forall|j: int| 0 <= j < report.len() implies (#[trigger] report[j]).message == message
        && report[j].to != report[j].message.sender by {
        assert(targets(report)[j] == report[j].to);
    }
}

/// Every registered peer but the sender is offered the message, whether or
/// not another peer's channel fails; a peer stays registered exactly when no
/// attempt at it was refused.
pub proof fn law_failure_spares_others(
    peers: Seq<Peer>,
    message: TimerMessage,
    report: Seq<Delivery>,
)
    requires
        targets(report) == recipients(peers, message.sender),
    ensures
        forall|i: int|
            0 <= i < peers.len() && (#[trigger] peers[i]).addr != message.sender ==> targets(
                report,
            ).contains(peers[i].addr),
        forall|i: int|
            0 <= i < peers.len() ==> (survivors(peers, report).contains(#[trigger] peers[i])
                <==> !refused(report, peers[i].addr)),
        forall|p: Peer| #[trigger] survivors(peers, report).contains(p) ==> peers.contains(p),
{
    let other = |p: Peer| p.addr != message.sender;
    let stays = |p: Peer| !refused(report, p.addr);
    assert forall|i: int|
        0 <= i < peers.len() && (#[trigger] peers[i]).addr != message.sender implies targets(
        report,
    ).contains(peers[i].addr) by {
        peers.lemma_filter_contains(other, i);
        let j = choose|j: int|
            0 <= j < peers.filter(other).len() && peers.filter(other)[j] == peers[i];
        assert(recipients(peers, message.sender)[j] == peers[i].addr);
    }
    assert forall|p: Peer| #[trigger] survivors(peers, report).contains(p) implies peers.contains(
        p,
    ) by {
        peers.lemma_filter_contains_rev(stays, p);
    }
}

/// No peer is offered a message twice in one broadcast.
pub proof fn law_offered_once(peers: Seq<Peer>, sender: PeerAddr)
    requires
        distinct(peers),
    ensures
        recipients(peers, sender).no_duplicates(),
{
    let other = |p: Peer| p.addr != sender;
    lemma_filter_distinct(peers, other);
}

proof fn lemma_filter_distinct(s: Seq<Peer>, p: spec_fn(Peer) -> bool)
    requires
        distinct(s),
    ensures
        distinct(s.filter(p)),
        addresses(s.filter(p)).no_duplicates(),
    decreases s.len(),
{
    reveal(Seq::filter);
    if s.len() > 0 {
        let front = s.drop_last();
        lemma_filter_distinct(front, p);
        assert forall|i: int| 0 <= i < front.filter(p).len() implies (#[trigger] front.filter(
            p,
        )[i]).addr != s.last().addr by {
            front.lemma_filter_contains_rev(p, front.filter(p)[i]);
            let j = choose|j: int| 0 <= j < front.len() && front[j] == front.filter(p)[i];
            assert(s[j] == front[j]);
        }
    }
}

/// What happens to a registry, as far as routing goes.
pub enum RelayOp {
    Connect(Peer),
    Disconnect(PeerAddr),
    /// A broadcast of `message` whose attempts went as `report` tells.
    Broadcast { message: TimerMessage, report: Seq<Delivery> },
}

/// Whether `op` is one that the registry can perform on `peers`: a broadcast
/// reports one attempt for each recipient, and each hands on the message that
/// is broadcast.
pub open spec fn op_fits(peers: Seq<Peer>, op: RelayOp) -> bool {
    match op {
        RelayOp::Broadcast { message, report } => {
            &&& targets(report) == recipients(peers, message.sender)
            &&& carries(report, message)
        },
        _ => true,
    }
}

/// The registry after one operation.
pub open spec fn after_op(peers: Seq<Peer>, op: RelayOp) -> Seq<Peer> {
    match op {
        RelayOp::Connect(peer) => without(peers, peer.addr).push(peer),
        RelayOp::Disconnect(addr) => without(peers, addr),
        RelayOp::Broadcast { message, report } => survivors(peers, report),
    }
}

/// The registry after a run of operations.
pub open spec fn after_ops(peers: Seq<Peer>, ops: Seq<RelayOp>) -> Seq<Peer>
    decreases ops.len(),
{
    if ops.len() == 0 {
        peers
    } else {
        after_op(after_ops(peers, ops.drop_last()), ops.last())
    }
}

/// Whether every operation of the run is one that the registry can perform
/// when its turn comes.
pub open spec fn ops_fit(peers: Seq<Peer>, ops: Seq<RelayOp>) -> bool
    decreases ops.len(),
{
    ops.len() > 0 ==> ops_fit(peers, ops.drop_last()) && op_fits(
        after_ops(peers, ops.drop_last()),
        ops.last(),
    )
}

/// The attempts that an operation makes: those of its report if it is a
/// broadcast, none otherwise.
pub open spec fn attempts(op: RelayOp) -> Seq<Delivery> {
    match op {
        RelayOp::Broadcast { message, report } => report,
        _ => Seq::empty(),
    }
}

/// Whether the run of operations offers `message` to the peer at `to`.
pub open spec fn offers(ops: Seq<RelayOp>, to: PeerAddr, message: TimerMessage) -> bool {
    exists|i: int, j: int|
        0 <= i < ops.len() && 0 <= j < attempts(ops[i]).len() && (#[trigger] attempts(
            ops[i],
        )[j]).to == to && attempts(ops[i])[j].message == message
}

/// Whatever is connected, disconnected and broadcast, and in whatever order,
/// no message is offered to the address that it is tagged with as its
/// sender's.
pub proof fn law_no_echo_ever(
    peers: Seq<Peer>,
    ops: Seq<RelayOp>,
    to: PeerAddr,
    message: TimerMessage,
)
    requires
        ops_fit(peers, ops),
        offers(ops, to, message),
    ensures
        to != message.sender,
{
    let (i, j) = choose|i: int, j: int|
        0 <= i < ops.len() && 0 <= j < attempts(ops[i]).len() && (#[trigger] attempts(
            ops[i],
        )[j]).to == to && attempts(ops[i])[j].message == message;
    lemma_fits_at(peers, ops, i);
    let before = after_ops(peers, ops.take(i));
    law_never_echoes(before, message.sender);
    assert(targets(attempts(ops[i]))[j] == to);
}

proof fn lemma_fits_at(peers: Seq<Peer>, ops: Seq<RelayOp>, i: int)
    requires
        ops_fit(peers, ops),
        0 <= i < ops.len(),
    ensures
        op_fits(after_ops(peers, ops.take(i)), ops[i]),
    decreases ops.len(),
{
    if i < ops.len() - 1 {
        lemma_fits_at(peers, ops.drop_last(), i);
        assert(ops.drop_last().take(i) =~= ops.take(i));
    }
}

} // verus!
