//! The stack instance: the adapter-side state of one protocol-engine
//! binding — its virtual link device, the addresses it was created with,
//! its socket registry, the owning host context, and the configured
//! application behavior — together with the per-cycle servicing of the
//! whole registry. The protocol engine's own state (address-resolution
//! cache, TCP state machines, buffers) lives with the engine in the
//! embedding program and is observed here only through [`SocketStatus`].

use vstd::prelude::*;
use crate::addr::HardwareAddr;
use crate::addr::ProtocolAddr;
use crate::addr::ip_bytes;
use crate::device::CInterface;
use crate::socket::AppMode;
use crate::socket::ECHO_PORT;
use crate::socket::SocketEvent;
use crate::socket::SocketStep;
use crate::socket::TcpSocket;
use crate::socket::service_socket;
use crate::socket::socket_after;
use crate::socket::step_model;
use crate::socket::step_view;

verus! {

/// One stack instance, exclusively owned by whoever holds it.
pub struct Stack {
    device: CInterface,
    hardware_addr: HardwareAddr,
    protocol_addr: ProtocolAddr,
    sockets: Vec<TcpSocket>,
    opp_module_id: i32,
    mode: AppMode,
}

impl Stack {
    /// The identity of the owning host context.
    pub closed spec fn spec_id(self) -> i32 {
        self.opp_module_id
    }

    /// The configured application behavior.
    pub closed spec fn spec_mode(self) -> AppMode {
        self.mode
    }

    /// The octets of the hardware address the instance was created with.
    pub closed spec fn spec_hw(self) -> Seq<u8> {
        self.hardware_addr.octets@
    }

    /// The octets of the protocol address the instance was created with.
    pub closed spec fn spec_ip(self) -> Seq<u8> {
        ip_bytes(self.protocol_addr)
    }

    /// The socket registry's bookkeeping, in insertion order.
    pub closed spec fn spec_sockets(self) -> Seq<TcpSocket> {
        self.sockets@
    }

    /// The instance's virtual link device.
    pub closed spec fn spec_device(self) -> CInterface {
        self.device
    }

    /// The device is well formed and belongs to the same host context.
    pub open spec fn wf(self) -> bool {
        &&& self.spec_device().wf()
        &&& self.spec_device().spec_id() == self.spec_id()
    }

    pub fn new(
        opp_module_id: i32,
        hardware_addr: HardwareAddr,
        protocol_addr: ProtocolAddr,
        mode: AppMode,
    ) -> (s: Stack)
        ensures
            s.wf(),
            s.spec_id() == opp_module_id,
            s.spec_mode() == mode,
            s.spec_hw() == hardware_addr.octets@,
            s.spec_ip() == ip_bytes(protocol_addr),
            s.spec_sockets().len() == 0,
    {
        Stack {
            device: CInterface::new(opp_module_id),
            hardware_addr,
            protocol_addr,
            sockets: Vec::new(),
            opp_module_id,
            mode,
        }
    }

    pub fn module_id(&self) -> (id: i32)
        ensures
            id == self.spec_id(),
    {
        self.opp_module_id
    }

    pub fn mode(&self) -> (m: AppMode)
        ensures
            m == self.spec_mode(),
    {
        self.mode
    }

    pub fn socket_count(&self) -> (n: usize)
        ensures
            n == self.spec_sockets().len(),
    {
        self.sockets.len()
    }

    pub fn socket_port(&self, h: usize) -> (p: u16)
        requires
            h < self.spec_sockets().len(),
        ensures
            p == self.spec_sockets()[h as int].port,
    {
        self.sockets[h].port
    }

    pub fn socket_recorded_active(&self, h: usize) -> (a: bool)
        requires
            h < self.spec_sockets().len(),
        ensures
            a == self.spec_sockets()[h as int].prev_active,
    {
        self.sockets[h].prev_active
    }

    /// The octets of the hardware address, as a fresh vector.
    pub fn hardware_octets(&self) -> (v: Vec<u8>)
        ensures
            v@ == self.spec_hw(),
    {
        let mut v: Vec<u8> = Vec::new();
        let mut i: usize = 0;
        while i < 6
            invariant
                i <= 6,
                v@ == self.spec_hw().subrange(0, i as int),
            decreases 6 - i,
        {
            v.push(self.hardware_addr.octets[i]);
            i += 1;
        }
        proof {
            assert(self.spec_hw().subrange(0, 6) =~= self.spec_hw());
        }
        v
    }

    /// The octets of the protocol address, as a fresh vector: four for IPv4,
    /// sixteen for IPv6.
    pub fn protocol_octets(&self) -> (v: Vec<u8>)
        ensures
            v@ == self.spec_ip(),
    {
        match &self.protocol_addr {
            ProtocolAddr::V4 { octets } => {
                let mut v: Vec<u8> = Vec::new();
                let mut i: usize = 0;
                while i < 4
                    invariant
                        i <= 4,
                        v@ == octets@.subrange(0, i as int),
                    decreases 4 - i,
                {
                    v.push(octets[i]);
                    i += 1;
                }
                proof {
                    assert(octets@.subrange(0, 4) =~= octets@);
                }
                v
            },
            ProtocolAddr::V6 { octets } => {
                let mut v: Vec<u8> = Vec::new();
                let mut i: usize = 0;
                while i < 16
                    invariant
                        i <= 16,
                        v@ == octets@.subrange(0, i as int),
                    decreases 16 - i,
                {
                    v.push(octets[i]);
                    i += 1;
                }
                proof {
                    assert(octets@.subrange(0, 16) =~= octets@);
                }
                v
            },
        }
    }

    /// Register one socket: as part of registration it is bound to the
    /// well-known port (the host performs the engine-side listen), recorded
    /// in insertion order, and its stable registry handle — valid for this
    /// registry until the instance is destroyed — is returned.
    pub fn add_socket(&mut self, sock: TcpSocket) -> (h: usize)
        ensures
            h == old(self).spec_sockets().len(),
            add_socket_post(*old(self), *final(self), sock),
    {
        let h = self.sockets.len();
        self.sockets.push(
            TcpSocket {
                port: ECHO_PORT,
                rx_capacity: sock.rx_capacity,
                tx_capacity: sock.tx_capacity,
                prev_active: sock.prev_active,
            },
        );
        h
    }

    /// One poll cycle's application servicing, at a host-supplied timestamp.
    /// The host has already run the engine's ingest poll and gathered, for
    /// each registered socket in registry order, its observed status and any
    /// drained inbound bytes; this call updates the registry bookkeeping and
    /// returns, in the same order, the actions the host is to perform before
    /// it runs the engine's flush poll at the same timestamp. The timestamp
    /// itself drives only the engine and is accepted here without
    /// validation.
    pub fn poll(&mut self, _timestamp_ms: u64, events: Vec<SocketEvent>) -> (steps: Vec<
        SocketStep,
    >)
        requires
            events@.len() == old(self).spec_sockets().len(),
        ensures
            poll_post(*old(self), *final(self), events@, steps@),
    {
        let ghost socks0 = self.sockets@;
        let ghost evs0 = events@;
        let ghost dev0 = self.device;
        let ghost hw0 = self.hardware_addr;
        let ghost ip0 = self.protocol_addr;
        let ghost id0 = self.opp_module_id;
        let ghost mode0 = self.mode;
        let mut events = events;
        let mut steps: Vec<SocketStep> = Vec::new();
        let n = self.sockets.len();
        let mut i: usize = 0;
        while i < n
            invariant
                i <= n,
                n == socks0.len(),
                evs0.len() == n,
                self.sockets@.len() == n,
                self.device == dev0,
                self.hardware_addr == hw0,
                self.protocol_addr == ip0,
                self.opp_module_id == id0,
                self.mode == mode0,
                events@ == evs0.subrange(i as int, evs0.len() as int),
                steps@.len() == i,
                forall|j: int|
                    0 <= j < i ==> self.sockets@[j] == socket_after(socks0[j], evs0[j].status),
                forall|j: int| i <= j < n ==> self.sockets@[j] == socks0[j],
                forall|j: int|
                    0 <= j < i ==> step_view(steps@[j]) == step_model(
                        mode0,
                        id0,
                        socks0[j],
                        evs0[j].status,
                        evs0[j].inbound@,
                    ),
            decreases n - i,
        {
            let ev = events.remove(0);
            proof {
                assert(evs0.subrange(i as int, evs0.len() as int)[0] == evs0[i as int]);
                assert(evs0.subrange(i as int, evs0.len() as int).remove(0) =~= evs0.subrange(
                    i as int + 1,
                    evs0.len() as int,
                ));
            }
            let mode = self.mode;
            let id = self.opp_module_id;
            let mut sock = self.sockets[i];
            let step = service_socket(&mut sock, mode, id, ev);
            self.sockets.set(i, sock);
            steps.push(step);
            i += 1;
        }
        steps
    }

    /// Send-on-demand support: the registry handles of every socket bound to
    /// `port`, in registry order — exactly those the host is to hand the
    /// out-of-cycle bytes to. Empty when no socket matches.
    pub fn send_targets(&self, port: u16) -> (hs: Vec<usize>)
        ensures
            send_targets_post(*self, port, hs@),
    {
        let mut hs: Vec<usize> = Vec::new();
        let n = self.sockets.len();
        let mut i: usize = 0;
        while i < n
            invariant
                i <= n,
                n == self.spec_sockets().len(),
                forall|j: int|
                    0 <= j < hs@.len() ==> hs@[j] < i && self.spec_sockets()[hs@[j] as int].port
                        == port,
                forall|m: int|
                    0 <= m < i && self.spec_sockets()[m].port == port ==> hs@.contains(m as usize),
                forall|j: int, k: int| 0 <= j < k < hs@.len() ==> hs@[j] < hs@[k],
            decreases n - i,
        {
            if self.sockets[i].port == port {
                let ghost hs0 = hs@;
                hs.push(i);
                proof {
                    assert forall|m: int|
                        0 <= m < i + 1 && self.spec_sockets()[m].port == port implies hs@.contains(
                        m as usize,
                    ) by {
                        if m < i {
                            let idx = choose|idx: int|
                                0 <= idx < hs0.len() && hs0[idx] == m as usize;
                            assert(hs@[idx] == m as usize);
                        } else {
                            assert(hs@[hs@.len() - 1] == i);
                        }
                    }
                }
            }
            i += 1;
        }
        hs
    }
}

/// Everything the instance keeps across a boundary call that does not touch
/// it: identity, configuration, addresses and device are those it was
/// created with.
pub open spec fn same_binding(s0: Stack, s1: Stack) -> bool {
    &&& s1.spec_id() == s0.spec_id()
    &&& s1.spec_mode() == s0.spec_mode()
    &&& s1.spec_hw() == s0.spec_hw()
    &&& s1.spec_ip() == s0.spec_ip()
    &&& s1.spec_device() == s0.spec_device()
}

/// What registering `sock` does to an instance: the binding is untouched and
/// the registry gains exactly one socket, `sock` bound to the well-known
/// port.
pub open spec fn add_socket_post(s0: Stack, s1: Stack, sock: TcpSocket) -> bool {
    &&& same_binding(s0, s1)
    &&& s1.spec_sockets() == s0.spec_sockets().push(
        TcpSocket {
            port: ECHO_PORT,
            rx_capacity: sock.rx_capacity,
            tx_capacity: sock.tx_capacity,
            prev_active: sock.prev_active,
        },
    )
}

/// What one poll cycle's servicing does to an instance, given the events
/// the host gathered (one per registered socket, in registry order): the
/// binding is untouched, each socket's bookkeeping advances as
/// [`socket_after`] says, and the returned steps are, socket for socket,
/// exactly what [`step_model`] asks for.
pub open spec fn poll_post(
    s0: Stack,
    s1: Stack,
    events: Seq<SocketEvent>,
    steps: Seq<SocketStep>,
) -> bool {
    &&& same_binding(s0, s1)
    &&& s1.spec_sockets().len() == s0.spec_sockets().len()
    &&& forall|i: int|
        0 <= i < events.len() ==> s1.spec_sockets()[i] == socket_after(
            s0.spec_sockets()[i],
            events[i].status,
        )
    &&& steps.len() == events.len()
    &&& forall|i: int|
        0 <= i < events.len() ==> step_view(steps[i]) == step_model(
            s0.spec_mode(),
            s0.spec_id(),
            s0.spec_sockets()[i],
            events[i].status,
            events[i].inbound@,
        )
}

/// What the send-on-demand scan returns for an instance: exactly the
/// handles of the sockets bound to `port`, in strictly increasing registry
/// order.
pub open spec fn send_targets_post(s: Stack, port: u16, hs: Seq<usize>) -> bool {
    &&& forall|j: int|
        0 <= j < hs.len() ==> hs[j] < s.spec_sockets().len() && s.spec_sockets()[hs[j] as int].port
            == port
    &&& forall|i: int|
        0 <= i < s.spec_sockets().len() && s.spec_sockets()[i].port == port ==> hs.contains(
            i as usize,
        )
    &&& forall|j: int, k: int| 0 <= j < k < hs.len() ==> hs[j] < hs[k]
}

} // verus!
