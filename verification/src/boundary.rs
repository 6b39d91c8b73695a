//! The boundary layer: the opaque-handle surface the host drives. A handle
//! is a small number standing in for an exclusively owned stack instance;
//! zero is the null handle. Every re-entrant operation looks the handle up,
//! temporarily takes the instance out of its slot as an exclusively owned
//! value, performs its work, and puts the instance back before returning —
//! the round-trip that substitutes for a language-level borrow across the
//! boundary. Destruction is the only path that permanently drops an
//! instance; a null, out-of-range or stale handle makes every operation a
//! silent no-op, since a boundary call has no channel to signal misuse.

use vstd::prelude::*;
use crate::addr::hw_text_addr;
use crate::addr::ip_text_addr;
use crate::addr::parse_hardware_addr;
use crate::addr::parse_protocol_addr;
use crate::socket::AppMode;
use crate::socket::RX_BUFFER_CAPACITY;
use crate::socket::SocketEvent;
use crate::socket::SocketStep;
use crate::socket::TX_BUFFER_CAPACITY;
use crate::socket::TcpSocket;
use crate::stack::Stack;
use crate::stack::add_socket_post;
use crate::stack::poll_post;
use crate::stack::send_targets_post;

verus! {

/// The host-side table of stack instances. Each occupied slot is one
/// instance the host owns through the opaque handle `slot index + 1`;
/// destruction vacates the slot and never shifts the others, so handles
/// stay stable for an instance's whole lifetime.
pub struct StackTable {
    slots: Vec<Option<Stack>>,
}

/// `h` names an instance the table currently holds.
pub open spec fn valid_handle(t: StackTable, h: usize) -> bool {
    &&& 1 <= h <= t.spec_slots().len()
    &&& t.spec_slots()[h as int - 1] is Some
}

/// The instance a valid handle names.
pub open spec fn stack_at(t: StackTable, h: usize) -> Stack {
    t.spec_slots()[h as int - 1]->Some_0
}

impl StackTable {
    pub closed spec fn spec_slots(self) -> Seq<Option<Stack>> {
        self.slots@
    }

    pub fn new() -> (t: StackTable)
        ensures
            t.spec_slots().len() == 0,
    {
        StackTable { slots: Vec::new() }
    }
}

/// Whether `h` currently names an instance.
pub fn has_stack(t: &StackTable, h: usize) -> (b: bool)
    ensures
        b == valid_handle(*t, h),
{
    h >= 1 && h <= t.slots.len() && t.slots[h - 1].is_some()
}

/// Create one stack instance for the host context `opp_module_id`, from the
/// textual hardware and protocol addresses, configured with `mode`. Exactly
/// when both addresses parse, a fresh instance holding the parsed octets and
/// an empty registry is stored and its non-null handle returned; when either
/// is malformed, nothing is created or kept — the table is unchanged — and
/// the null handle 0 is returned.
pub fn make_smoltcp_stack(
    t: &mut StackTable,
    opp_module_id: i32,
    mac: &str,
    ip: &str,
    mode: AppMode,
) -> (h: usize)
    ensures
        h != 0 <==> (hw_text_addr(mac@) is Some && ip_text_addr(ip@) is Some),
        h == 0 ==> final(t).spec_slots() == old(t).spec_slots(),
        h != 0 ==> ({
            &&& h == old(t).spec_slots().len() + 1
            &&& valid_handle(*final(t), h)
            &&& final(t).spec_slots().len() == old(t).spec_slots().len() + 1
            &&& forall|j: int|
                0 <= j < old(t).spec_slots().len() ==> final(t).spec_slots()[j] == old(t).spec_slots()[j]
            &&& stack_at(*final(t), h).wf()
            &&& stack_at(*final(t), h).spec_id() == opp_module_id
            &&& stack_at(*final(t), h).spec_mode() == mode
            &&& hw_text_addr(mac@) == Some(stack_at(*final(t), h).spec_hw())
            &&& ip_text_addr(ip@) == Some(stack_at(*final(t), h).spec_ip())
            &&& stack_at(*final(t), h).spec_sockets().len() == 0
        }),
{
    let hw = match parse_hardware_addr(mac) {
        Some(a) => a,
        None => {
            return 0;
        },
    };
    let pa = match parse_protocol_addr(ip) {
        Some(a) => a,
        None => {
            return 0;
        },
    };
    let s = Stack::new(opp_module_id, hw, pa, mode);
    t.slots.push(Some(s));
    t.slots.len()
}

/// Destroy the instance `h` names, consuming the handle: its slot is
/// vacated and every later use of `h` is a no-op. Any other handle leaves
/// the table unchanged.
pub fn destroy_smoltcp_stack(t: &mut StackTable, h: usize)
    ensures
        h == 0 || h > old(t).spec_slots().len() ==> final(t).spec_slots() == old(t).spec_slots(),
        1 <= h <= old(t).spec_slots().len() ==> final(t).spec_slots() == old(t).spec_slots().update(
            h as int - 1,
            None::<Stack>,
        ),
{
    if h >= 1 && h <= t.slots.len() {
        t.slots.set(h - 1, None);
    }
}

/// One poll cycle against the instance `h` names, at a host-supplied
/// timestamp. The host gathers `events` — one engine observation plus
/// drained bytes per registered socket, in registry order — between the
/// engine's ingest poll and its flush poll; this call services the registry
/// and returns the actions to perform, as [`poll_post`] states. A null or
/// stale handle, or an event list that does not match the registry, is a
/// safe no-op: the table is unchanged and no actions are returned. The
/// instance is always back in its slot when the call returns.
pub fn poll_smoltcp_stack(
    t: &mut StackTable,
    h: usize,
    timestamp_ms: u64,
    events: Vec<SocketEvent>,
) -> (steps: Vec<SocketStep>)
    ensures
        !valid_handle(*old(t), h) ==> final(t).spec_slots() == old(t).spec_slots() && steps@.len()
            == 0,
        valid_handle(*old(t), h) && events@.len() != stack_at(
            *old(t),
            h,
        ).spec_sockets().len() ==> final(t).spec_slots() == old(t).spec_slots() && steps@.len()
            == 0,
        valid_handle(*old(t), h) && events@.len() == stack_at(*old(t), h).spec_sockets().len()
            ==> ({
            &&& final(t).spec_slots().len() == old(t).spec_slots().len()
            &&& forall|j: int|
                0 <= j < old(t).spec_slots().len() && j != h as int - 1 ==> final(t).spec_slots()[j] == old(t).spec_slots()[j]
            &&& valid_handle(*final(t), h)
            &&& poll_post(stack_at(*old(t), h), stack_at(*final(t), h), events@, steps@)
        }),
{
    if h == 0 || h > t.slots.len() {
        return Vec::new();
    }
    let idx = h - 1;
    // take exclusive ownership of the instance out of its slot
    let slot = t.slots.remove(idx);
    match slot {
        None => {
            // stale handle: restore the vacancy untouched
            t.slots.insert(idx, None);
            proof {
                assert(t.slots@ =~= old(t).slots@);
            }
            Vec::new()
        },
        Some(mut stack) => {
            if events.len() != stack.socket_count() {
                t.slots.insert(idx, Some(stack));
                proof {
                    assert(t.slots@ =~= old(t).slots@);
                }
                return Vec::new();
            }
            let steps = stack.poll(timestamp_ms, events);
            // the round-trip: the serviced instance goes back into its slot
            t.slots.insert(idx, Some(stack));
            proof {
                assert(forall|j: int|
                    0 <= j < old(t).slots@.len() && j != idx as int ==> t.slots@[j] == old(t).slots@[j]);
            }
            steps
        },
    }
}

/// A fresh, unregistered TCP socket with the configured buffer capacities;
/// it is bound to no port (0) until it is registered.
pub fn make_smoltcp_tcp_socket() -> (s: TcpSocket)
    ensures
        s == (TcpSocket {
            port: 0,
            rx_capacity: RX_BUFFER_CAPACITY,
            tx_capacity: TX_BUFFER_CAPACITY,
            prev_active: false,
        }),
{
    TcpSocket {
        port: 0,
        rx_capacity: RX_BUFFER_CAPACITY,
        tx_capacity: TX_BUFFER_CAPACITY,
        prev_active: false,
    }
}

/// Register `sock` with the instance `h` names: as part of registration the
/// socket is bound to the well-known port (the host performs the engine
/// listen), and its stable registry handle is returned. A null or stale
/// stack handle is a no-op returning nothing.
pub fn add_smoltcp_tcp_socket(t: &mut StackTable, h: usize, sock: TcpSocket) -> (r: Option<usize>)
    ensures
        !valid_handle(*old(t), h) ==> r is None && final(t).spec_slots() == old(t).spec_slots(),
        valid_handle(*old(t), h) ==> ({
            &&& r matches Some(sh) && sh == stack_at(*old(t), h).spec_sockets().len()
            &&& final(t).spec_slots().len() == old(t).spec_slots().len()
            &&& forall|j: int|
                0 <= j < old(t).spec_slots().len() && j != h as int - 1 ==> final(t).spec_slots()[j] == old(t).spec_slots()[j]
            &&& valid_handle(*final(t), h)
            &&& add_socket_post(stack_at(*old(t), h), stack_at(*final(t), h), sock)
        }),
{
    if h == 0 || h > t.slots.len() {
        return None;
    }
    let idx = h - 1;
    let slot = t.slots.remove(idx);
    match slot {
        None => {
            t.slots.insert(idx, None);
            proof {
                assert(t.slots@ =~= old(t).slots@);
            }
            None
        },
        Some(mut stack) => {
            let sh = stack.add_socket(sock);
            t.slots.insert(idx, Some(stack));
            proof {
                assert(forall|j: int|
                    0 <= j < old(t).slots@.len() && j != idx as int ==> t.slots@[j] == old(t).slots@[j]);
            }
            Some(sh)
        },
    }
}

/// Make a fresh TCP socket and register it with the instance `h` names, in
/// one step.
pub fn make_add_smoltcp_tcp_socket(t: &mut StackTable, h: usize) -> (r: Option<usize>)
    ensures
        !valid_handle(*old(t), h) ==> r is None && final(t).spec_slots() == old(t).spec_slots(),
        valid_handle(*old(t), h) ==> ({
            &&& r matches Some(sh) && sh == stack_at(*old(t), h).spec_sockets().len()
            &&& final(t).spec_slots().len() == old(t).spec_slots().len()
            &&& forall|j: int|
                0 <= j < old(t).spec_slots().len() && j != h as int - 1 ==> final(t).spec_slots()[j] == old(t).spec_slots()[j]
            &&& valid_handle(*final(t), h)
            &&& add_socket_post(
                stack_at(*old(t), h),
                stack_at(*final(t), h),
                TcpSocket {
                    port: 0,
                    rx_capacity: RX_BUFFER_CAPACITY,
                    tx_capacity: TX_BUFFER_CAPACITY,
                    prev_active: false,
                },
            )
        }),
{
    let sock = make_smoltcp_tcp_socket();
    add_smoltcp_tcp_socket(t, h, sock)
}

/// Send-on-demand: locate, by scanning the registry of the instance `h`
/// names, every socket bound to `port`; the host injects the application
/// bytes into exactly those engine sockets. A null or stale handle, or a
/// port no registered socket is bound to, yields no targets.
pub fn smoltcp_send_tcp_data(t: &StackTable, h: usize, port: u16) -> (hs: Vec<usize>)
    ensures
        !valid_handle(*t, h) ==> hs@.len() == 0,
        valid_handle(*t, h) ==> send_targets_post(stack_at(*t, h), port, hs@),
{
    if h == 0 || h > t.slots.len() {
        return Vec::new();
    }
    match &t.slots[h - 1] {
        None => Vec::new(),
        Some(stack) => stack.send_targets(port),
    }
}

/// The hardware-address octets of the instance `h` names, if any.
pub fn stack_hardware_octets(t: &StackTable, h: usize) -> (v: Option<Vec<u8>>)
    ensures
        !valid_handle(*t, h) ==> v is None,
        valid_handle(*t, h) ==> (v matches Some(o) && o@ == stack_at(*t, h).spec_hw()),
{
    if h == 0 || h > t.slots.len() {
        return None;
    }
    match &t.slots[h - 1] {
        None => None,
        Some(stack) => Some(stack.hardware_octets()),
    }
}

/// The protocol-address octets of the instance `h` names, if any: four for
/// IPv4, sixteen for IPv6.
pub fn stack_protocol_octets(t: &StackTable, h: usize) -> (v: Option<Vec<u8>>)
    ensures
        !valid_handle(*t, h) ==> v is None,
        valid_handle(*t, h) ==> (v matches Some(o) && o@ == stack_at(*t, h).spec_ip()),
{
    if h == 0 || h > t.slots.len() {
        return None;
    }
    match &t.slots[h - 1] {
        None => None,
        Some(stack) => Some(stack.protocol_octets()),
    }
}

/// The number of sockets registered with the instance `h` names, if any.
pub fn stack_socket_count(t: &StackTable, h: usize) -> (n: Option<usize>)
    ensures
        !valid_handle(*t, h) ==> n is None,
        valid_handle(*t, h) ==> n == Some(stack_at(*t, h).spec_sockets().len() as usize),
{
    if h == 0 || h > t.slots.len() {
        return None;
    }
    match &t.slots[h - 1] {
        None => None,
        Some(stack) => Some(stack.socket_count()),
    }
}

/// The port the registry of instance `h` has socket `sh` bound to, if both
/// handles are good.
pub fn stack_socket_port(t: &StackTable, h: usize, sh: usize) -> (p: Option<u16>)
    ensures
        !valid_handle(*t, h) ==> p is None,
        valid_handle(*t, h) && sh >= stack_at(*t, h).spec_sockets().len() ==> p is None,
        valid_handle(*t, h) && sh < stack_at(*t, h).spec_sockets().len() ==> p == Some(
            stack_at(*t, h).spec_sockets()[sh as int].port,
        ),
{
    if h == 0 || h > t.slots.len() {
        return None;
    }
    match &t.slots[h - 1] {
        None => None,
        Some(stack) => {
            if sh < stack.socket_count() {
                Some(stack.socket_port(sh))
            } else {
                None
            }
        },
    }
}

/// The active status recorded at the previous cycle for socket `sh` of
/// instance `h`, if both handles are good.
pub fn stack_recorded_active(t: &StackTable, h: usize, sh: usize) -> (a: Option<bool>)
    ensures
        !valid_handle(*t, h) ==> a is None,
        valid_handle(*t, h) && sh >= stack_at(*t, h).spec_sockets().len() ==> a is None,
        valid_handle(*t, h) && sh < stack_at(*t, h).spec_sockets().len() ==> a == Some(
            stack_at(*t, h).spec_sockets()[sh as int].prev_active,
        ),
{
    if h == 0 || h > t.slots.len() {
        return None;
    }
    match &t.slots[h - 1] {
        None => None,
        Some(stack) => {
            if sh < stack.socket_count() {
                Some(stack.socket_recorded_active(sh))
            } else {
                None
            }
        },
    }
}

} // verus!
