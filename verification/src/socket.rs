//! The socket registry's view of one TCP socket, the observable status the
//! protocol engine reports for it, and the per-cycle servicing decision:
//! open unopened sockets into a listening state, report connected edges,
//! route drained application bytes, and close a half-closed send side.

use vstd::prelude::*;
use crate::transform::reverse_lines;
use crate::transform::reverse_lines_spec;

verus! {

/// The well-known TCP port every registered socket listens on.
pub const ECHO_PORT: u16 = 6970;

/// Receive-buffer capacity configured for a newly made socket.
pub const RX_BUFFER_CAPACITY: usize = 64;

/// Transmit-buffer capacity configured for a newly made socket.
pub const TX_BUFFER_CAPACITY: usize = 128;

/// Upper bound, in bytes, on one application-level read from a socket.
pub const RECV_CHUNK: usize = 2000;

/// The registry's bookkeeping for one TCP socket — the one socket kind this
/// adapter supports. The protocol engine owns the connection state proper;
/// the registry records the buffer capacities the socket was made with, the
/// local port it bound the socket to (0 before any bind), and the active
/// status seen at the previous poll cycle, for edge detection.
#[derive(Clone, Copy, PartialEq, Eq, Structural, Debug)]
pub struct TcpSocket {
    pub port: u16,
    pub rx_capacity: usize,
    pub tx_capacity: usize,
    pub prev_active: bool,
}

/// What the protocol engine reports of one socket at the start of a cycle's
/// servicing: the small observable set the adapter inspects.
#[derive(Clone, Copy, PartialEq, Eq, Structural, Debug)]
pub struct SocketStatus {
    /// the socket is open (listening or connected)
    pub open: bool,
    /// a connection is currently active
    pub active: bool,
    /// inbound application bytes may still arrive
    pub may_recv: bool,
    /// outbound application bytes may still be sent
    pub may_send: bool,
    /// the send buffer can accept bytes right now
    pub can_send: bool,
}

/// One socket's engine observation for a cycle, together with the
/// application bytes the host drained from it (empty unless `may_recv`).
pub struct SocketEvent {
    pub status: SocketStatus,
    pub inbound: Vec<u8>,
}

/// The configured application behavior for drained bytes.
#[derive(Clone, Copy, PartialEq, Eq, Structural, Debug)]
pub enum AppMode {
    /// deliver inbound bytes verbatim to the host's application sink
    Forward,
    /// echo inbound bytes back through the socket, reversed line by line
    ReverseEcho,
}

/// Where one cycle's drained bytes go.
pub enum Delivery {
    /// hand `data` to the host's application sink for this context and port
    ToSink { opp_module_id: i32, port: u16, data: Vec<u8> },
    /// write `data` back into the socket's send buffer
    Echo { data: Vec<u8> },
}

/// The mathematical image of a [`Delivery`].
pub ghost enum DeliveryModel {
    ToSink { opp_module_id: i32, port: u16, data: Seq<u8> },
    Echo { data: Seq<u8> },
}

pub open spec fn delivery_view(d: Delivery) -> DeliveryModel {
    match d {
        Delivery::ToSink { opp_module_id, port, data } => DeliveryModel::ToSink {
            opp_module_id,
            port,
            data: data@,
        },
        Delivery::Echo { data } => DeliveryModel::Echo { data: data@ },
    }
}

pub open spec fn delivery_opt_view(d: Option<Delivery>) -> Option<DeliveryModel> {
    match d {
        Some(inner) => Some(delivery_view(inner)),
        None => None,
    }
}

/// The engine- and host-facing actions one cycle asks for, for one socket,
/// in the order they are to be performed.
pub struct SocketStep {
    /// open the socket into a listening state on this port
    pub listen: Option<u16>,
    /// the connected status flipped to this value (observability only)
    pub transition: Option<bool>,
    /// what to do with the drained inbound bytes
    pub delivery: Option<Delivery>,
    /// close the socket's send side (the peer half-closed)
    pub close_send: bool,
}

/// The mathematical image of a [`SocketStep`].
pub ghost struct StepModel {
    pub listen: Option<u16>,
    pub transition: Option<bool>,
    pub delivery: Option<DeliveryModel>,
    pub close_send: bool,
}

pub open spec fn step_view(s: SocketStep) -> StepModel {
    StepModel {
        listen: s.listen,
        transition: s.transition,
        delivery: delivery_opt_view(s.delivery),
        close_send: s.close_send,
    }
}

/// Where the configured behavior sends bytes drained from a socket: under
/// reverse-echo, when the socket can accept outbound bytes and something was
/// drained, the bytes go back through the socket transformed; in every other
/// case they go verbatim to the host's application sink for this context and
/// port.
pub open spec fn delivery_model(
    mode: AppMode,
    opp_module_id: i32,
    port: u16,
    can_send: bool,
    data: Seq<u8>,
) -> DeliveryModel {
    if mode == AppMode::ReverseEcho && can_send && data.len() > 0 {
        DeliveryModel::Echo { data: reverse_lines_spec(data) }
    } else {
        DeliveryModel::ToSink { opp_module_id, port, data }
    }
}

/// The registry's bookkeeping for a socket after one cycle: the bound port
/// is set by the listen this cycle issues for an unopened socket, and the
/// observed active status is recorded for the next cycle's edge detection.
pub open spec fn socket_after(sock: TcpSocket, st: SocketStatus) -> TcpSocket {
    TcpSocket {
        port: if !st.open {
            ECHO_PORT
        } else {
            sock.port
        },
        rx_capacity: sock.rx_capacity,
        tx_capacity: sock.tx_capacity,
        prev_active: st.active,
    }
}

/// The full servicing decision for one socket in one cycle:
/// - an unopened socket, and only an unopened one, is asked to listen on the
///   well-known port;
/// - a transition is reported exactly when the observed active status
///   differs from the previously recorded one;
/// - drained bytes are routed if and only if the socket may receive;
/// - the send side is closed exactly when the socket may no longer receive
///   but may still send (half-closed by the peer).
pub open spec fn step_model(
    mode: AppMode,
    opp_module_id: i32,
    sock: TcpSocket,
    st: SocketStatus,
    data: Seq<u8>,
) -> StepModel {
    StepModel {
        listen: if !st.open {
            Some(ECHO_PORT)
        } else {
            None
        },
        transition: if st.active != sock.prev_active {
            Some(st.active)
        } else {
            None
        },
        delivery: if st.may_recv {
            Some(
                delivery_model(
                    mode,
                    opp_module_id,
                    socket_after(sock, st).port,
                    st.can_send,
                    data,
                ),
            )
        } else {
            None
        },
        close_send: !st.may_recv && st.may_send,
    }
}

/// Route one cycle's drained bytes as the configured behavior asks.
pub fn decide_delivery(
    mode: AppMode,
    opp_module_id: i32,
    port: u16,
    can_send: bool,
    data: Vec<u8>,
) -> (d: Delivery)
    ensures
        delivery_view(d) == delivery_model(mode, opp_module_id, port, can_send, data@),
{
    if mode == AppMode::ReverseEcho && can_send && data.len() > 0 {
        Delivery::Echo { data: reverse_lines(&data) }
    } else {
        Delivery::ToSink { opp_module_id, port, data }
    }
}

/// Service one socket for one cycle: update the registry bookkeeping and
/// return the actions the host is to perform on the engine socket, exactly
/// as [`step_model`] describes them.
pub fn service_socket(
    sock: &mut TcpSocket,
    mode: AppMode,
    opp_module_id: i32,
    ev: SocketEvent,
) -> (step: SocketStep)
    ensures
        *final(sock) == socket_after(*old(sock), ev.status),
        step_view(step) == step_model(mode, opp_module_id, *old(sock), ev.status, ev.inbound@),
{
    let st = ev.status;
    let listen: Option<u16> = if !st.open {
        sock.port = ECHO_PORT;
        Some(ECHO_PORT)
    } else {
        None
    };
    let transition: Option<bool> = if st.active != sock.prev_active {
        Some(st.active)
    } else {
        None
    };
    sock.prev_active = st.active;
    let delivery: Option<Delivery> = if st.may_recv {
        Some(decide_delivery(mode, opp_module_id, sock.port, st.can_send, ev.inbound))
    } else {
        None
    };
    SocketStep { listen, transition, delivery, close_send: !st.may_recv && st.may_send }
}

/// A socket the engine reports open is never asked to listen: repeated poll
/// cycles cannot double-listen on an already-open socket, whatever else they
/// observe or drain.
pub proof fn lemma_no_double_listen(
    mode: AppMode,
    opp_module_id: i32,
    sock: TcpSocket,
    st: SocketStatus,
    data: Seq<u8>,
)
    requires
        st.open,
    ensures
        step_model(mode, opp_module_id, sock, st, data).listen is None,
{
}

/// A connection the engine newly reports active is observable within the
/// cycle that sees it: the transition is reported, and the recorded status
/// a later cycle compares against is now active.
pub proof fn lemma_transition_observable(
    mode: AppMode,
    opp_module_id: i32,
    sock: TcpSocket,
    st: SocketStatus,
    data: Seq<u8>,
)
    requires
        st.active,
        !sock.prev_active,
    ensures
        step_model(mode, opp_module_id, sock, st, data).transition == Some(true),
        socket_after(sock, st).prev_active,
{
}

/// Under the plain-forward behavior, every drained byte sequence is handed
/// verbatim to the host's application sink, under the socket's own context
/// identity and bound port.
pub proof fn lemma_forward_verbatim(
    opp_module_id: i32,
    sock: TcpSocket,
    st: SocketStatus,
    data: Seq<u8>,
)
    requires
        st.may_recv,
    ensures
        step_model(AppMode::Forward, opp_module_id, sock, st, data).delivery == Some(
            DeliveryModel::ToSink {
                opp_module_id,
                port: socket_after(sock, st).port,
                data,
            },
        ),
{
}

/// Under the reverse-echo behavior, bytes drained from a connection that can
/// accept outbound data go back through the socket reversed line by line.
pub proof fn lemma_echo_reversal(
    opp_module_id: i32,
    sock: TcpSocket,
    st: SocketStatus,
    data: Seq<u8>,
)
    requires
        st.may_recv,
        st.can_send,
        data.len() > 0,
    ensures
        step_model(AppMode::ReverseEcho, opp_module_id, sock, st, data).delivery == Some(
            DeliveryModel::Echo { data: reverse_lines_spec(data) },
        ),
{
}

} // verus!
