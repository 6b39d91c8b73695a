//! The virtual link-layer device: turns the host's pull-based frame delivery
//! and push-based frame collection into the synchronous request/response
//! shape a protocol engine's device abstraction expects.

use vstd::prelude::*;
use vstd::pervasive::VecAdditionalExecFns;

verus! {

/// Fixed upper bound, in bytes, on one link-layer frame: a safe maximum for
/// an Ethernet link. A device's MTU never changes over its lifetime.
pub const DEVICE_MTU: usize = 1536;

/// A receive request that produced no frame: the host reported zero
/// available bytes. Kept apart from a successful frame so that "nothing
/// available" is never mistaken for an empty frame.
#[derive(Clone, Copy, PartialEq, Eq, Structural, Debug)]
pub enum DeviceError {
    NoData,
}

/// A virtual Ethernet interface bound to one host context.
///
/// The host side of each frame exchange (the callback that fills a receive
/// buffer with an inbound frame, and the callback that takes a finished
/// outbound frame) is performed by the embedding program; this type owns the
/// shaping of those exchanges: sizing the scratch buffer, rejecting an empty
/// report, and allocating exact-length transmit buffers.
pub struct CInterface {
    opp_module_id: i32,
    mtu: usize,
}

impl CInterface {
    /// The identity of the owning host context.
    pub closed spec fn spec_id(self) -> i32 {
        self.opp_module_id
    }

    /// The device's fixed MTU.
    pub closed spec fn spec_mtu(self) -> usize {
        self.mtu
    }

    /// A device is well formed when its MTU is the fixed bound.
    pub open spec fn wf(self) -> bool {
        self.spec_mtu() == DEVICE_MTU
    }

    pub fn new(opp_module_id: i32) -> (dev: CInterface)
        ensures
            dev.wf(),
            dev.spec_id() == opp_module_id,
    {
        CInterface { opp_module_id, mtu: DEVICE_MTU }
    }

    pub fn mtu(&self) -> (m: usize)
        ensures
            m == self.spec_mtu(),
    {
        self.mtu
    }

    pub fn module_id(&self) -> (id: i32)
        ensures
            id == self.spec_id(),
    {
        self.opp_module_id
    }

    /// The maximum-size zeroed scratch buffer a receive request hands to the
    /// host to fill; the host writes an inbound frame at its front and
    /// reports how many bytes it wrote.
    pub fn rx_scratch(&self) -> (buf: Vec<u8>)
        ensures
            buf@.len() == self.spec_mtu(),
            forall|i: int| 0 <= i < buf@.len() ==> buf@[i] == 0u8,
    {
        let mut buf: Vec<u8> = Vec::new();
        while buf.len() < self.mtu
            invariant
                buf@.len() <= self.mtu,
                forall|i: int| 0 <= i < buf@.len() ==> buf@[i] == 0u8,
            decreases self.mtu - buf@.len(),
        {
            buf.push(0u8);
        }
        buf
    }

    /// Shape the host's answer to one receive request. `reported` is the
    /// byte count the host claims to have written at the front of `scratch`.
    /// A report of zero means "nothing available" and yields the recognizable
    /// non-fatal [`DeviceError::NoData`], never an empty frame; a positive
    /// report yields exactly the reported prefix of the scratch buffer as an
    /// owned frame.
    pub fn receive(&self, scratch: Vec<u8>, reported: usize) -> (r: Result<Vec<u8>, DeviceError>)
        requires
            scratch@.len() == self.spec_mtu(),
            reported <= scratch@.len(),
        ensures
            reported == 0 ==> r is Err && r->Err_0 == DeviceError::NoData,
            reported != 0 ==> r is Ok && r->Ok_0@ == scratch@.subrange(0, reported as int),
    {
        if reported == 0 {
            Err(DeviceError::NoData)
        } else {
            let mut frame = scratch;
            frame.truncate(reported);
            Ok(frame)
        }
    }

    /// Begin one transmit request: allocate a zeroed buffer of exactly
    /// `length` bytes for the protocol engine to fill in place. Allocation
    /// never fails for the lengths the engine will request, which are
    /// bounded by the MTU.
    pub fn transmit(&self, length: usize) -> (tx: TxBuffer)
        requires
            length <= self.spec_mtu(),
        ensures
            tx.spec_id() == self.spec_id(),
            tx.contents().len() == length,
            forall|i: int| 0 <= i < tx.contents().len() ==> tx.contents()[i] == 0u8,
    {
        let mut buffer: Vec<u8> = Vec::new();
        while buffer.len() < length
            invariant
                buffer@.len() <= length,
                forall|i: int| 0 <= i < buffer@.len() ==> buffer@[i] == 0u8,
            decreases length - buffer@.len(),
        {
            buffer.push(0u8);
        }
        TxBuffer { opp_module_id: self.opp_module_id, buffer }
    }
}

/// A scoped transmit buffer: wraps one outbound frame plus the identity of
/// the host context it belongs to. The buffer is writable as a flat byte
/// span while alive; [`TxBuffer::release`] consumes it and yields the full
/// allocated contents for delivery to the host. Because release takes the
/// buffer by value, the contents can be handed over exactly once, and every
/// write path preserves the allocated length, so the host always gets
/// exactly as many bytes as the transmit request asked for, however much of
/// the span the writer actually filled.
pub struct TxBuffer {
    opp_module_id: i32,
    buffer: Vec<u8>,
}

impl TxBuffer {
    /// The host context this frame is routed to.
    pub closed spec fn spec_id(self) -> i32 {
        self.opp_module_id
    }

    /// The bytes accumulated so far; its length is the allocated length of
    /// the transmit request and never changes.
    pub closed spec fn contents(self) -> Seq<u8> {
        self.buffer@
    }

    pub fn len(&self) -> (n: usize)
        ensures
            n == self.contents().len(),
    {
        self.buffer.len()
    }

    /// Read one accumulated byte.
    pub fn get(&self, i: usize) -> (b: u8)
        requires
            i < self.contents().len(),
        ensures
            b == self.contents()[i as int],
    {
        self.buffer[i]
    }

    /// Write one byte in place; the allocated length is unchanged.
    pub fn set(&mut self, i: usize, b: u8)
        requires
            i < old(self).contents().len(),
        ensures
            final(self).spec_id() == old(self).spec_id(),
            final(self).contents() == old(self).contents().update(i as int, b),
    {
        self.buffer.set(i, b);
    }

    /// Copy `data` into the buffer starting at `offset`; bytes outside the
    /// copied range and the allocated length are unchanged.
    pub fn fill(&mut self, offset: usize, data: &Vec<u8>)
        requires
            offset + data@.len() <= old(self).contents().len(),
        ensures
            final(self).spec_id() == old(self).spec_id(),
            final(self).contents() == old(self).contents().subrange(0, offset as int) + data@
                + old(self).contents().subrange(
                offset + data@.len(),
                old(self).contents().len() as int,
            ),
    {
        let ghost orig = self.buffer@;
        let ghost orig_id = self.opp_module_id;
        let total = self.buffer.len();
        let mut i: usize = 0;
        while i < data.len()
            invariant
                i <= data@.len(),
                offset + data@.len() <= total,
                total == orig.len(),
                self.opp_module_id == orig_id,
                self.buffer@ == orig.subrange(0, offset as int) + data@.subrange(0, i as int)
                    + orig.subrange(offset + i, orig.len() as int),
            decreases data@.len() - i,
        {
            let b = data[i];
            self.buffer.set(offset + i, b);
            i += 1;
            proof {
                assert(self.buffer@ =~= orig.subrange(0, offset as int) + data@.subrange(
                    0,
                    i as int,
                ) + orig.subrange(offset + i, orig.len() as int));
            }
        }
        proof {
            assert(data@.subrange(0, data@.len() as int) == data@);
        }
    }

    /// End of the buffer's scope: hand the full accumulated contents, at
    /// their full allocated length, to the caller for delivery to the host's
    /// outbound callback, together with the owning host context. Consuming
    /// `self` makes this the one and only delivery of this transmit request.
    pub fn release(self) -> (r: (i32, Vec<u8>))
        ensures
            r.0 == self.spec_id(),
            r.1@ == self.contents(),
    {
        (self.opp_module_id, self.buffer)
    }
}

} // verus!
