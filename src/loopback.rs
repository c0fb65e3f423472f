//! A loop-backed model of the UART, and the driver's transfer loops run
//! against it.
//!
//! Every byte stored into the data register lands in one queue, which the
//! data register gives back in order. The queue holds at most `capacity`
//! bytes and nothing drains it but reads, so the model shows what the driver
//! does when the device runs out of room.

use vstd::prelude::*;
use crate::uart::{
    base_fits, tx_full, rx_non_empty, Uart, BAUDDIV_OFFSET, CONTROL_OFFSET, DATA_OFFSET,
    STATUS_OFFSET,
};
use crate::serial::{
    crlf, lemma_crlf_plain, lemma_crlf_prefix, receive_step, send_step, serial_read, serial_write,
    valid_device, whole_bytes_sent, Error, ReceiveStep, SendStep, LF,
};

verus! {

/// The model's state: what the driver can observe of the device.
pub struct LoopbackView {
    pub base: usize,
    pub capacity: nat,
    pub queue: Seq<u8>,
    pub control: u32,
    pub bauddiv: u32,
}

/// The status word of a device holding `len` of `capacity` bytes.
pub open spec fn status_word(len: nat, capacity: nat) -> u32 {
    if len >= capacity && len > 0 {
        3
    } else if len >= capacity {
        1
    } else if len > 0 {
        2
    } else {
        0
    }
}

proof fn lemma_status_bits(len: nat, capacity: nat)
    ensures
        tx_full(status_word(len, capacity)) <==> len >= capacity,
        rx_non_empty(status_word(len, capacity)) <==> len > 0,
{
    assert(0u32 & 1u32 == 0u32 && 0u32 & 2u32 == 0u32) by (bit_vector);
    assert(1u32 & 1u32 != 0u32 && 1u32 & 2u32 == 0u32) by (bit_vector);
    assert(2u32 & 1u32 == 0u32 && 2u32 & 2u32 != 0u32) by (bit_vector);
    assert(3u32 & 1u32 != 0u32 && 3u32 & 2u32 != 0u32) by (bit_vector);
}

/// A UART whose transmitter feeds its own receiver.
pub struct LoopbackUart {
    base: usize,
    capacity: usize,
    queue: Vec<u8>,
    control: u32,
    bauddiv: u32,
}

impl LoopbackUart {
    /// The device as the driver sees it.
    pub closed spec fn view(&self) -> LoopbackView {
        LoopbackView {
            base: self.base,
            capacity: self.capacity as nat,
            queue: self.queue@,
            control: self.control,
            bauddiv: self.bauddiv,
        }
    }

    /// The register window fits and the queue is within its capacity.
    pub open spec fn wf(&self) -> bool {
        &&& base_fits(self@.base)
        &&& self@.queue.len() <= self@.capacity
    }

    /// An empty, switched-off device at `base` with room for `capacity` bytes.
    pub fn new(base: usize, capacity: usize) -> (r: LoopbackUart)
        requires
            base_fits(base),
        ensures
            r.wf(),
            r@ == (LoopbackView {
                base,
                capacity: capacity as nat,
                queue: Seq::empty(),
                control: 0,
                bauddiv: 0,
            }),
    {
        LoopbackUart { base, capacity, queue: Vec::new(), control: 0, bauddiv: 0 }
    }

    /// The bytes waiting in the device, oldest first.
    pub fn pending(&self) -> (r: &Vec<u8>)
        ensures
            r@ == self@.queue,
    {
        &self.queue
    }

    /// The control register.
    pub fn control(&self) -> (r: u32)
        ensures
            r == self@.control,
    {
        self.control
    }

    /// The baud-rate divider register.
    pub fn bauddiv(&self) -> (r: u32)
        ensures
            r == self@.bauddiv,
    {
        self.bauddiv
    }

    /// Load a register. Loading the data register takes the oldest byte
    /// (zero when there is none); an address outside the window reads zero.
    pub fn load(&mut self, addr: usize) -> (r: u32)
        requires
            old(self).wf(),
        ensures
            final(self).wf(),
            addr == old(self)@.base + STATUS_OFFSET ==> r == status_word(
                old(self)@.queue.len(),
                old(self)@.capacity,
            ) && final(self)@ == old(self)@,
            addr == old(self)@.base + DATA_OFFSET && old(self)@.queue.len() > 0 ==> r
                == old(self)@.queue[0] as u32 && final(self)@ == (LoopbackView {
                queue: old(self)@.queue.drop_first(),
                ..old(self)@
            }),
            addr == old(self)@.base + DATA_OFFSET && old(self)@.queue.len() == 0 ==> r == 0
                && final(self)@ == old(self)@,
            addr == old(self)@.base + CONTROL_OFFSET ==> r == old(self)@.control 
                && final(self)@ == old(self)@,
            addr == old(self)@.base + BAUDDIV_OFFSET ==> r == old(self)@.bauddiv 
                && final(self)@ == old(self)@,
    {
        if addr == self.base + STATUS_OFFSET {
            let len: usize = self.queue.len();
            if len >= self.capacity && len > 0 {
                3
            } else if len >= self.capacity {
                1
            } else if len > 0 {
                2
            } else {
                0
            }
        } else if addr == self.base + DATA_OFFSET {
            if self.queue.len() > 0 {
                let b = self.queue.remove(0);
                b as u32
            } else {
                0
            }
        } else if addr == self.base + CONTROL_OFFSET {
            self.control
        } else if addr == self.base + BAUDDIV_OFFSET {
            self.bauddiv
        } else {
            0
        }
    }

    /// Store to a register. A byte stored into the data register joins the
    /// queue if there is room and is lost otherwise; a store outside the
    /// window does nothing.
    pub fn store(&mut self, addr: usize, value: u32)
        requires
            old(self).wf(),
        ensures
            final(self).wf(),
            addr == old(self)@.base + DATA_OFFSET ==> final(self)@ == (LoopbackView {
                queue: if old(self)@.queue.len() < old(self)@.capacity {
                    old(self)@.queue.push(value as u8)
                } else {
                    old(self)@.queue
                },
                ..old(self)@
            }),
            addr == old(self)@.base + CONTROL_OFFSET ==> final(self)@ == (LoopbackView {
                control: value,
                ..old(self)@
            }),
            addr == old(self)@.base + BAUDDIV_OFFSET ==> final(self)@ == (LoopbackView {
                bauddiv: value,
                ..old(self)@
            }),
            addr != old(self)@.base + DATA_OFFSET && addr != old(self)@.base + CONTROL_OFFSET
                && addr != old(self)@.base + BAUDDIV_OFFSET ==> final(self)@ == old(self)@,
    {
        if addr == self.base + DATA_OFFSET {
            if self.queue.len() < self.capacity {
                self.queue.push(value as u8);
            }
        } else if addr == self.base + CONTROL_OFFSET {
            self.control = value;
        } else if addr == self.base + BAUDDIV_OFFSET {
            self.bauddiv = value;
        }
    }
}

/// The parts of the model that transfers leave alone.
pub open spec fn same_setup(a: LoopbackView, b: LoopbackView) -> bool {
    &&& a.base == b.base
    &&& a.capacity == b.capacity
    &&& a.control == b.control
    &&& a.bauddiv == b.bauddiv
}

/// Send `wire` byte by byte, as the driver does, until it is all sent or the
/// device has no more room. Returns how many bytes went out: always a prefix
/// of `wire`, and all of it unless the device filled up.
pub fn send_all(uart: &Uart, dev: &mut LoopbackUart, wire: &[u8]) -> (n: usize)
    requires
        uart.wf(),
        old(dev).wf(),
        uart.base_spec() == old(dev)@.base,
    ensures
        final(dev).wf(),
        same_setup(final(dev)@, old(dev)@),
        n <= wire@.len(),
        final(dev)@.queue == old(dev)@.queue + wire@.take(n as int),
        n < wire@.len() ==> final(dev)@.queue.len() == final(dev)@.capacity,
{
    let mut i: usize = 0;
    let mut full = false;
    while i < wire.len() && !full
        invariant
            uart.wf(),
            dev.wf(),
            uart.base_spec() == dev@.base,
            same_setup(dev@, old(dev)@),
            i <= wire@.len(),
            dev@.queue == old(dev)@.queue + wire@.take(i as int),
            full ==> dev@.queue.len() == dev@.capacity,
        decreases wire.len() - i + (if full { 0int } else { 1int }),
    {
        let status = dev.load(uart.status_addr());
        proof {
            lemma_status_bits(dev@.queue.len(), dev@.capacity);
        }
        match send_step(uart, wire, i, status) {
            SendStep::Store(w) => {
                dev.store(w.addr, w.value);
                assert(wire@.take(i + 1) =~= wire@.take(i as int).push(wire@[i as int]));
                i = i + 1;
            },
            _ => {
                // A full model never drains: polling again would spin forever.
                full = true;
            },
        }
    }
    i
}

/// Receive into `buf`, as the driver does: while a byte is waiting and the
/// buffer has room, load it. Never waits. Returns how many bytes were filled
/// in, from the front of `buf`; the rest of `buf` is untouched.
pub fn receive(uart: &Uart, dev: &mut LoopbackUart, buf: &mut [u8]) -> (n: usize)
    requires
        uart.wf(),
        old(dev).wf(),
        uart.base_spec() == old(dev)@.base,
    ensures
        final(dev).wf(),
        same_setup(final(dev)@, old(dev)@),
        n == read_count(old(dev)@.queue.len(), old(buf)@.len()),
        final(buf)@ == old(dev)@.queue.take(n as int) + old(buf)@.skip(n as int),
        final(dev)@.queue == old(dev)@.queue.skip(n as int),
{
    let mut i: usize = 0;
    let mut empty = false;
    while i < buf.len() && !empty
        invariant
            uart.wf(),
            dev.wf(),
            uart.base_spec() == dev@.base,
            same_setup(dev@, old(dev)@),
            i <= buf@.len(),
            i <= old(dev)@.queue.len(),
            buf@.len() == old(buf)@.len(),
            buf@ == old(dev)@.queue.take(i as int) + old(buf)@.skip(i as int),
            dev@.queue == old(dev)@.queue.skip(i as int),
            empty ==> i == old(dev)@.queue.len(),
        decreases buf.len() - i + (if empty { 0int } else { 1int }),
    {
        let status = dev.load(uart.status_addr());
        proof {
            lemma_status_bits(dev@.queue.len(), dev@.capacity);
        }
        match receive_step(uart, i, buf.len(), status) {
            ReceiveStep::Load(addr) => {
                let data = dev.load(addr);
                let b = Uart::received(data);
                buf[i] = b;
                proof {
                    assert(buf@ =~= old(dev)@.queue.take(i + 1) + old(buf)@.skip(i + 1));
                    assert(dev@.queue =~= old(dev)@.queue.skip(i + 1));
                }
                i = i + 1;
            },
            ReceiveStep::Done => {
                empty = true;
            },
        }
    }
    i
}

/// What a write of `data` that reported `n` bytes did to the model, which was
/// in state `before` and is now in state `after`: the first `n` bytes went
/// out whole, nothing beyond the translation of `data` went out, and the
/// device filled up before the next byte could go out whole.
pub open spec fn wrote(before: LoopbackView, data: Seq<u8>, n: nat, after: LoopbackView) -> bool {
    &&& n <= data.len()
    &&& same_setup(after, before)
    &&& (before.queue + crlf(data.take(n as int))).is_prefix_of(after.queue)
    &&& after.queue.is_prefix_of(before.queue + crlf(data))
    &&& after.queue.len() <= after.capacity
    &&& n < data.len() ==> after.queue.len() == after.capacity
    &&& n < data.len() ==> after.queue.len() < before.queue.len() + crlf(data.take(n as int + 1)).len()
}

/// How many bytes a read into a buffer of `buf_len` bytes takes from a
/// device holding `queue_len`.
pub open spec fn read_count(queue_len: nat, buf_len: nat) -> nat {
    if buf_len < queue_len {
        buf_len
    } else {
        queue_len
    }
}

/// Write to a serial device backed by the model: translate line endings,
/// send, and report how many bytes of `data` went out whole. Any other device
/// index is refused without touching the device.
pub fn write_serial(uart: &Uart, dev: &mut LoopbackUart, device: u8, data: &[u8]) -> (r: Result<
    usize,
    Error,
>)
    requires
        uart.wf(),
        old(dev).wf(),
        uart.base_spec() == old(dev)@.base,
    ensures
        final(dev).wf(),
        same_setup(final(dev)@, old(dev)@),
        !valid_device(device) ==> r == Err::<usize, Error>(Error::InvalidDevice) && final(dev)@
            == old(dev)@,
        valid_device(device) ==> r is Ok,
        r matches Ok(n) ==> wrote(old(dev)@, data@, n as nat, final(dev)@),
        old(dev)@.queue.len() + crlf(data@).len() <= old(dev)@.capacity && valid_device(device)
            ==> r == Ok::<usize, Error>(data@.len() as usize),
{
    match serial_write(device, data) {
        Err(e) => Err(e),
        Ok(wire) => {
            let sent = send_all(uart, dev, wire.as_slice());
            let n = whole_bytes_sent(data, sent);
            proof {
                lemma_crlf_prefix(data@, n as int);
                let q0 = old(dev)@.queue;
                let full = crlf(data@);
                let part = crlf(data@.take(n as int));
                assert(dev@.queue == q0 + full.take(sent as int));
                assert((q0 + part) =~= (q0 + full.take(sent as int)).take((q0 + part).len() as int));
                assert(dev@.queue =~= (q0 + full).take(dev@.queue.len() as int));
                if n < data@.len() {
                    lemma_crlf_prefix(data@, n + 1);
                }
                if sent == full.len() {
                    assert(data@.take(data@.len() as int) =~= data@);
                }
            }
            Ok(n)
        },
    }
}

/// Read from a serial device backed by the model into `buf`: whatever is
/// waiting, up to the size of `buf`, without waiting for more. Any other device
/// index is refused without touching the device or the buffer.
pub fn read_serial(uart: &Uart, dev: &mut LoopbackUart, device: u8, buf: &mut [u8]) -> (r: Result<
    usize,
    Error,
>)
    requires
        uart.wf(),
        old(dev).wf(),
        uart.base_spec() == old(dev)@.base,
    ensures
        final(dev).wf(),
        !valid_device(device) ==> r == Err::<usize, Error>(Error::InvalidDevice) && final(dev)@
            == old(dev)@ && final(buf)@ == old(buf)@,
        valid_device(device) ==> r == Ok::<usize, Error>(
            read_count(old(dev)@.queue.len(), old(buf)@.len()) as usize,
        ),
        r matches Ok(n) ==> {
            &&& same_setup(final(dev)@, old(dev)@)
            &&& final(buf)@ == old(dev)@.queue.take(n as int) + old(buf)@.skip(n as int)
            &&& final(dev)@.queue == old(dev)@.queue.skip(n as int)
        },
{
    match serial_read(device, Some(buf.len())) {
        Err(e) => Err(e),
        Ok(_) => Ok(receive(uart, dev, buf)),
    }
}

/// Reading back from a loop-backed device that was written while empty gives
/// exactly the bytes written, in order, each line feed preceded by a carriage
/// return, and leaves the device empty.
pub proof fn lemma_write_then_read(
    before: LoopbackView,
    data: Seq<u8>,
    n: nat,
    after: LoopbackView,
    buf_len: nat,
)
    requires
        before.queue.len() == 0,
        crlf(data).len() <= before.capacity,
        crlf(data).len() <= buf_len,
        wrote(before, data, n, after),
        n == data.len(),
    ensures
        read_count(after.queue.len(), buf_len) == crlf(data).len(),
        after.queue.take(read_count(after.queue.len(), buf_len) as int) == crlf(data),
        after.queue.skip(read_count(after.queue.len(), buf_len) as int).len() == 0,
{
    assert(data.take(n as int) =~= data);
    assert(before.queue + crlf(data) =~= crlf(data));
    assert(after.queue =~= crlf(data));
}

/// When a device has room for only `k` more bytes and `data` holds more than
/// `k` bytes and no line feed, a write reports `k` and the device received
/// exactly the first `k` bytes of `data`, in order.
pub proof fn lemma_partial_write(before: LoopbackView, data: Seq<u8>, n: nat, after: LoopbackView)
    requires
        before.queue.len() <= before.capacity,
        before.capacity - before.queue.len() < data.len(),
        forall|i: int| 0 <= i < data.len() ==> data[i] != LF,
        wrote(before, data, n, after),
    ensures
        n == before.capacity - before.queue.len(),
        after.queue == before.queue + data.take(n as int),
{
    let k = before.capacity - before.queue.len();
    lemma_crlf_plain(data);
    lemma_crlf_plain(data.take(n as int));
    assert(after.queue.len() <= before.queue.len() + data.len());
    if n < data.len() {
        assert(after.queue.len() == before.capacity);
        assert(n <= k);
        assert(after.queue =~= (before.queue + data).take(after.queue.len() as int));
        assert(after.queue =~= before.queue + data.take(k as int));
        lemma_crlf_plain(data.take(n as int + 1));

    }
}

} // verus!
