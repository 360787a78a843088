//! Single-producer/single-consumer byte ring buffer addressed by two
//! ever-growing cursors. Status bits are sticky: they stay set until the
//! client acknowledges them with `acknowledge_status`.
use vstd::prelude::*;
use crate::wire::{RingBufferHeader, STATUS_OVERRUN, STATUS_UNDERRUN};

verus! {

/// What a stream is, as a client sees it: its capacity, its cursors, its
/// status bits, and the bytes written but not yet read, oldest first.
pub struct StreamView {
    pub buffer_size: nat,
    pub write_index: nat,
    pub read_index: nat,
    pub status: u32,
    pub pending: Seq<u8>,
}

/// A stream just attached: empty, cursors at zero, no status.
pub open spec fn fresh_stream(buffer_size: nat) -> StreamView {
    StreamView {
        buffer_size,
        write_index: 0,
        read_index: 0,
        status: 0,
        pending: Seq::empty(),
    }
}

/// Whether writing `len` more bytes overwrites unread ones.
pub open spec fn overruns(v: StreamView, len: nat) -> bool {
    v.pending.len() + len > v.buffer_size
}

/// The stream after a write. The write always goes through; where it does not
/// fit, the oldest unread bytes are dropped so that the newest `buffer_size`
/// remain, and the overrun bit is set.
pub open spec fn after_write(v: StreamView, bytes: Seq<u8>) -> StreamView {
    let all = v.pending + bytes;
    if overruns(v, bytes.len()) {
        StreamView {
            buffer_size: v.buffer_size,
            write_index: v.write_index + bytes.len(),
            read_index: (v.write_index + bytes.len() - v.buffer_size) as nat,
            status: v.status | STATUS_OVERRUN,
            pending: all.subrange(all.len() - v.buffer_size, all.len() as int),
        }
    } else {
        StreamView {
            buffer_size: v.buffer_size,
            write_index: v.write_index + bytes.len(),
            read_index: v.read_index,
            status: v.status,
            pending: all,
        }
    }
}

/// How many bytes a read of at most `max_len` returns.
pub open spec fn read_len(v: StreamView, max_len: nat) -> nat {
    if max_len <= v.pending.len() {
        max_len
    } else {
        v.pending.len()
    }
}

/// The bytes a read of at most `max_len` returns: the oldest unread ones.
pub open spec fn read_bytes(v: StreamView, max_len: nat) -> Seq<u8> {
    v.pending.take(read_len(v, max_len) as int)
}

/// The stream after a read of at most `max_len`; a shortfall sets the underrun bit.
pub open spec fn after_read(v: StreamView, max_len: nat) -> StreamView {
    let n = read_len(v, max_len);
    StreamView {
        buffer_size: v.buffer_size,
        write_index: v.write_index,
        read_index: v.read_index + n,
        status: if v.pending.len() < max_len {
            v.status | STATUS_UNDERRUN
        } else {
            v.status
        },
        pending: v.pending.skip(n as int),
    }
}

/// Two cursors less than a capacity apart fall on different slots.
proof fn lemma_mod_distinct(p: int, q: int, m: int)
    requires
        0 <= p < q < p + m,
    ensures
        p % m != q % m,
{
    vstd::arithmetic::div_mod::lemma_fundamental_div_mod(p, m);
    vstd::arithmetic::div_mod::lemma_fundamental_div_mod(q, m);
    if p % m == q % m {
        let d = q / m - p / m;
        assert(q - p == m * d) by (nonlinear_arith)
            requires
                p == m * (p / m) + p % m,
                q == m * (q / m) + q % m,
                p % m == q % m,
                d == q / m - p / m,
        ;
        if d >= 1 {
            assert(m * d >= m) by (nonlinear_arith)
                requires
                    d >= 1,
                    m > 0,
            ;
        } else {
            assert(m * d <= 0) by (nonlinear_arith)
                requires
                    d <= 0,
                    m > 0,
            ;
        }
    }
}

/// A stream's header and payload region.
pub struct RingBuffer {
    header: RingBufferHeader,
    data: Vec<u8>,
}

impl View for RingBuffer {
    type V = StreamView;

    closed spec fn view(&self) -> StreamView {
        let cap = self.header.buffer_size as int;
        let w = self.header.write_index as int;
        let r = self.header.read_index as int;
        StreamView {
            buffer_size: self.header.buffer_size as nat,
            write_index: w as nat,
            read_index: r as nat,
            status: self.header.status,
            pending: Seq::new((w - r) as nat, |j: int| self.data@[(r + j) % cap]),
        }
    }
}

impl RingBuffer {
    /// The cursors are ordered, at most a capacity apart, and the payload
    /// region has the header's size.
    pub closed spec fn wf(&self) -> bool {
        &&& self.header.buffer_size > 0
        &&& self.data@.len() == self.header.buffer_size
        &&& self.header.read_index <= self.header.write_index
        &&& self.header.write_index - self.header.read_index <= self.header.buffer_size
    }

    /// What every well-formed stream satisfies, as seen through its view.
    pub proof fn lemma_view_bounds(&self)
        requires
            self.wf(),
        ensures
            self@.buffer_size > 0,
            self@.read_index <= self@.write_index,
            self@.pending.len() == self@.write_index - self@.read_index,
            self@.pending.len() <= self@.buffer_size,
            self@.write_index <= u64::MAX,
            self@.buffer_size <= u32::MAX,
    {
    }

    /// An empty stream with a payload region of `buffer_size` bytes.
    pub fn new(buffer_size: u32) -> (r: RingBuffer)
        requires
            buffer_size > 0,
        ensures
            r.wf(),
            r@ == fresh_stream(buffer_size as nat),
    {
        let r = RingBuffer {
            header: RingBufferHeader { write_index: 0, read_index: 0, buffer_size, status: 0 },
            data: vec![0u8; buffer_size as usize],
        };
        assert(r@.pending =~= Seq::<u8>::empty());
        r
    }

    /// The header as it stands in the shared region.
    pub fn header(&self) -> (h: RingBufferHeader)
        ensures
            h.buffer_size == self@.buffer_size,
            h.write_index == self@.write_index,
            h.read_index == self@.read_index,
            h.status == self@.status,
    {
        self.header
    }

    /// Bytes that can be written without overwriting unread ones.
    pub fn available_to_write(&self) -> (n: u64)
        requires
            self.wf(),
        ensures
            n == self@.buffer_size - self@.pending.len(),
    {
        self.header.buffer_size as u64 - (self.header.write_index - self.header.read_index)
    }

    /// Bytes written and not yet read.
    pub fn available_to_read(&self) -> (n: u64)
        requires
            self.wf(),
        ensures
            n == self@.pending.len(),
    {
        self.header.write_index - self.header.read_index
    }

    /// Clears the status bits in `mask`: the client's acknowledgement.
    pub fn acknowledge_status(&mut self, mask: u32)
        requires
            old(self).wf(),
        ensures
            final(self).wf(),
            final(self)@ == (StreamView { status: old(self)@.status & !mask, ..old(self)@ }),
    {
        self.header.status = self.header.status & !mask;
    }

    /// Appends `bytes` to the stream, dropping the oldest unread bytes where
    /// they do not fit (an overrun).
    pub fn write(&mut self, bytes: &[u8])
        requires
            old(self).wf(),
            old(self)@.write_index + bytes@.len() <= u64::MAX,
        ensures
            final(self).wf(),
            final(self)@ == after_write(old(self)@, bytes@),
    {
        let cap: u64 = self.header.buffer_size as u64;
        let w: u64 = self.header.write_index;
        let r: u64 = self.header.read_index;
        let n: u64 = bytes.len() as u64;
        let skip: u64 = if n > cap {
            n - cap
        } else {
            0
        };
        let ghost all = self@.pending + bytes@;
        let ghost old_view = self@;
        proof {
            assert forall|p: int| r <= p < w implies #[trigger] self.data@[p % (cap as int)] == all[p
                - r] by {
                assert(all[p - r] == old_view.pending[p - r]);
            }
        }
        let mut k: u64 = skip;
        while k < n
            invariant
                self.header == old(self).header,
                self.data@.len() == cap,
                cap == self.header.buffer_size,
                w == self.header.write_index,
                r == self.header.read_index,
                n == bytes@.len(),
                cap > 0,
                r <= w,
                w - r <= cap,
                w + n <= u64::MAX,
                skip == (if n > cap {
                    n - cap
                } else {
                    0
                }),
                skip <= k <= n,
                all.len() == w - r + n,
                all == old_view.pending + bytes@,
                forall|p: int|
                    (if r >= w + k - cap {
                        r as int
                    } else {
                        w + k - cap
                    }) <= p < w + k && (p < w || w + skip <= p) ==> #[trigger] self.data@[p % (
                    cap as int)] == all[p - r],
            decreases n - k,
        {
            let pos: usize = ((w + k) % cap) as usize;
            let ghost before = self.data@;
            self.data[pos] = bytes[k as usize];
            proof {
                let lo: int = if r >= w + k + 1 - cap {
                    r as int
                } else {
                    w + k + 1 - cap
                };
                assert(all[w + k - r] == bytes@[k as int]);
                assert forall|p: int|
                    lo <= p < w + k + 1 && (p < w || w + skip <= p) implies #[trigger] self.data@[p
                    % (cap as int)] == all[p - r] by {
                    if p < w + k {
                        lemma_mod_distinct(p, (w + k) as int, cap as int);
                        assert(before[p % (cap as int)] == all[p - r]);
                    }
                }
            }
            k = k + 1;
        }
        let overrun = (w - r) + n > cap;
        let new_w: u64 = w + n;
        let new_r: u64 = if overrun {
            new_w - cap
        } else {
            r
        };
        self.header.write_index = new_w;
        self.header.read_index = new_r;
        if overrun {
            self.header.status = self.header.status | STATUS_OVERRUN;
        }
        proof {
            let target = after_write(old_view, bytes@);
            assert(self@.pending.len() == target.pending.len());
            assert forall|j: int| 0 <= j < self@.pending.len() implies self@.pending[j]
                == target.pending[j] by {
                let p = new_r + j;
                assert(self@.pending[j] == self.data@[p % (cap as int)]);
            }
            assert(self@.pending =~= target.pending);
        }
    }

    /// Takes up to `max_len` of the oldest unread bytes. A shortfall returns
    /// what there is and sets the underrun bit.
    pub fn read(&mut self, max_len: usize) -> (out: Vec<u8>)
        requires
            old(self).wf(),
        ensures
            final(self).wf(),
            final(self)@ == after_read(old(self)@, max_len as nat),
            out@ == read_bytes(old(self)@, max_len as nat),
    {
        let cap: u64 = self.header.buffer_size as u64;
        let w: u64 = self.header.write_index;
        let r: u64 = self.header.read_index;
        let avail: usize = (w - r) as usize;
        let n: usize = if max_len <= avail {
            max_len
        } else {
            avail
        };
        let ghost pending = self@.pending;
        let mut out: Vec<u8> = Vec::new();
        let mut k: usize = 0;
        while k < n
            invariant
                self.wf(),
                self@.pending == pending,
                cap == self.header.buffer_size,
                w == self.header.write_index,
                r == self.header.read_index,
                n <= avail,
                avail == w - r,
                k <= n,
                out@ =~= pending.take(k as int),
            decreases n - k,
        {
            let pos: usize = ((r + k as u64) % cap) as usize;
            out.push(self.data[pos]);
            k = k + 1;
        }
        let ghost old_view = self@;
        self.header.read_index = r + n as u64;
        if avail < max_len {
            self.header.status = self.header.status | STATUS_UNDERRUN;
        }
        proof {
            let target = after_read(old_view, max_len as nat);
            assert forall|j: int| 0 <= j < self@.pending.len() implies self@.pending[j]
                == target.pending[j] by {
                assert((r + n + j) == r + (n + j));
            }
            assert(self@.pending =~= target.pending);
        }
        out
    }
}

/// One step of a producer/consumer session.
pub enum StreamOp {
    Write(Seq<u8>),
    Read(nat),
}

/// The stream after one step, and the bytes the step returned.
pub open spec fn apply_op(v: StreamView, op: StreamOp) -> (StreamView, Seq<u8>) {
    match op {
        StreamOp::Write(b) => (after_write(v, b), Seq::empty()),
        StreamOp::Read(n) => (after_read(v, n), read_bytes(v, n)),
    }
}

/// The stream after a session, and every byte its reads returned, in order.
pub open spec fn run_ops(v: StreamView, ops: Seq<StreamOp>) -> (StreamView, Seq<u8>)
    decreases ops.len(),
{
    if ops.len() == 0 {
        (v, Seq::empty())
    } else {
        let (v1, out1) = apply_op(v, ops[0]);
        let (v2, out2) = run_ops(v1, ops.drop_first());
        (v2, out1 + out2)
    }
}

/// Whether every write fits in the free space and every read asks for no
/// more than is unread.
pub open spec fn within_bounds(v: StreamView, ops: Seq<StreamOp>) -> bool
    decreases ops.len(),
{
    if ops.len() == 0 {
        true
    } else {
        let fits = match ops[0] {
            StreamOp::Write(b) => !overruns(v, b.len()),
            StreamOp::Read(n) => n <= v.pending.len(),
        };
        fits && within_bounds(apply_op(v, ops[0]).0, ops.drop_first())
    }
}

/// Every byte a session wrote, in order.
pub open spec fn written(ops: Seq<StreamOp>) -> Seq<u8>
    decreases ops.len(),
{
    if ops.len() == 0 {
        Seq::empty()
    } else {
        let first = match ops[0] {
            StreamOp::Write(b) => b,
            StreamOp::Read(_) => Seq::empty(),
        };
        first + written(ops.drop_first())
    }
}

/// First in, first out: in a session whose writes and reads stay within the
/// free and unread space, the bytes read followed by those still unread are
/// exactly the bytes unread at the start followed by the bytes written. So
/// from an empty stream the reads return a prefix of what was written, in
/// order, nothing lost and nothing twice.
pub proof fn lemma_fifo(v: StreamView, ops: Seq<StreamOp>)
    requires
        within_bounds(v, ops),
    ensures
        run_ops(v, ops).1 + run_ops(v, ops).0.pending == v.pending + written(ops),
    decreases ops.len(),
{
    if ops.len() > 0 {
        let rest = ops.drop_first();
        let v1 = apply_op(v, ops[0]).0;
        lemma_fifo(v1, rest);
        let (v2, out2) = run_ops(v1, rest);
        match ops[0] {
            StreamOp::Write(b) => {
                assert(v1.pending == v.pending + b);
                assert(Seq::<u8>::empty() + out2 =~= out2);
                assert(v.pending + (b + written(rest)) =~= (v.pending + b) + written(rest));
                assert(out2 + v2.pending == v1.pending + written(rest));
            },
            StreamOp::Read(n) => {
                let t = v.pending.take(n as int);
                assert(v1.pending == v.pending.skip(n as int));
                assert(t + v1.pending =~= v.pending);
                assert(Seq::<u8>::empty() + written(rest) =~= written(rest));
                assert((t + out2) + v2.pending =~= t + (out2 + v2.pending));
            },
        }
    } else {
        assert(Seq::<u8>::empty() + v.pending =~= v.pending);
        assert(v.pending + Seq::<u8>::empty() =~= v.pending);
    }
}

/// The last `n` bytes of `x`, or all of it where it is shorter.
pub open spec fn last_n(x: Seq<u8>, n: nat) -> Seq<u8> {
    if x.len() <= n {
        x
    } else {
        x.subrange(x.len() - n, x.len() as int)
    }
}

/// Whether a session only writes.
pub open spec fn only_writes(ops: Seq<StreamOp>) -> bool {
    forall|i: int| 0 <= i < ops.len() ==> (#[trigger] ops[i]) is Write
}

proof fn lemma_last_n_append(x: Seq<u8>, y: Seq<u8>, n: nat)
    ensures
        last_n(last_n(x, n) + y, n) == last_n(x + y, n),
{
    if x.len() > n {
        let l = last_n(last_n(x, n) + y, n);
        let r = last_n(x + y, n);
        assert(l.len() == r.len());
        assert forall|j: int| 0 <= j < l.len() implies l[j] == r[j] by {}
        assert(l =~= r);
    }
}

/// Writes alone keep the newest `buffer_size` bytes, and the overrun bit is
/// set once anything was dropped.
proof fn lemma_writes_keep_newest(v: StreamView, ops: Seq<StreamOp>)
    requires
        only_writes(ops),
        v.pending.len() <= v.buffer_size,
    ensures
        run_ops(v, ops).0.pending == last_n(v.pending + written(ops), v.buffer_size),
        run_ops(v, ops).0.buffer_size == v.buffer_size,
        (v.status & STATUS_OVERRUN != 0 || (v.pending + written(ops)).len() > v.buffer_size)
            ==> run_ops(v, ops).0.status & STATUS_OVERRUN != 0,
    decreases ops.len(),
{
    if ops.len() == 0 {
        assert(v.pending + written(ops) =~= v.pending);
    } else {
        let rest = ops.drop_first();
        assert(ops[0] is Write);
        let b = ops[0]->Write_0;
        let v1 = after_write(v, b);
        assert(only_writes(rest)) by {
            assert forall|i: int| 0 <= i < rest.len() implies (#[trigger] rest[i]) is Write by {
                assert(rest[i] == ops[i + 1]);
            }
        }
        assert(v1.pending == last_n(v.pending + b, v.buffer_size));
        lemma_writes_keep_newest(v1, rest);
        lemma_last_n_append(v.pending + b, written(rest), v.buffer_size);
        assert(v.pending + written(ops) =~= (v.pending + b) + written(rest));
        let st = v.status;
        assert(st & 1u32 != 0 ==> (st | 1u32) & 1u32 != 0) by (bit_vector);
        assert((st | 1u32) & 1u32 != 0) by (bit_vector);
    }
}

/// Overrun: writing `buffer_size + k` bytes (k > 0), in any number of writes
/// with no read between them, sets the overrun bit, and a read of
/// `buffer_size` bytes after that returns exactly the last `buffer_size`
/// bytes written.
pub proof fn lemma_overrun(v: StreamView, ops: Seq<StreamOp>, k: nat)
    requires
        v.pending.len() <= v.buffer_size,
        only_writes(ops),
        k > 0,
        written(ops).len() == v.buffer_size + k,
    ensures
        run_ops(v, ops).0.status & STATUS_OVERRUN != 0,
        read_bytes(run_ops(v, ops).0, v.buffer_size) == written(ops).subrange(
            k as int,
            written(ops).len() as int,
        ),
{
    lemma_writes_keep_newest(v, ops);
    let w = written(ops);
    let f = run_ops(v, ops).0;
    assert(f.pending =~= w.subrange(k as int, w.len() as int));
    assert(f.pending.take(v.buffer_size as int) =~= f.pending);
}

/// Underrun: asking for `m` bytes when only `n < m` are unread sets the
/// underrun bit and returns exactly those `n` bytes.
pub proof fn lemma_underrun(v: StreamView, m: nat)
    requires
        v.pending.len() < m,
    ensures
        after_read(v, m).status & STATUS_UNDERRUN != 0,
        read_bytes(v, m) == v.pending,
        read_bytes(v, m).len() == v.pending.len(),
{
    let s = v.status;
    assert((s | 2u32) & 2u32 != 0) by (bit_vector);
    assert(v.pending.take(v.pending.len() as int) =~= v.pending);
}

} // verus!
