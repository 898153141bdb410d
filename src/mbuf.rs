//! Packet buffers: one packet's storage and its data region, with bounded
//! byte views and checked growth at either end.
use vstd::prelude::*;
use vstd::string::*;
use crate::error::Error;
use crate::mempool::{after_alloc, after_release, Mempool, PoolView};

verus! {

/// Bytes kept free in front of the data of a freshly allocated buffer.
pub const PKTMBUF_HEADROOM: u16 = 128;

/// The abstract state of a packet buffer.
pub struct MbufView {
    /// The buffer's whole storage.
    pub room: Seq<u8>,
    /// Where the data region starts in the storage.
    pub data_off: nat,
    /// Length of the data region.
    pub data_len: nat,
    /// Length of the whole packet, over every segment of its chain.
    pub pkt_len: nat,
    /// Name of the pool the buffer was taken from.
    pub pool: Seq<char>,
}

impl MbufView {
    /// The data region lies within the storage, the storage is addressable
    /// with 16 bits, and the packet length counts this segment's data and
    /// fits 32 bits even when the segment's data fills its whole storage.
    pub open spec fn wf(self) -> bool {
        &&& self.data_off + self.data_len <= self.room.len()
        &&& self.room.len() <= u16::MAX
        &&& self.data_len <= self.pkt_len
        &&& self.pkt_len - self.data_len + self.room.len() <= u32::MAX
    }

    /// The bytes of the data region.
    pub open spec fn data(self) -> Seq<u8> {
        self.room.subrange(self.data_off as int, (self.data_off + self.data_len) as int)
    }

    /// The storage with its bytes from `start` up to `end` replaced by
    /// `bytes`.
    pub open spec fn overwrite(self, start: int, end: int, bytes: Seq<u8>) -> MbufView {
        MbufView {
            room: self.room.subrange(0, start) + bytes + self.room.subrange(
                end,
                self.room.len() as int,
            ),
            ..self
        }
    }

    /// End of the data region in the storage.
    pub open spec fn data_end(self) -> int {
        (self.data_off + self.data_len) as int
    }

    /// The buffer with its data region grown by `len` bytes at the tail.
    pub open spec fn grown_at_tail(self, len: nat) -> MbufView {
        MbufView { data_len: self.data_len + len, pkt_len: self.pkt_len + len, ..self }
    }

    /// The buffer with its data region grown by `len <= data_off` bytes at
    /// the head.
    pub open spec fn grown_at_head(self, len: nat) -> MbufView {
        MbufView {
            data_off: (self.data_off - len) as nat,
            data_len: self.data_len + len,
            pkt_len: self.pkt_len + len,
            ..self
        }
    }

    /// Free bytes before the data region.
    pub open spec fn headroom(self) -> nat {
        self.data_off
    }

    /// Free bytes after the data region.
    pub open spec fn tailroom(self) -> int {
        self.room.len() - (self.data_off + self.data_len)
    }
}

/// A fresh buffer from `pool`: it names the pool, its storage is one
/// element, and it starts with headroom of `PKTMBUF_HEADROOM` bytes (or the whole element
/// if it is smaller) and no data.
pub open spec fn fresh_view(v: MbufView, pool: PoolView) -> bool {
    &&& v.pool == pool.name
    &&& v.room.len() == pool.elt_size
    &&& v.data_off == if pool.elt_size < PKTMBUF_HEADROOM { pool.elt_size } else {
        PKTMBUF_HEADROOM as nat
    }
    &&& v.data_len == 0
    &&& v.pkt_len == 0
}

/// The `len` bytes of `s` from `start` on, for writing.
fn middle_mut(s: &mut [u8], start: usize, len: usize) -> (r: &mut [u8])
    requires
        start + len <= old(s)@.len(),
    ensures
        r@ == old(s)@.subrange(start as int, start + len),
        final(s)@ == old(s)@.subrange(0, start as int) + final(r)@ + old(s)@.subrange(
            start + len,
            old(s)@.len() as int,
        ),
{
    let (head, rest) = s.split_at_mut(start);
    let (mid, tail) = rest.split_at_mut(len);
    mid
}

/// A buffer's storage and its metadata, as the runtime keeps it.
#[derive(Clone, Debug)]
pub struct RawMbuf {
    room: Vec<u8>,
    data_off: u16,
    data_len: u16,
    pkt_len: u32,
    pool: String,
}

impl View for RawMbuf {
    type V = MbufView;

    closed spec fn view(&self) -> MbufView {
        MbufView {
            room: self.room@,
            data_off: self.data_off as nat,
            data_len: self.data_len as nat,
            pkt_len: self.pkt_len as nat,
            pool: self.pool@,
        }
    }
}

/// Who releases a buffer.
#[derive(Clone, Copy, Debug, PartialEq, Eq, Structural)]
pub enum Origin {
    /// The handle took the buffer from a pool and gives it back on release.
    Owned,
    /// The buffer belongs to someone else; releasing the handle does nothing.
    Borrowed,
}

/// A handle on one packet buffer. A handle is released by `free`, which
/// consumes it: an owned buffer can go back to its pool only once.
#[derive(Debug)]
pub struct Mbuf {
    raw: Box<RawMbuf>,
    origin: Origin,
}

impl View for Mbuf {
    type V = MbufView;

    closed spec fn view(&self) -> MbufView {
        self.raw@
    }
}

impl Mbuf {
    /// Who releases this buffer.
    pub closed spec fn origin(&self) -> Origin {
        self.origin
    }

    /// Take a buffer from `mempool`. Fails with `Mbuf` when the pool has no
    /// element available, and then leaves the pool as it was.
    pub fn allocate(mempool: &mut Mempool) -> (r: Result<Mbuf, Error>)
        requires
            old(mempool).wf(),
        ensures
            final(mempool).wf(),
            r is Ok <==> old(mempool)@.avail > 0,
            r matches Ok(m) ==> {
                &&& final(mempool)@ == after_alloc(old(mempool)@)
                &&& m.origin() == Origin::Owned
                &&& m@.wf()
                &&& fresh_view(m@, old(mempool)@)
            },
            r matches Err(e) ==> e is Mbuf && final(mempool)@ == old(mempool)@,
    {
        if !mempool.take() {
            return Err(Error::Mbuf(String::from_str("Failed to allocate mbuf")));
        }
        let elt_size = mempool.elt_size();
        let data_off: u16 = if elt_size < PKTMBUF_HEADROOM as u32 {
            elt_size as u16
        } else {
            PKTMBUF_HEADROOM
        };
        let raw = RawMbuf {
            room: vec![0u8; elt_size as usize],
            data_off,
            data_len: 0,
            pkt_len: 0,
            pool: String::from_str(mempool.name()),
        };
        Ok(Mbuf { raw: Box::new(raw), origin: Origin::Owned })
    }

    /// Wrap a buffer that belongs to someone else; releasing the handle
    /// leaves the buffer to its owner. The caller vouches that the buffer is
    /// well formed.
    pub fn from_raw(raw: RawMbuf) -> (r: Mbuf)
        requires
            raw@.wf(),
        ensures
            r@ == raw@,
            r.origin() == Origin::Borrowed,
    {
        Mbuf { raw: Box::new(raw), origin: Origin::Borrowed }
    }

    /// The buffer structure this handle refers to.
    pub fn as_ptr(&self) -> (r: &RawMbuf)
        ensures
            r@ == self@,
    {
        &self.raw
    }

    /// Length of the data region.
    pub fn data_len(&self) -> (r: u16)
        ensures
            r == self@.data_len,
    {
        self.raw.data_len
    }

    /// Length of the whole packet.
    pub fn pkt_len(&self) -> (r: u32)
        ensures
            r == self@.pkt_len,
    {
        self.raw.pkt_len
    }

    /// The bytes of the data region.
    pub fn data(&self) -> (r: &[u8])
        requires
            self@.wf(),
        ensures
            r@ == self@.data(),
    {
        let off = self.raw.data_off as usize;
        let len = self.raw.data_len as usize;
        let room = self.raw.room.as_slice();
        let (_, rest) = room.split_at(off);
        let (d, _) = rest.split_at(len);
        d
    }

    /// The bytes of the data region, for writing. Only those bytes can
    /// change; the region's place and every length stay as they are.
    pub fn data_mut(&mut self) -> (r: &mut [u8])
        requires
            old(self)@.wf(),
        ensures
            r@ == old(self)@.data(),
            final(self)@ == old(self)@.overwrite(
                old(self)@.data_off as int,
                old(self)@.data_end(),
                final(r)@,
            ),
            final(r)@.len() == r@.len() ==> final(self)@.wf(),
            final(self).origin() == old(self).origin(),
    {
        let off = self.raw.data_off as usize;
        let len = self.raw.data_len as usize;
        middle_mut(self.raw.room.as_mut_slice(), off, len)
    }

    /// Grow the data region by `len` bytes at the tail and give the new
    /// bytes for writing. Fails with `Mbuf`, changing nothing, when fewer
    /// than `len` bytes are free after the data.
    pub fn append(&mut self, len: u16) -> (r: Result<&mut [u8], Error>)
        requires
            old(self)@.wf(),
        ensures
            r is Ok <==> len <= old(self)@.tailroom(),
            final(self).origin() == old(self).origin(),
            match r {
                Ok(s) => {
                    &&& s@.len() == len
                    &&& s@ == old(self)@.room.subrange(
                        old(self)@.data_end(),
                        old(self)@.data_end() + len,
                    )
                    &&& final(self)@.data_len == old(self)@.data_len + len
                    &&& final(self)@ == old(self)@.grown_at_tail(len as nat).overwrite(
                        old(self)@.data_end(),
                        old(self)@.data_end() + len,
                        final(s)@,
                    )
                    &&& final(s)@.len() == s@.len() ==> final(self)@.wf()
                },
                Err(e) => e is Mbuf && final(self)@ == old(self)@,
            },
    {
        let off = self.raw.data_off;
        let dl = self.raw.data_len;
        let tailroom = self.raw.room.len() - off as usize - dl as usize;
        if len as usize > tailroom {
            return Err(Error::Mbuf(String::from_str("Failed to append data to mbuf")));
        }
        let start = off as usize + dl as usize;
        self.raw.data_len = dl + len;
        self.raw.pkt_len = self.raw.pkt_len + len as u32;
        Ok(middle_mut(self.raw.room.as_mut_slice(), start, len as usize))
    }

    /// Grow the data region by `len` bytes at the head and give the new
    /// bytes for writing. Fails with `Mbuf`, changing nothing, when fewer
    /// than `len` bytes are free before the data.
    pub fn prepend(&mut self, len: u16) -> (r: Result<&mut [u8], Error>)
        requires
            old(self)@.wf(),
        ensures
            r is Ok <==> len <= old(self)@.headroom(),
            final(self).origin() == old(self).origin(),
            match r {
                Ok(s) => {
                    &&& s@.len() == len
                    &&& s@ == old(self)@.room.subrange(
                        old(self)@.data_off - len,
                        old(self)@.data_off as int,
                    )
                    &&& final(self)@.data_len == old(self)@.data_len + len
                    &&& final(self)@ == old(self)@.grown_at_head(len as nat).overwrite(
                        old(self)@.data_off - len,
                        old(self)@.data_off as int,
                        final(s)@,
                    )
                    &&& final(s)@.len() == s@.len() ==> final(self)@.wf()
                },
                Err(e) => e is Mbuf && final(self)@ == old(self)@,
            },
    {
        let off = self.raw.data_off;
        if len > off {
            return Err(Error::Mbuf(String::from_str("Failed to prepend data to mbuf")));
        }
        let start = off - len;
        self.raw.data_off = start;
        self.raw.data_len = self.raw.data_len + len;
        self.raw.pkt_len = self.raw.pkt_len + len as u32;
        Ok(middle_mut(self.raw.room.as_mut_slice(), start as usize, len as usize))
    }

    /// Release the handle. An owned buffer goes back to `mempool`, which
    /// must be the pool it was taken from; a borrowed one is left to its
    /// owner and the pool is not touched.
    pub fn free(self, mempool: &mut Mempool)
        requires
            old(mempool).wf(),
            self.origin() == Origin::Owned ==> {
                &&& self@.pool == old(mempool)@.name
                &&& old(mempool)@.avail < old(mempool)@.capacity
            },
        ensures
            final(mempool).wf(),
            final(mempool)@ == match self.origin() {
                Origin::Owned => after_release(old(mempool)@),
                Origin::Borrowed => old(mempool)@,
            },
    {
        match self.origin {
            Origin::Owned => mempool.give_back(),
            Origin::Borrowed => {},
        }
    }
}

} // verus!
