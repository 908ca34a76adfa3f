use vstd::prelude::*;

verus! {

/// `n` bytes of zero.
pub open spec fn zeros(n: nat) -> Seq<u8> {
    Seq::new(n, |i: int| 0u8)
}

/// `buffer` cut or filled up with zeros to `size` bytes.
pub open spec fn resized(buffer: Seq<u8>, size: nat) -> Seq<u8> {
    if size <= buffer.len() {
        buffer.take(size as int)
    } else {
        buffer + zeros((size - buffer.len()) as nat)
    }
}

/// A buffer of the pool made ready for use with `size` bytes: one of that size
/// is cleared, one of another size is cut or filled up.
pub open spec fn readied(buffer: Seq<u8>, size: nat) -> Seq<u8> {
    if buffer.len() == size {
        zeros(size)
    } else {
        resized(buffer, size)
    }
}

/// The views of the buffers in `v`, in order.
pub open spec fn buffer_views(v: Seq<Vec<u8>>) -> Seq<Seq<u8>> {
    Seq::new(v.len(), |i: int| v[i]@)
}

/// The buffers that wait to be used again, the last returned on top.
pub struct BufferPool {
    buffers: Vec<Vec<u8>>,
}

impl View for BufferPool {
    type V = Seq<Seq<u8>>;

    closed spec fn view(&self) -> Seq<Seq<u8>> {
        buffer_views(self.buffers@)
    }
}

impl BufferPool {
    /// A pool without buffers.
    pub fn new() -> (pool: BufferPool)
        ensures
            pool@ == Seq::<Seq<u8>>::empty(),
    {
        let pool = BufferPool { buffers: Vec::new() };
        proof {
            assert(pool@ =~= Seq::<Seq<u8>>::empty());
        }
        pool
    }

    /// The number of buffers that wait.
    pub fn len(&self) -> (n: usize)
        ensures
            n == self@.len(),
    {
        self.buffers.len()
    }
}

/// A buffer in use. It is taken from a pool where the pool has one, and goes back
/// to the pool when it is released, unless the pool is full.
pub struct PooledBuffer {
    buffer: Vec<u8>,
    buffer_size: usize,
    max_pool_size: usize,
}

fn zero_buffer(size: usize) -> (buffer: Vec<u8>)
    ensures
        buffer@ == zeros(size as nat),
{
    let mut buffer: Vec<u8> = Vec::new();
    buffer.resize(size, 0);
    proof {
        assert(buffer@ =~= zeros(size as nat));
    }
    buffer
}

impl PooledBuffer {
    /// The bytes of the buffer.
    pub closed spec fn bytes(&self) -> Seq<u8> {
        self.buffer@
    }

    /// The size with which the buffer is handed out and returned.
    pub closed spec fn size(&self) -> nat {
        self.buffer_size as nat
    }

    /// The most buffers that the pool may hold when this one is returned.
    pub closed spec fn cap(&self) -> nat {
        self.max_pool_size as nat
    }

    /// A buffer of `buffer_size` bytes: the top one of the pool, made ready, or a
    /// new one where the pool is empty.
    pub fn new(pool: &mut BufferPool, buffer_size: usize, max_pool_size: usize) -> (b:
        PooledBuffer)
        ensures
            b.size() == buffer_size,
            b.cap() == max_pool_size,
            b.bytes().len() == buffer_size,
            old(pool)@.len() > 0 ==> final(pool)@ == old(pool)@.drop_last() && b.bytes()
                == readied(old(pool)@.last(), buffer_size as nat),
            old(pool)@.len() == 0 ==> final(pool)@ == old(pool)@ && b.bytes() == zeros(
                buffer_size as nat,
            ),
    {
        let ghost before = pool.buffers@;
        let buffer = match pool.buffers.pop() {
            Some(mut buffer) => {
                proof {
                    assert(pool@ =~= buffer_views(before).drop_last());
                    assert(buffer@ == buffer_views(before).last());
                }
                let ghost held = buffer@;
                if buffer.len() != buffer_size {
                    buffer.resize(buffer_size, 0);
                    proof {
                        assert(buffer@ =~= resized(held, buffer_size as nat));
                    }
                } else {
                    buffer.clear();
                    buffer.resize(buffer_size, 0);
                    proof {
                        assert(buffer@ =~= zeros(buffer_size as nat));
                    }
                }
                buffer
            },
            None => zero_buffer(buffer_size),
        };
        PooledBuffer { buffer, buffer_size, max_pool_size }
    }

    /// A new buffer of `buffer_size` bytes, for when the pool is busy: the pool is
    /// not waited for.
    pub fn unpooled(buffer_size: usize, max_pool_size: usize) -> (b: PooledBuffer)
        ensures
            b.size() == buffer_size,
            b.cap() == max_pool_size,
            b.bytes() == zeros(buffer_size as nat),
    {
        PooledBuffer { buffer: zero_buffer(buffer_size), buffer_size, max_pool_size }
    }

    /// The bytes of the buffer, to read into.
    pub fn as_mut(&mut self) -> (bytes: &mut Vec<u8>)
        ensures
            bytes@ == old(self).bytes(),
            final(self).bytes() == final(bytes)@,
            final(self).size() == old(self).size(),
            final(self).cap() == old(self).cap(),
    {
        &mut self.buffer
    }

    /// The bytes of the buffer, to read from.
    pub fn as_slice(&self) -> (bytes: &[u8])
        ensures
            bytes@ == self.bytes(),
    {
        self.buffer.as_slice()
    }

    /// Returns the buffer to the pool, cleared, unless the pool is full: a pool
    /// with `max_pool_size` buffers or more stays as it is.
    pub fn release(self, pool: &mut BufferPool)
        ensures
            old(pool)@.len() < self.cap() ==> final(pool)@ == old(pool)@.push(zeros(self.size())),
            old(pool)@.len() >= self.cap() ==> final(pool)@ == old(pool)@,
            old(pool)@.len() <= self.cap() ==> final(pool)@.len() <= self.cap(),
    {
        if pool.buffers.len() < self.max_pool_size {
            let ghost before = pool@;
            let mut buffer = self.buffer;
            buffer.clear();
            buffer.resize(self.buffer_size, 0);
            proof {
                assert(buffer@ =~= zeros(self.buffer_size as nat));
            }
            pool.buffers.push(buffer);
            proof {
                assert(pool@ =~= before.push(zeros(self.buffer_size as nat)));
            }
        }
    }
}

} // verus!
