//! The payload capability: a byte region with a validated, resizeable length.
//!
//! Every other component of the stack operates on [`Buffer`].  The backing
//! storage has a fixed capacity; the logical length can be moved anywhere
//! within it.  Resizing never touches the stored bytes, so a packet can be
//! reinterpreted in place without shifting its payload.

use vstd::prelude::*;

verus! {

/// An error from operating on a payload buffer.
#[derive(Clone, Copy, Debug, PartialEq, Eq, Hash, Structural)]
pub enum PayloadError {
    /// The requested length exceeds the backing capacity.
    BadSize,
}

/// A packet buffer: fixed-capacity byte storage plus a current logical
/// length.
///
/// The whole backing region is modelled by [`Buffer::mem`]; the current
/// logical length by [`Buffer::size`].  Resizing only moves the length, so
/// the bytes of [`Buffer::mem`] survive every reinterpretation of the
/// buffer.
#[derive(Debug)]
pub struct Buffer {
    data: Vec<u8>,
    len: usize,
}

impl Buffer {
    /// The logical length never exceeds the backing capacity.
    #[verifier::type_invariant]
    pub open spec fn type_inv(self) -> bool {
        self.size() <= self.mem().len()
    }

    /// The full backing region, capacity many bytes.
    pub closed spec fn mem(self) -> Seq<u8> {
        self.data@
    }

    /// The current logical length.
    pub closed spec fn size(self) -> nat {
        self.len as nat
    }

    /// The bytes currently considered part of the packet.
    pub open spec fn bytes(self) -> Seq<u8> {
        self.mem().take(self.size() as int)
    }

    /// A new buffer over the given storage, initially full length.
    pub fn new(data: Vec<u8>) -> (r: Buffer)
        ensures
            r.mem() == data@,
            r.size() == data@.len(),
    {
        let len = data.len();
        Buffer { data, len }
    }

    /// The current logical length.
    pub fn len(&self) -> (r: usize)
        ensures
            r == self.size(),
    {
        self.len
    }

    /// The fixed capacity of the backing storage.
    pub fn capacity(&self) -> (r: usize)
        ensures
            r == self.mem().len(),
    {
        proof {
            use_type_invariant(&*self);
        }
        self.data.len()
    }

    /// Move the logical length, leaving every stored byte untouched.
    ///
    /// Fails with a size error when the requested length exceeds the
    /// backing capacity; the buffer is then unchanged.
    pub fn resize(&mut self, new_len: usize) -> (r: Result<(), PayloadError>)
        ensures
            final(self).mem() == old(self).mem(),
            new_len <= old(self).mem().len() ==> r == Ok::<(), PayloadError>(())
                && final(self).size() == new_len,
            new_len > old(self).mem().len() ==> r == Err::<(), PayloadError>(PayloadError::BadSize)
                && final(self).size() == old(self).size(),
    {
        proof {
            use_type_invariant(&*self);
        }
        if new_len <= self.data.len() {
            self.len = new_len;
            Ok(())
        } else {
            Err(PayloadError::BadSize)
        }
    }

    /// Read the byte at an index within the current length.
    pub fn read_at(&self, i: usize) -> (r: u8)
        requires
            i < self.size(),
        ensures
            r == self.mem()[i as int],
    {
        proof {
            use_type_invariant(&*self);
        }
        self.data[i]
    }

    /// Write one byte at an index within the current length.
    pub fn write_at(&mut self, i: usize, v: u8)
        requires
            i < old(self).size(),
        ensures
            final(self).mem() == old(self).mem().update(i as int, v),
            final(self).size() == old(self).size(),
    {
        proof {
            use_type_invariant(&*self);
        }
        self.data[i] = v;
    }

    /// Copy a slice into the buffer starting at `off`; the region must lie
    /// within the current length.
    pub fn write_slice_at(&mut self, off: usize, src: &[u8])
        requires
            off + src@.len() <= old(self).size(),
        ensures
            final(self).size() == old(self).size(),
            final(self).mem().len() == old(self).mem().len(),
            forall|j: int|
                0 <= j < src@.len() ==> final(self).mem()[off + j] == src@[j],
            forall|j: int|
                0 <= j < old(self).mem().len() && !(off <= j < off + src@.len())
                    ==> final(self).mem()[j] == old(self).mem()[j],
    {
        proof {
            use_type_invariant(&*self);
        }
        let mut j: usize = 0;
        while j < src.len()
            invariant
                j <= src@.len(),
                off + src@.len() <= self.size(),
                self.size() == old(self).size(),
                self.size() <= self.data@.len(),
                self.mem().len() == old(self).mem().len(),
                forall|k: int| 0 <= k < j ==> self.mem()[off + k] == src@[k],
                forall|k: int|
                    0 <= k < old(self).mem().len() && !(off <= k < off + j)
                        ==> self.mem()[k] == old(self).mem()[k],
            decreases src@.len() - j,
        {
            let b = src[j];
            self.data[off + j] = b;
            j = j + 1;
        }
    }

    /// Copy a range of the stored bytes out into a fresh vector.
    pub fn slice_to_vec(&self, from: usize, to: usize) -> (r: Vec<u8>)
        requires
            from <= to <= self.size(),
        ensures
            r@ == self.mem().subrange(from as int, to as int),
    {
        proof {
            use_type_invariant(&*self);
        }
        let mut out: Vec<u8> = Vec::new();
        let mut j: usize = from;
        while j < to
            invariant
                from <= j <= to,
                to <= self.size(),
                self.size() <= self.mem().len(),
                out@ == self.mem().subrange(from as int, j as int),
            decreases to - j,
        {
            out.push(self.data[j]);
            proof {
                assert(out@ =~= self.mem().subrange(from as int, j + 1 as int));
            }
            j = j + 1;
        }
        out
    }
}

} // verus!
