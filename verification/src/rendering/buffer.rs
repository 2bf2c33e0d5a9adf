//! GPU-resident buffers, modelled as the byte image the driver is handed,
//! together with the usage the buffer is created for.  Index data is laid
//! out little-endian, as GPU buffer memory is defined to be.

use vstd::prelude::*;

verus! {

/// The usage flags a buffer is created with.  A buffer bound as an update
/// target per frame must carry `copy_dst` in addition to `uniform`.
#[derive(Clone, Copy, PartialEq, Eq, Debug)]
pub struct BufferUsages {
    pub vertex: bool,
    pub index: bool,
    pub uniform: bool,
    pub copy_dst: bool,
}

/// Usage of a static vertex buffer.
pub open spec fn spec_vertex_usage() -> BufferUsages {
    BufferUsages { vertex: true, index: false, uniform: false, copy_dst: false }
}

/// Usage of a static index buffer.
pub open spec fn spec_index_usage() -> BufferUsages {
    BufferUsages { vertex: false, index: true, uniform: false, copy_dst: false }
}

/// Usage of a uniform buffer that is overwritten in place every frame:
/// it binds as a uniform and is an update target.
pub open spec fn spec_uniform_updatable_usage() -> BufferUsages {
    BufferUsages { vertex: false, index: false, uniform: true, copy_dst: true }
}

impl BufferUsages {
    /// Whether the buffer may be overwritten in place after creation.
    pub open spec fn is_update_target(self) -> bool {
        self.copy_dst
    }

    pub fn vertex() -> (r: BufferUsages)
        ensures
            r == spec_vertex_usage(),
    {
        BufferUsages { vertex: true, index: false, uniform: false, copy_dst: false }
    }

    pub fn index() -> (r: BufferUsages)
        ensures
            r == spec_index_usage(),
    {
        BufferUsages { vertex: false, index: true, uniform: false, copy_dst: false }
    }

    pub fn uniform_updatable() -> (r: BufferUsages)
        ensures
            r == spec_uniform_updatable_usage(),
            r.is_update_target(),
    {
        BufferUsages { vertex: false, index: false, uniform: true, copy_dst: true }
    }
}

/// A GPU-resident byte array: the bytes it was built from and the usage it
/// was declared with.  The driver-side allocation is made from exactly
/// this image.
#[derive(PartialEq, Eq, Debug)]
pub struct Buffer {
    pub contents: Vec<u8>,
    pub usage: BufferUsages,
    pub label: Option<&'static str>,
}

/// Builds buffers from already-encoded byte images.
pub struct BufferBuilder {}

impl BufferBuilder {
    /// The buffer holds exactly the bytes it was built from, under the
    /// declared usage.  The caller must pick the usage the buffer will
    /// later be bound with.
    pub fn new(contents: Vec<u8>, usage: BufferUsages, label: Option<&'static str>) -> (r: Buffer)
        ensures
            r.contents@ == contents@,
            r.usage == usage,
            r.label == label,
    {
        Buffer { contents, usage, label }
    }
}

/// The two little-endian bytes of a 16-bit value.
pub open spec fn u16_le_bytes(x: u16) -> Seq<u8> {
    seq![(x & 0xff) as u8, ((x >> 8) & 0xff) as u8]
}

/// The four little-endian bytes of a 32-bit value.
pub open spec fn u32_le_bytes(x: u32) -> Seq<u8> {
    seq![
        (x & 0xff) as u8,
        ((x >> 8) & 0xff) as u8,
        ((x >> 16) & 0xff) as u8,
        ((x >> 24) & 0xff) as u8,
    ]
}

/// The byte image of a 16-bit index list: each index in turn, little-endian.
pub open spec fn index_bytes(s: Seq<u16>) -> Seq<u8>
    decreases s.len(),
{
    if s.len() == 0 {
        Seq::empty()
    } else {
        index_bytes(s.drop_last()) + u16_le_bytes(s.last())
    }
}

/// Appends the two little-endian bytes of `x`.
pub fn push_u16_le(out: &mut Vec<u8>, x: u16)
    ensures
        final(out)@ == old(out)@ + u16_le_bytes(x),
{
    out.push((x & 0xff) as u8);
    out.push(((x >> 8) & 0xff) as u8);
    proof {
        assert(old(out)@ + u16_le_bytes(x) =~= old(out)@.push((x & 0xff) as u8).push(
            ((x >> 8) & 0xff) as u8,
        ));
    }
}

/// Appends the four little-endian bytes of `x`.
pub fn push_u32_le(out: &mut Vec<u8>, x: u32)
    ensures
        final(out)@ == old(out)@ + u32_le_bytes(x),
{
    out.push((x & 0xff) as u8);
    out.push(((x >> 8) & 0xff) as u8);
    out.push(((x >> 16) & 0xff) as u8);
    out.push(((x >> 24) & 0xff) as u8);
    proof {
        assert(old(out)@ + u32_le_bytes(x) =~= old(out)@.push((x & 0xff) as u8).push(
            ((x >> 8) & 0xff) as u8,
        ).push(((x >> 16) & 0xff) as u8).push(((x >> 24) & 0xff) as u8));
    }
}

/// Encodes a 16-bit index list into the byte image its GPU buffer holds.
pub fn encode_indices(indices: &Vec<u16>) -> (r: Vec<u8>)
    ensures
        r@ == index_bytes(indices@),
{
    let mut out: Vec<u8> = Vec::new();
    let mut i: usize = 0;
    while i < indices.len()
        invariant
            i <= indices.len(),
            out@ == index_bytes(indices@.take(i as int)),
        decreases indices.len() - i,
    {
        push_u16_le(&mut out, indices[i]);
        proof {
            let t = indices@.take(i as int + 1);
            assert(t.drop_last() =~= indices@.take(i as int));
            assert(t.last() == indices@[i as int]);
        }
        i = i + 1;
    }
    proof {
        assert(indices@.take(indices@.len() as int) =~= indices@);
    }
    out
}

} // verus!
