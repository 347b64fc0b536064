//! Read buffers: how large they are, how they are made, and how the bytes
//! that one read filled are taken out of them.

use bytes::BytesMut;
use vstd::prelude::*;
use vstd::slice::{slice_subrange, slice_to_vec};

verus! {

/// Room that a packet buffer has beyond the interface's MTU.
pub const PACKET_OVERHEAD: usize = 100;

/// Length of the buffer that the server reads client-opened streams into.
pub const DRAIN_BUFFER_LEN: usize = 16384;

/// Length of the buffer that each direction of a bridge reads into.
pub const BRIDGE_BUFFER_LEN: usize = 8192;

/// `bytes::BytesMut`, the buffer that the interface is read into. Nothing of
/// its inside is known here but what [`buffer_bytes`] names.
#[verifier::external_type_specification]
#[verifier::external_body]
pub struct ExBytesMut(BytesMut);

/// The bytes that a `BytesMut` holds, first to last.
pub uninterp spec fn buffer_bytes(buf: BytesMut) -> Seq<u8>;

/// `len` zero bytes.
pub open spec fn zeros(len: nat) -> Seq<u8> {
    Seq::new(len, |i: int| 0u8)
}

/// `BytesMut::with_capacity`: a buffer that holds no bytes yet. The capacity
/// is kept within what one allocation may ask for, above which it panics.
#[verifier::external_body]
fn bytes_with_capacity(capacity: usize) -> (buf: BytesMut)
    requires
        capacity <= isize::MAX,
    ensures
        buffer_bytes(buf) == Seq::<u8>::empty(),
{
    BytesMut::with_capacity(capacity)
}

/// `BytesMut::resize`: a longer length appends copies of `value`, a shorter
/// one cuts the end off. Growing past what one allocation may ask for panics.
#[verifier::external_body]
fn bytes_resize(buf: &mut BytesMut, new_len: usize, value: u8)
    requires
        new_len <= isize::MAX,
    ensures
        buffer_bytes(*final(buf)) == if new_len <= buffer_bytes(*old(buf)).len() {
            buffer_bytes(*old(buf)).subrange(0, new_len as int)
        } else {
            buffer_bytes(*old(buf)) + Seq::new(
                (new_len - buffer_bytes(*old(buf)).len()) as nat,
                |i: int| value,
            )
        },
{
    buf.resize(new_len, value)
}

/// `BytesMut::as_ref`: the held bytes as a slice.
#[verifier::external_body]
fn bytes_as_slice(buf: &BytesMut) -> (slice: &[u8])
    ensures
        slice@ == buffer_bytes(*buf),
{
    buf.as_ref()
}

/// Length of the buffers that hold one packet of an interface with this
/// MTU: the MTU and the overhead. There is none for a negative MTU, nor where
/// one allocation cannot hold that many bytes.
pub open spec fn buffer_len_for(mtu: i32) -> Option<usize> {
    if 0 <= mtu && mtu + PACKET_OVERHEAD <= isize::MAX {
        Some((mtu + PACKET_OVERHEAD) as usize)
    } else {
        None
    }
}

/// Length of the buffers that hold one packet of an interface with this MTU.
pub fn packet_buffer_len(mtu: i32) -> (r: Option<usize>)
    ensures
        r == buffer_len_for(mtu),
{
    if mtu < 0 {
        return None;
    }
    let base: usize = mtu as usize;
    if base > (isize::MAX as usize) - PACKET_OVERHEAD {
        return None;
    }
    Some(base + PACKET_OVERHEAD)
}

/// The reusable buffer that one read of the interface fills: MTU and
/// overhead, all zero bytes. `None` where there is no length for this MTU.
pub fn packet_buffer(mtu: i32) -> (r: Option<BytesMut>)
    ensures
        match buffer_len_for(mtu) {
            Some(len) => r is Some && buffer_bytes(r->0) == zeros(len as nat),
            None => r is None,
        },
{
    match packet_buffer_len(mtu) {
        Some(len) => {
            let mut buf = bytes_with_capacity(len);
            bytes_resize(&mut buf, len, 0);
            assert(buffer_bytes(buf) =~= zeros(len as nat));
            Some(buf)
        },
        None => None,
    }
}

/// A zero-filled read buffer of `len` bytes, for a length that one allocation
/// can hold.
pub fn read_buffer(len: usize) -> (buf: Vec<u8>)
    requires
        len <= isize::MAX,
    ensures
        buf@ == zeros(len as nat),
{
    let buf = vec![0u8; len];
    assert(buf@ =~= zeros(len as nat));
    buf
}

/// What a read of `n` bytes left at the start of `buf`.
pub open spec fn filled_prefix(buf: Seq<u8>, n: usize) -> Option<Seq<u8>> {
    if n <= buf.len() {
        Some(buf.subrange(0, n as int))
    } else {
        None
    }
}

/// The first `n` bytes of `buf`, copied out; `None` where `buf` is shorter
/// than `n`, which no read into it reports.
pub fn filled(buf: &[u8], n: usize) -> (r: Option<Vec<u8>>)
    ensures
        match filled_prefix(buf@, n) {
            Some(bytes) => r is Some && r->0@ == bytes,
            None => r is None,
        },
{
    if n > buf.len() {
        return None;
    }
    Some(slice_to_vec(slice_subrange(buf, 0, n)))
}

/// The first `n` bytes of a packet buffer, copied out; `None` where the
/// buffer is shorter than `n`.
pub fn filled_packet(buf: &BytesMut, n: usize) -> (r: Option<Vec<u8>>)
    ensures
        match filled_prefix(buffer_bytes(*buf), n) {
            Some(bytes) => r is Some && r->0@ == bytes,
            None => r is None,
        },
{
    filled(bytes_as_slice(buf), n)
}

} // verus!
