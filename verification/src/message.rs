use vstd::prelude::*;

verus! {

/// A datagram on its way from the client to the server, with the secret that the
/// server checks.
pub struct UdpReq {
    pub auth: String,
    pub payload: Vec<u8>,
}

/// A datagram on its way from the server back to the client.
pub struct UdpRes {
    pub payload: Vec<u8>,
}

/// The first `size` bytes of `buf`, copied.
pub fn copy_prefix(buf: &[u8], size: usize) -> (res: Vec<u8>)
    requires
        size <= buf@.len(),
    ensures
        res@ == buf@.subrange(0, size as int),
{
    let mut out: Vec<u8> = Vec::with_capacity(size);
    let mut i: usize = 0;
    while i < size
        invariant
            i <= size,
            size <= buf@.len(),
            out@ == buf@.subrange(0, i as int),
        decreases size - i,
    {
        out.push(buf[i]);
        i = i + 1;
        assert(out@ =~= buf@.subrange(0, i as int));
    }
    out
}

} // verus!
