//! The per-direction working buffer: accumulated bytes, read progress and
//! the direction's 32-bit wrapping sequence counter.

use vstd::prelude::*;

verus! {

/// `n + 1` wrapping modulo 2^32: how a sequence counter advances.
pub open spec fn wrap32_inc(n: u32) -> u32 {
    if n == u32::MAX {
        0
    } else {
        (n + 1) as u32
    }
}

/// Working state of one direction of a connection.
pub struct SSHBuffer {
    /// Accumulated wire bytes (write side: sealed packets; read side: the
    /// packet being assembled, then its usable plaintext).
    pub buffer: Vec<u8>,
    /// Read progress: number of body bytes (decrypted length plus tag) the
    /// current incoming packet still owes; 0 when no packet is in progress.
    pub len: usize,
    /// Total payload bytes written through this direction.
    pub bytes: usize,
    /// The direction's sequence counter, stepped once per packet, wrapping.
    pub seqn: u32,
}

impl SSHBuffer {
    /// A fresh direction state with the sequence counter at zero.
    pub fn new() -> (r: SSHBuffer)
        ensures
            r.buffer@ == Seq::<u8>::empty(),
            r.len == 0,
            r.bytes == 0,
            r.seqn == 0,
    {
        SSHBuffer { buffer: Vec::new(), len: 0, bytes: 0, seqn: 0 }
    }

    /// A fresh direction state with the sequence counter at `seqn`, for a
    /// connection resuming mid-stream.
    pub fn with_seqn(seqn: u32) -> (r: SSHBuffer)
        ensures
            r.buffer@ == Seq::<u8>::empty(),
            r.len == 0,
            r.bytes == 0,
            r.seqn == seqn,
    {
        SSHBuffer { buffer: Vec::new(), len: 0, bytes: 0, seqn }
    }
}

} // verus!
