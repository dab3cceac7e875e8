//! The handshake that finds a firmware emulator on the local host, and how
//! the emulator link reads its datagrams.

use vstd::prelude::*;

use crate::transport::error::Error;

verus! {

/// The UDP port the emulator listens on.
pub const EMULATOR_PORT: u16 = 21326;

/// The bytes of an ASCII text.
pub open spec fn ascii_bytes(text: Seq<char>) -> Seq<u8> {
    Seq::new(text.len(), |i: int| text[i] as u8)
}

/// The datagram that asks whether an emulator listens: `PINGPING`.
pub fn ping_datagram() -> (r: Vec<u8>)
    ensures
        r@ == ascii_bytes("PINGPING"@),
{
    proof {
        reveal_strlit("PINGPING");
    }
    let r: Vec<u8> = vec![0x50, 0x49, 0x4e, 0x47, 0x50, 0x49, 0x4e, 0x47];
    assert(r@ =~= ascii_bytes("PINGPING"@));
    r
}

/// Whether the first `n` bytes of a received buffer are the emulator's
/// answer, `PONGPONG`.
pub fn is_pong(buf: &[u8], n: usize) -> (r: bool)
    requires
        n <= buf@.len(),
    ensures
        r == (buf@.subrange(0, n as int) == ascii_bytes("PONGPONG"@)),
{
    proof {
        reveal_strlit("PONGPONG");
    }
    let pong: [u8; 8] = [0x50, 0x4f, 0x4e, 0x47, 0x50, 0x4f, 0x4e, 0x47];
    assert(pong@ =~= ascii_bytes("PONGPONG"@));
    if n != 8 {
        return false;
    }
    let mut i: usize = 0;
    while i < 8
        invariant
            i <= 8,
            n == 8,
            n <= buf@.len(),
            pong@ == ascii_bytes("PONGPONG"@),
            forall|j: int| 0 <= j < i ==> buf@[j] == pong@[j],
        decreases 8 - i,
    {
        if buf[i] != pong[i] {
            assert(buf@.subrange(0, 8)[i as int] != ascii_bytes("PONGPONG"@)[i as int]);
            return false;
        }
        i = i + 1;
    }
    assert(buf@.subrange(0, 8) =~= ascii_bytes("PONGPONG"@));
    true
}

/// The first `n` bytes of a received buffer.
pub fn received_chunk(buf: &[u8], n: usize) -> (r: Vec<u8>)
    requires
        n <= buf@.len(),
    ensures
        r@ == buf@.subrange(0, n as int),
{
    vstd::slice::slice_to_vec(vstd::slice::slice_subrange(buf, 0, n))
}

/// The error a failed read of the link reports: a read that would block
/// has timed out; any other failure is an I/O error.
pub fn read_error(would_block: bool, e: std::io::Error) -> (r: Error)
    ensures
        would_block ==> r is DeviceReadTimeout,
        !would_block ==> r == Error::Io(e),
{
    if would_block {
        Error::DeviceReadTimeout
    } else {
        Error::Io(e)
    }
}

/// What came back from an address probed for an emulator.
#[derive(Clone, Copy, Debug, PartialEq, Eq, Structural)]
pub enum ProbeReply {
    /// A datagram of this many bytes arrived.
    Received(usize),
    /// Nothing arrived before the read timed out.
    TimedOut,
}

/// Whether a probed address is an emulator: it answered, and its answer
/// (the first bytes of `buf`) is `PONGPONG`. An address that stays silent
/// or answers anything else is passed over.
pub fn probe_found_emulator(buf: &[u8], reply: ProbeReply) -> (r: bool)
    requires
        reply matches ProbeReply::Received(n) ==> n <= buf@.len(),
    ensures
        r <==> (reply matches ProbeReply::Received(n) && buf@.subrange(0, n as int) == ascii_bytes(
            "PONGPONG"@,
        )),
{
    match reply {
        ProbeReply::Received(n) => is_pong(buf, n),
        ProbeReply::TimedOut => false,
    }
}

} // verus!
