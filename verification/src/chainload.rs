//! The serial chainloader's length-prefixed transfer encoding.
//!
//! The loader side announces itself, the host replies, then the host sends
//! the kernel image's size as four little-endian bytes, streams the image,
//! and both sides exchange two-byte acknowledgements. The byte-level
//! encoding and the transfer bookkeeping live here; the serial port itself
//! is driven by the surrounding binaries.

use vstd::prelude::*;

verus! {

/// The size of one streaming batch of image bytes.
pub const TRANSFER_BATCH_SIZE: u32 = 512;

/// The four little-endian bytes of `size`, as sent ahead of the image.
pub fn encode_transfer_size(size: u32) -> (b: [u8; 4])
    ensures
        b[0] == size & 0xff,
        b[1] == (size >> 8) & 0xff,
        b[2] == (size >> 16) & 0xff,
        b[3] == (size >> 24) & 0xff,
{
    proof {
        assert(size & 0xff < 256 && (size >> 8) & 0xff < 256 && (size >> 16) & 0xff < 256 && (size
            >> 24) & 0xff < 256) by (bit_vector);
    }
    [
        (size & 0xff) as u8,
        ((size >> 8u32) & 0xff) as u8,
        ((size >> 16u32) & 0xff) as u8,
        ((size >> 24u32) & 0xff) as u8,
    ]
}

/// The size a four-byte little-endian prefix decodes to.
pub fn decode_transfer_size(b: [u8; 4]) -> (size: u32)
    ensures
        size == (b[0] as u32) | ((b[1] as u32) << 8) | ((b[2] as u32) << 16) | ((b[3] as u32)
            << 24),
{
    (b[0] as u32) | ((b[1] as u32) << 8u32) | ((b[2] as u32) << 16u32) | ((b[3] as u32) << 24u32)
}

/// Encoding then decoding a transfer size gives it back exactly.
pub proof fn lemma_transfer_size_round_trip(size: u32)
    ensures
        ({
            let b0 = size & 0xff;
            let b1 = (size >> 8) & 0xff;
            let b2 = (size >> 16) & 0xff;
            let b3 = (size >> 24) & 0xff;
            b0 | (b1 << 8) | (b2 << 16) | (b3 << 24) == size
        }),
{
    assert((size & 0xff) | (((size >> 8) & 0xff) << 8) | (((size >> 16) & 0xff) << 16) | (((size
        >> 24) & 0xff) << 24) == size) by (bit_vector);
}

/// How many batches of [`TRANSFER_BATCH_SIZE`] bytes the host pushes for an
/// image of `size` bytes, as the progress display counts them.
pub fn batch_count(size: u32) -> (n: u32)
    ensures
        n == size / 512 + 1,
{
    size / TRANSFER_BATCH_SIZE + 1
}

/// A two-byte acknowledgement from the peer.
#[derive(Clone, Copy, Debug, PartialEq, Eq, Structural)]
pub enum AckStatus {
    /// The peer acknowledged ("OK").
    Acknowledged,
    /// The peer refused ("KO"): the transfer is aborted.
    Refused,
    /// Anything else: keep reading.
    Pending,
}

/// Classifies a two-byte reply: `b"OK"` acknowledges, `b"KO"` refuses,
/// anything else means the answer has not arrived yet.
pub fn classify_ack(reply: [u8; 2]) -> (r: AckStatus)
    ensures
        (reply[0] == 0x4f && reply[1] == 0x4b) ==> r == AckStatus::Acknowledged,
        (reply[0] == 0x4b && reply[1] == 0x4f) ==> r == AckStatus::Refused,
        (!(reply[0] == 0x4f && reply[1] == 0x4b) && !(reply[0] == 0x4b && reply[1] == 0x4f)) ==> r
            == AckStatus::Pending,
{
    if reply[0] == 0x4f && reply[1] == 0x4b {
        AckStatus::Acknowledged
    } else if reply[0] == 0x4b && reply[1] == 0x4f {
        AckStatus::Refused
    } else {
        AckStatus::Pending
    }
}

/// Byte bookkeeping of one image transfer: how much of the image has been
/// read from the file and how much of what was read has been written to
/// the wire. Writing never overtakes reading, and reading never overtakes
/// the announced size.
#[derive(Clone, Copy, Debug, PartialEq, Eq, Structural)]
pub struct TransferProgress {
    /// The announced image size in bytes.
    pub total: u32,
    /// Bytes read from the image so far.
    pub bytes_read: u32,
    /// Bytes written to the wire so far.
    pub bytes_sent: u32,
}

impl TransferProgress {
    /// Sent never exceeds read, read never exceeds the announced total.
    pub open spec fn wf(&self) -> bool {
        self.bytes_sent <= self.bytes_read <= self.total
    }

    /// A fresh transfer of `total` bytes.
    pub fn new(total: u32) -> (p: TransferProgress)
        ensures
            p.wf(),
            p.total == total,
            p.bytes_read == 0,
            p.bytes_sent == 0,
    {
        TransferProgress { total, bytes_read: 0, bytes_sent: 0 }
    }

    /// Records `n` more bytes read from the image.
    pub fn record_read(&mut self, n: u32)
        requires
            old(self).wf(),
            old(self).bytes_read + n <= old(self).total,
        ensures
            final(self).wf(),
            final(self).total == old(self).total,
            final(self).bytes_sent == old(self).bytes_sent,
            final(self).bytes_read == old(self).bytes_read + n,
    {
        self.bytes_read = self.bytes_read + n;
    }

    /// Records `n` more bytes written to the wire.
    pub fn record_sent(&mut self, n: u32)
        requires
            old(self).wf(),
            old(self).bytes_sent + n <= old(self).bytes_read,
        ensures
            final(self).wf(),
            final(self).total == old(self).total,
            final(self).bytes_read == old(self).bytes_read,
            final(self).bytes_sent == old(self).bytes_sent + n,
    {
        self.bytes_sent = self.bytes_sent + n;
    }

    /// Whether everything written has caught up with everything read: the
    /// invariant checked after each batch.
    pub fn is_balanced(&self) -> (r: bool)
        ensures
            r == (self.bytes_sent == self.bytes_read),
    {
        self.bytes_sent == self.bytes_read
    }

    /// Whether the whole image has been sent.
    pub fn is_complete(&self) -> (r: bool)
        ensures
            r == (self.bytes_sent == self.total),
    {
        self.bytes_sent == self.total
    }
}

} // verus!
