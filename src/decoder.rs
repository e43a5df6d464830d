//! The two-phase protocol that fetches one raw-input record: a size probe,
//! then a fill of a buffer of exactly that size, then decoding.
//!
//! Each phase consumes the token of the one before: a [`RawInputEnvelope`]
//! comes only from the window procedure's handling of a raw-input message, a
//! [`SizedRequest`] only from a successful probe of that envelope, and
//! decoding only from a request whose fill was checked.
use vstd::prelude::*;
use crate::record::{decode_record, spec_decode, DecodeError, DeviceEvent, PointerWidth};

verus! {

/// Largest record size, in bytes, that a probe may announce; anything above
/// is treated as a malformed event rather than allocated.
pub const MAX_RECORD_LEN: u32 = 4096;

/// The opaque handle of one raw-input event, valid while the message that
/// carried it is being handled. It is neither `Clone` nor `Copy`, and only
/// the window procedure makes one.
#[derive(Debug)]
pub struct RawInputEnvelope {
    handle: isize,
}

/// A successful probe of one envelope: its handle and a zeroed buffer of
/// exactly the probed size, to be filled by the second query.
#[derive(Debug)]
pub struct SizedRequest {
    handle: isize,
    size: u32,
    buffer: Vec<u8>,
}

impl View for RawInputEnvelope {
    type V = isize;

    closed spec fn view(&self) -> isize {
        self.handle
    }
}

impl RawInputEnvelope {
    pub(crate) fn new(handle: isize) -> (r: RawInputEnvelope)
        ensures
            r@ == handle,
    {
        RawInputEnvelope { handle }
    }

    /// The handle to pass to the operating system's queries.
    pub fn handle(&self) -> (r: isize)
        ensures
            r == self@,
    {
        self.handle
    }
}

impl SizedRequest {
    /// Handle of the envelope that was probed.
    pub closed spec fn spec_handle(&self) -> isize {
        self.handle
    }

    /// The probed size.
    pub closed spec fn spec_size(&self) -> u32 {
        self.size
    }

    /// What the buffer holds now.
    pub closed spec fn contents(&self) -> Seq<u8> {
        self.buffer@
    }

    pub fn handle(&self) -> (r: isize)
        ensures
            r == self.spec_handle(),
    {
        self.handle
    }

    pub fn size(&self) -> (r: u32)
        ensures
            r == self.spec_size(),
    {
        self.size
    }

    /// The buffer that the fill query writes into; it keeps its length.
    pub fn buffer_mut(&mut self) -> (r: &mut [u8])
        ensures
            r@ == old(self).contents(),
            final(self).spec_handle() == old(self).spec_handle(),
            final(self).spec_size() == old(self).spec_size(),
            final(self).contents() == final(r)@,
    {
        self.buffer.as_mut_slice()
    }
}

/// Phase one: checks the probe's result for `envelope`. A non-zero status
/// is a probe failure; a size above [`MAX_RECORD_LEN`] is refused; otherwise
/// the request carries the envelope's handle and a zeroed buffer of exactly
/// `size` bytes.
pub fn probe_size(envelope: RawInputEnvelope, status: u32, size: u32) -> (r: Result<
    SizedRequest,
    DecodeError,
>)
    ensures
        status != 0 ==> r == Err::<SizedRequest, DecodeError>(DecodeError::Probe { status }),
        status == 0 && size > MAX_RECORD_LEN ==> r == Err::<SizedRequest, DecodeError>(
            DecodeError::Oversized { size },
        ),
        status == 0 && size <= MAX_RECORD_LEN ==> r is Ok,
        r matches Ok(q) ==> {
            &&& q.spec_handle() == envelope@
            &&& q.spec_size() == size
            &&& q.contents() == Seq::new(size as nat, |i: int| 0u8)
        },
{
    if status != 0 {
        return Err(DecodeError::Probe { status });
    }
    if size > MAX_RECORD_LEN {
        return Err(DecodeError::Oversized { size });
    }
    let mut buffer: Vec<u8> = Vec::new();
    while buffer.len() < size as usize
        invariant
            buffer@.len() <= size,
            forall|i: int| 0 <= i < buffer@.len() ==> buffer@[i] == 0u8,
        decreases size - buffer@.len(),
    {
        buffer.push(0u8);
    }
    assert(buffer@ =~= Seq::new(size as nat, |i: int| 0u8));
    Ok(SizedRequest { handle: envelope.handle, size, buffer })
}

/// The outcome of a fill that reported `written` bytes into a buffer
/// holding `contents`, after a probe that announced `probed` bytes.
pub open spec fn spec_fill(probed: u32, written: u32, contents: Seq<u8>, width: PointerWidth) -> Result<
    DeviceEvent,
    DecodeError,
> {
    if written != probed {
        Err(DecodeError::SizeMismatch { expected: probed, actual: written })
    } else {
        spec_decode(contents, width)
    }
}

/// A fill yields a payload only when the byte count it reports equals the
/// probe's; any other count is a size mismatch that names both counts, and
/// nothing of the buffer is interpreted.
pub proof fn lemma_fill_matches_probe(probed: u32, written: u32, contents: Seq<u8>, width: PointerWidth)
    ensures
        spec_fill(probed, written, contents, width) is Ok ==> written == probed,
        written != probed ==> spec_fill(probed, written, contents, width) == Err::<DeviceEvent, DecodeError>(
            DecodeError::SizeMismatch { expected: probed, actual: written },
        ),
        written == probed ==> spec_fill(probed, written, contents, width) == spec_decode(contents, width),
{
}

/// Phase two, checked: `written` is what the fill query reported. Unless it
/// equals the probed size the record is refused whole; otherwise the
/// buffer is decoded.
pub fn complete_fill(request: SizedRequest, written: u32, width: PointerWidth) -> (r: Result<
    DeviceEvent,
    DecodeError,
>)
    ensures
        r == spec_fill(request.spec_size(), written, request.contents(), width),
{
    if written != request.size {
        return Err(DecodeError::SizeMismatch { expected: request.size, actual: written });
    }
    decode_record(request.buffer.as_slice(), width)
}

} // verus!
