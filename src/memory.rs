//! Byte buffers that encoded data is gathered in and handed around as.
use vstd::prelude::*;

verus! {

/// Encoded bytes collected from successive writes.
#[derive(Debug)]
pub struct WebPMemoryWriter {
    mem: Vec<u8>,
}

impl View for WebPMemoryWriter {
    type V = Seq<u8>;

    closed spec fn view(&self) -> Seq<u8> {
        self.mem@
    }
}

impl WebPMemoryWriter {
    /// An empty writer.
    pub fn new() -> (r: WebPMemoryWriter)
        ensures
            r@ == Seq::<u8>::empty(),
    {
        WebPMemoryWriter { mem: Vec::new() }
    }

    /// Number of bytes written so far.
    pub fn size(&self) -> (r: usize)
        ensures
            r == self@.len(),
    {
        self.mem.len()
    }

    /// The bytes written so far.
    pub fn as_slice(&self) -> (r: &[u8])
        ensures
            r@ == self@,
    {
        self.mem.as_slice()
    }
}

/// Makes `writer` empty, ready for a new sequence of writes.
#[allow(non_snake_case)]
pub fn WebPMemoryWriterInit(writer: &mut WebPMemoryWriter)
    ensures
        final(writer)@ == Seq::<u8>::empty(),
{
    writer.mem = Vec::new();
}

/// Drops what `writer` holds and leaves it empty.
#[allow(non_snake_case)]
pub fn WebPMemoryWriterClear(writer: &mut WebPMemoryWriter)
    ensures
        final(writer)@ == Seq::<u8>::empty(),
{
    writer.mem = Vec::new();
}

/// Appends `data` to what `writer` holds; always succeeds.
#[allow(non_snake_case)]
pub fn WebPMemoryWrite(data: &[u8], writer: &mut WebPMemoryWriter) -> (r: bool)
    ensures
        r,
        final(writer)@ == old(writer)@ + data@,
{
    let mut i: usize = 0;
    while i < data.len()
        invariant
            i <= data@.len(),
            writer@ == old(writer)@ + data@.subrange(0, i as int),
        decreases data@.len() - i,
    {
        writer.mem.push(data[i]);
        i = i + 1;
        assert(writer@ =~= old(writer)@ + data@.subrange(0, i as int));
    }
    assert(data@.subrange(0, data@.len() as int) =~= data@);
    true
}

/// A run of bytes, such as an encoded image or a chunk payload.
#[derive(Debug, Clone)]
pub struct WebPData {
    pub bytes: Vec<u8>,
}

impl WebPData {
    /// Number of bytes.
    pub fn size(&self) -> (r: usize)
        ensures
            r == self.bytes@.len(),
    {
        self.bytes.len()
    }
}

/// Makes `data` empty.
#[allow(non_snake_case)]
pub fn WebPDataInit(data: &mut WebPData)
    ensures
        final(data).bytes@ == Seq::<u8>::empty(),
{
    data.bytes = Vec::new();
}

/// Releases what `data` holds and leaves it empty.
#[allow(non_snake_case)]
pub fn WebPDataClear(data: &mut WebPData)
    ensures
        final(data).bytes@ == Seq::<u8>::empty(),
{
    data.bytes = Vec::new();
}

/// Replaces what `dst` holds by a copy of `src`; always succeeds.
#[allow(non_snake_case)]
pub fn WebPDataCopy(src: &WebPData, dst: &mut WebPData) -> (r: bool)
    ensures
        r,
        final(dst).bytes@ == src.bytes@,
{
    let mut out: Vec<u8> = Vec::with_capacity(src.bytes.len());
    let mut i: usize = 0;
    while i < src.bytes.len()
        invariant
            i <= src.bytes@.len(),
            out@ == src.bytes@.subrange(0, i as int),
        decreases src.bytes@.len() - i,
    {
        out.push(src.bytes[i]);
        i = i + 1;
    }
    assert(out@ =~= src.bytes@);
    dst.bytes = out;
    true
}

} // verus!
