//! The output container's write protocol.
//!
//! Output streams are declared first; the header is written exactly once,
//! after all declarations and before any packet; packets may only name
//! declared streams; the trailer closes the container exactly once. Any call
//! out of order is answered with an error instead of silently producing a
//! corrupt file. The container library's own interleaving buffer takes care
//! of emitting the accepted packets across streams in timestamp order; this
//! type owns the protocol around it and the log of accepted packets.

use crate::packet::Packet;
use crate::rational::Rational;
use vstd::prelude::*;

verus! {

/// A write-protocol violation.
#[derive(Clone, Copy, PartialEq, Eq, Structural, Debug)]
pub enum WriterError {
    /// A stream declaration or a second header write arrived after the
    /// header.
    HeaderAlreadyWritten,
    /// A packet or the trailer was asked for before the header.
    HeaderNotWritten,
    /// The packet names no declared stream.
    UnknownStream,
    /// Anything asked of the writer after the trailer.
    TrailerAlreadyWritten,
}

/// Where the writer stands in its protocol.
#[derive(Clone, Copy, PartialEq, Eq, Structural, Debug)]
pub enum WriterPhase {
    /// Accepting stream declarations; no header yet.
    Declaring,
    /// Header written; accepting packets.
    Writing,
    /// Trailer written; closed.
    Closed,
}

/// One declared output stream.
pub struct OutputStreamDecl {
    /// Opaque codec parameter blob handed to the container.
    pub codec_params: Vec<u8>,
    /// Container-level codec tag; zero is the unset/neutral value.
    pub codec_tag: u32,
    /// Time base the stream's timestamps are written in.
    pub time_base: Rational,
}

/// Declare the output stream for a copy-through route: the input stream's
/// codec parameters verbatim, and the codec tag forced to the neutral value,
/// since a tag carried over into a different container format can break
/// playback.
pub fn copy_stream_decl(codec_params: Vec<u8>, time_base: Rational) -> (d: OutputStreamDecl)
    ensures
        d.codec_params@ == codec_params@,
        d.codec_tag == 0,
        d.time_base == time_base,
{
    OutputStreamDecl { codec_params, codec_tag: 0, time_base }
}

/// The output container, as far as the pipeline's own obligations reach:
/// the protocol phase, the declared streams, and the packets accepted for
/// interleaved writing, in acceptance order.
pub struct ContainerWriter {
    /// Where the protocol stands.
    pub phase: WriterPhase,
    /// The declared output streams, by output stream index.
    pub streams: Vec<OutputStreamDecl>,
    /// Every packet accepted so far, in acceptance order.
    pub written: Vec<Packet>,
}

impl ContainerWriter {
    /// A fresh writer: no streams, no header, nothing written.
    pub fn new() -> (w: ContainerWriter)
        ensures
            w.phase is Declaring,
            w.streams@.len() == 0,
            w.written@.len() == 0,
    {
        ContainerWriter { phase: WriterPhase::Declaring, streams: Vec::new(), written: Vec::new() }
    }

    /// Declare one output stream; allowed only before the header. Returns
    /// the new stream's output index.
    pub fn add_stream(&mut self, decl: OutputStreamDecl) -> (r: Result<usize, WriterError>)
        ensures
            r is Ok <==> old(self).phase is Declaring,
            r matches Ok(idx) ==> {
                &&& idx == old(self).streams@.len()
                &&& final(self).streams@ == old(self).streams@.push(decl)
                &&& final(self).phase == old(self).phase
                &&& final(self).written@ == old(self).written@
            },
            r is Err ==> *final(self) == *old(self),
            r == Err::<usize, WriterError>(WriterError::HeaderAlreadyWritten) <==> old(
                self,
            ).phase is Writing,
            r == Err::<usize, WriterError>(WriterError::TrailerAlreadyWritten) <==> old(
                self,
            ).phase is Closed,
    {
        match self.phase {
            WriterPhase::Declaring => {
                let idx = self.streams.len();
                self.streams.push(decl);
                Ok(idx)
            },
            WriterPhase::Writing => Err(WriterError::HeaderAlreadyWritten),
            WriterPhase::Closed => Err(WriterError::TrailerAlreadyWritten),
        }
    }

    /// Write the header: exactly once, after all declarations, before any
    /// packet.
    pub fn write_header(&mut self) -> (r: Result<(), WriterError>)
        ensures
            r is Ok <==> old(self).phase is Declaring,
            r is Ok ==> *final(self) == (ContainerWriter {
                phase: WriterPhase::Writing,
                ..*old(self)
            }),
            r is Err ==> *final(self) == *old(self),
            r == Err::<(), WriterError>(WriterError::HeaderAlreadyWritten) <==> old(
                self,
            ).phase is Writing,
            r == Err::<(), WriterError>(WriterError::TrailerAlreadyWritten) <==> old(
                self,
            ).phase is Closed,
    {
        match self.phase {
            WriterPhase::Declaring => {
                self.phase = WriterPhase::Writing;
                Ok(())
            },
            WriterPhase::Writing => Err(WriterError::HeaderAlreadyWritten),
            WriterPhase::Closed => Err(WriterError::TrailerAlreadyWritten),
        }
    }

    /// Accept one packet for interleaved writing: only after the header,
    /// only before the trailer, and only for a declared stream.
    pub fn write_packet(&mut self, p: Packet) -> (r: Result<(), WriterError>)
        ensures
            r is Ok <==> old(self).phase is Writing && p.stream_index < old(self).streams@.len(),
            r is Ok ==> {
                &&& final(self).written@ == old(self).written@.push(p)
                &&& final(self).phase == old(self).phase
                &&& final(self).streams@ == old(self).streams@
            },
            r is Err ==> *final(self) == *old(self),
            r == Err::<(), WriterError>(WriterError::HeaderNotWritten) <==> old(
                self,
            ).phase is Declaring,
            r == Err::<(), WriterError>(WriterError::TrailerAlreadyWritten) <==> old(
                self,
            ).phase is Closed,
            r == Err::<(), WriterError>(WriterError::UnknownStream) <==> old(self).phase is Writing
                && p.stream_index >= old(self).streams@.len(),
    {
        match self.phase {
            WriterPhase::Declaring => Err(WriterError::HeaderNotWritten),
            WriterPhase::Closed => Err(WriterError::TrailerAlreadyWritten),
            WriterPhase::Writing => {
                if p.stream_index < self.streams.len() {
                    self.written.push(p);
                    Ok(())
                } else {
                    Err(WriterError::UnknownStream)
                }
            },
        }
    }

    /// Write the trailer: exactly once, after the header, once every stream
    /// (including flushed transcoders) has no more pending output — the
    /// caller's drive machines say when that is (`DriveMode::Finished`).
    pub fn write_trailer(&mut self) -> (r: Result<(), WriterError>)
        ensures
            r is Ok <==> old(self).phase is Writing,
            r is Ok ==> *final(self) == (ContainerWriter {
                phase: WriterPhase::Closed,
                ..*old(self)
            }),
            r is Err ==> *final(self) == *old(self),
            r == Err::<(), WriterError>(WriterError::HeaderNotWritten) <==> old(
                self,
            ).phase is Declaring,
            r == Err::<(), WriterError>(WriterError::TrailerAlreadyWritten) <==> old(
                self,
            ).phase is Closed,
    {
        match self.phase {
            WriterPhase::Declaring => Err(WriterError::HeaderNotWritten),
            WriterPhase::Writing => {
                self.phase = WriterPhase::Closed;
                Ok(())
            },
            WriterPhase::Closed => Err(WriterError::TrailerAlreadyWritten),
        }
    }
}

} // verus!
