//! A sound device.
use crate::text;
use vstd::prelude::*;

verus! {

/// Where sound goes to and comes from.
#[derive(Clone, Copy, Debug, PartialEq, Eq, Structural)]
pub enum StreamSourceBackend {
    Null,
    COREAUDIO,
}

/// Errors of parameters.
#[derive(Clone, Copy, Debug, PartialEq, Eq, Structural)]
pub enum ParametersError {
    InvalidBackend,
}

/// Errors of streams.
#[derive(Clone, Copy, Debug, PartialEq, Eq, Structural)]
pub enum SndError {
    EmptyStreamSource,
}

impl StreamSourceBackend {
    pub open spec fn text(self) -> Seq<char> {
        match self {
            StreamSourceBackend::Null => "null"@,
            StreamSourceBackend::COREAUDIO => "coreaudio"@,
        }
    }

    /// The name of the backend.
    pub fn name(&self) -> (r: String)
        ensures
            r@ == self.text(),
    {
        match self {
            StreamSourceBackend::Null => "null".to_owned(),
            StreamSourceBackend::COREAUDIO => "coreaudio".to_owned(),
        }
    }

    /// The backend with a name.
    pub fn try_from(s: &str) -> (r: Result<StreamSourceBackend, ParametersError>)
        ensures
            r matches Ok(b) ==> s@ == b.text(),
            r matches Err(e) ==> e == ParametersError::InvalidBackend && forall|b:
                StreamSourceBackend| #[trigger] b.text() != s@,
    {
        if text::same_text(s, "null") {
            Ok(StreamSourceBackend::Null)
        } else if text::same_text(s, "coreaudio") {
            Ok(StreamSourceBackend::COREAUDIO)
        } else {
            Err(ParametersError::InvalidBackend)
        }
    }
}

/// The backends that the streams of a device have: all have the same.
pub fn create_stream_source_generators(backend: StreamSourceBackend, streams: usize) -> (r: Vec<
    StreamSourceBackend,
>)
    ensures
        r@ == Seq::new(streams as nat, |i: int| backend),
{
    let mut generators: Vec<StreamSourceBackend> = Vec::new();
    while generators.len() < streams
        invariant
            generators@.len() <= streams,
            generators@ == Seq::new(generators@.len(), |i: int| backend),
        decreases streams - generators@.len(),
    {
        let ghost before = generators@;
        generators.push(backend);
        assert(generators@ =~= Seq::new(generators@.len(), |i: int| backend));
    }
    generators
}

/// The host takes care of the priority of audio threads itself.
pub fn set_audio_thread_priority() -> (r: Result<(), i32>)
    ensures
        r is Ok,
{
    Ok(())
}

/// What a stream is opened with.
#[derive(Clone, Copy, Debug, PartialEq, Eq, Structural)]
pub struct StreamRequest {
    pub num_channels: usize,
    pub frame_rate: u32,
    /// Frames in one period.
    pub buffer_size: usize,
}

/// Plans a stream, for which there must be a source.
pub fn set_up_async_stream(
    has_source: bool,
    channels: u8,
    frame_rate: u32,
    period_bytes: usize,
    frame_size: usize,
) -> (r: Result<StreamRequest, SndError>)
    requires
        has_source ==> frame_size > 0,
    ensures
        r == (if has_source {
            Ok(
                StreamRequest {
                    num_channels: channels as usize,
                    frame_rate,
                    buffer_size: (period_bytes / frame_size) as usize,
                },
            )
        } else {
            Err::<StreamRequest, SndError>(SndError::EmptyStreamSource)
        }),
{
    if !has_source {
        return Err(SndError::EmptyStreamSource);
    }
    Ok(
        StreamRequest {
            num_channels: channels as usize,
            frame_rate,
            buffer_size: period_bytes / frame_size,
        },
    )
}

/// Writes periods of the guest to a stream.
#[derive(Clone, Copy, Debug, PartialEq, Eq, Structural)]
pub struct MacosBufferWriter {
    pub guest_period_bytes: usize,
}

impl MacosBufferWriter {
    pub fn new(guest_period_bytes: usize) -> (r: Self)
        ensures
            r.guest_period_bytes == guest_period_bytes,
    {
        MacosBufferWriter { guest_period_bytes }
    }

    /// The stream has periods of the same size as the guest.
    pub fn endpoint_period_bytes(&self) -> (r: usize)
        ensures
            r == self.guest_period_bytes,
    {
        self.guest_period_bytes
    }
}

/// The name of a backend is read back as that backend, and as no other.
pub proof fn backend_name_reads_back(a: StreamSourceBackend, b: StreamSourceBackend)
    requires
        a.text() == b.text(),
    ensures
        a == b,
{
    reveal_strlit("null");
    reveal_strlit("coreaudio");
    assert("null"@.len() != "coreaudio"@.len());
}

} // verus!
