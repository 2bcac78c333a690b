use crate::error::Error;
use vstd::prelude::*;

verus! {

/// Sample encodings a stream can carry.
#[derive(Clone, Copy, Debug, PartialEq, Eq, Structural)]
pub enum Format {
    S16LE,
    S24LE,
}

impl Format {
    /// Bytes taken by one sample.
    pub open spec fn size_spec(self) -> u8 {
        match self {
            Format::S16LE => 2,
            Format::S24LE => 3,
        }
    }

    /// Significant bits of one sample.
    pub open spec fn res_spec(self) -> u8 {
        match self {
            Format::S16LE => 16,
            Format::S24LE => 24,
        }
    }

    pub fn size(&self) -> (r: u8)
        ensures
            r == self.size_spec(),
    {
        match self {
            Format::S16LE => 2,
            Format::S24LE => 3,
        }
    }

    pub fn res(&self) -> (r: u8)
        ensures
            r == self.res_spec(),
    {
        match self {
            Format::S16LE => 16,
            Format::S24LE => 24,
        }
    }
}

/// Terminal classifications of the audio function, each with its two-byte wire code.
#[derive(Clone, Copy, Debug, PartialEq, Eq, Structural)]
pub enum TerminalType {
    UsbUndefined,
    UsbStreaming,
    UsbVendor,
    InUndefined,
    InMicrophone,
    InDesktopMicrophone,
    InPersonalMicrophone,
    InOmniDirectionalMicrophone,
    InMicrophoneArray,
    InProcessingMicrophoneArray,
    OutUndefined,
    OutSpeaker,
    OutHeadphones,
    OutHeadMountedDisplayAudio,
    OutDesktopSpeaker,
    OutRoomSpeaker,
    OutCommunicationSpeaker,
    OutLowFrequencyEffectsSpeaker,
    ExtUndefined,
    ExtAnalogConnector,
    ExtDigitalAudioInterface,
    ExtLineConnector,
    ExtLegacyAudioConnector,
    ExtSpdifInterface,
}

impl TerminalType {
    pub open spec fn code(self) -> u16 {
        match self {
            TerminalType::UsbUndefined => 0x0100,
            TerminalType::UsbStreaming => 0x0101,
            TerminalType::UsbVendor => 0x01FF,
            TerminalType::InUndefined => 0x0200,
            TerminalType::InMicrophone => 0x0201,
            TerminalType::InDesktopMicrophone => 0x0202,
            TerminalType::InPersonalMicrophone => 0x0203,
            TerminalType::InOmniDirectionalMicrophone => 0x0204,
            TerminalType::InMicrophoneArray => 0x0205,
            TerminalType::InProcessingMicrophoneArray => 0x0206,
            TerminalType::OutUndefined => 0x0300,
            TerminalType::OutSpeaker => 0x0301,
            TerminalType::OutHeadphones => 0x0302,
            TerminalType::OutHeadMountedDisplayAudio => 0x0303,
            TerminalType::OutDesktopSpeaker => 0x0304,
            TerminalType::OutRoomSpeaker => 0x0305,
            TerminalType::OutCommunicationSpeaker => 0x0306,
            TerminalType::OutLowFrequencyEffectsSpeaker => 0x0307,
            TerminalType::ExtUndefined => 0x0600,
            TerminalType::ExtAnalogConnector => 0x0601,
            TerminalType::ExtDigitalAudioInterface => 0x0602,
            TerminalType::ExtLineConnector => 0x0603,
            TerminalType::ExtLegacyAudioConnector => 0x0604,
            TerminalType::ExtSpdifInterface => 0x0605,
        }
    }

    /// The wire code as it stands in a descriptor: low byte first.
    pub open spec fn bytes_spec(self) -> Seq<u8> {
        seq![(self.code() % 256) as u8, (self.code() / 256) as u8]
    }

    pub fn as_bytes(&self) -> (r: [u8; 2])
        ensures
            r@ == self.bytes_spec(),
    {
        let code: u16 = match self {
            TerminalType::UsbUndefined => 0x0100,
            TerminalType::UsbStreaming => 0x0101,
            TerminalType::UsbVendor => 0x01FF,
            TerminalType::InUndefined => 0x0200,
            TerminalType::InMicrophone => 0x0201,
            TerminalType::InDesktopMicrophone => 0x0202,
            TerminalType::InPersonalMicrophone => 0x0203,
            TerminalType::InOmniDirectionalMicrophone => 0x0204,
            TerminalType::InMicrophoneArray => 0x0205,
            TerminalType::InProcessingMicrophoneArray => 0x0206,
            TerminalType::OutUndefined => 0x0300,
            TerminalType::OutSpeaker => 0x0301,
            TerminalType::OutHeadphones => 0x0302,
            TerminalType::OutHeadMountedDisplayAudio => 0x0303,
            TerminalType::OutDesktopSpeaker => 0x0304,
            TerminalType::OutRoomSpeaker => 0x0305,
            TerminalType::OutCommunicationSpeaker => 0x0306,
            TerminalType::OutLowFrequencyEffectsSpeaker => 0x0307,
            TerminalType::ExtUndefined => 0x0600,
            TerminalType::ExtAnalogConnector => 0x0601,
            TerminalType::ExtDigitalAudioInterface => 0x0602,
            TerminalType::ExtLineConnector => 0x0603,
            TerminalType::ExtLegacyAudioConnector => 0x0604,
            TerminalType::ExtSpdifInterface => 0x0605,
        };
        let r: [u8; 2] = [(code % 256) as u8, (code / 256) as u8];
        assert(r@ =~= self.bytes_spec());
        r
    }
}

/// The parameters of one direction's audio stream.
#[derive(Clone, Copy, Debug)]
pub struct StreamConfig {
    pub format: Format,
    pub rate: u16,
    pub n_channels: u8,
    pub term_type: TerminalType,
}

/// Samples per one-millisecond frame, with one extra sample of headroom for clock drift,
/// times the bytes of one sample in every channel.
pub open spec fn packet_size_of(format: Format, rate: u16, n_channels: u8) -> int {
    (rate / 1000 + 1) * n_channels * format.size_spec()
}

impl StreamConfig {
    pub open spec fn packet_size_spec(self) -> int {
        packet_size_of(self.format, self.rate, self.n_channels)
    }

    /// Records the parameters as given; no value is rejected.
    pub fn new(format: Format, rate: u16, n_channels: u8, term_type: TerminalType) -> (r: Result<StreamConfig, Error>)
        ensures
            r matches Ok(c) && c.format == format && c.rate == rate && c.n_channels == n_channels
                && c.term_type == term_type,
    {
        Ok(StreamConfig { format, rate, n_channels, term_type })
    }

    /// Largest isochronous packet of the stream, in bytes.
    pub fn packet_size(&self) -> (r: u16)
        ensures
            r == self.packet_size_spec(),
    {
        let size: u16 = self.format.size() as u16 * self.n_channels as u16;
        let samples: u16 = self.rate / 1000;
        assert((samples + 1) * size <= 66 * 765) by (nonlinear_arith)
            requires
                samples <= 65,
                size <= 765,
        ;
        assert((samples + 1) * size == (samples + 1) * self.n_channels * self.format.size_spec())
            by (nonlinear_arith)
            requires
                size == self.format.size_spec() * self.n_channels,
        ;
        (samples + 1) * size
    }
}

/// For every stream of at least one channel and a rate of at least one kHz, the packet
/// size is positive and holds a whole number of sample frames (one sample in every channel).
pub proof fn packet_size_holds_whole_frames(format: Format, rate: u16, n_channels: u8)
    requires
        rate >= 1000,
        n_channels >= 1,
    ensures
        packet_size_of(format, rate, n_channels) > 0,
        packet_size_of(format, rate, n_channels) % (n_channels * format.size_spec()) == 0,
{
    let k: int = rate / 1000 + 1;
    let frame: int = n_channels * format.size_spec();
    assert(frame > 0) by (nonlinear_arith)
        requires
            frame == n_channels * format.size_spec(),
            n_channels >= 1,
            format.size_spec() >= 2,
    ;
    assert(k * n_channels * format.size_spec() == k * frame) by (nonlinear_arith)
        requires
            frame == n_channels * format.size_spec(),
    ;
    assert(k * frame > 0) by (nonlinear_arith)
        requires
            k >= 1,
            frame > 0,
    ;
    assert((k * frame) % frame == 0) by (nonlinear_arith)
        requires
            frame > 0,
    ;
}

} // verus!
