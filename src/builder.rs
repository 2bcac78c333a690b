use crate::class::AudioClass;
use crate::codes::DEFAULT_ALTERNATE_SETTING;
use crate::config::StreamConfig;
use crate::error::Error;
use crate::stream::AudioStream;
use usb_device::UsbError;
use vstd::prelude::*;

verus! {

/// Usage of an isochronous endpoint; its synchronization is always asynchronous.
#[derive(Clone, Copy, Debug, PartialEq, Eq, Structural)]
pub enum IsoUsage {
    Data,
    ImplicitFeedbackData,
}

/// An isochronous endpoint that a stream needs from the device stack.
#[derive(Clone, Copy, Debug)]
pub struct EndpointRequest {
    pub usage: IsoUsage,
    pub max_packet_size: u16,
    pub interval: u8,
}

/// What the device stack handed out for one stream.
#[derive(Clone, Copy, Debug)]
pub struct StreamResources {
    pub interface: u8,
    pub ep_address: u8,
    pub ep_interval: u8,
}

/// Collects the streams of an audio function before its resources are allocated.
#[derive(Clone, Copy, Debug)]
pub struct AudioClassBuilder {
    pub input: Option<StreamConfig>,
    pub output: Option<StreamConfig>,
}

pub open spec fn endpoint_request_spec(c: Option<StreamConfig>, usage: IsoUsage) -> Option<EndpointRequest> {
    match c {
        Some(cfg) => Some(EndpointRequest { usage, max_packet_size: cfg.packet_size_spec() as u16, interval: 1 }),
        None => None,
    }
}

/// The stream that a configuration and its resources make, idle at first.
pub open spec fn stream_of(cfg: StreamConfig, res: StreamResources) -> AudioStream {
    AudioStream {
        stream_config: cfg,
        interface: res.interface,
        ep_address: res.ep_address,
        ep_interval: res.ep_interval,
        alt_setting: DEFAULT_ALTERNATE_SETTING,
    }
}

/// The stream of a direction, or the allocation error that prevents it.
pub open spec fn stream_build_spec(
    cfg: Option<StreamConfig>,
    res: Option<Result<StreamResources, UsbError>>,
) -> Result<Option<AudioStream>, UsbError> {
    match (cfg, res) {
        (Some(c), Some(Ok(r))) => Ok(Some(stream_of(c, r))),
        (Some(_), Some(Err(e))) => Err(e),
        _ => Ok(None),
    }
}

pub open spec fn build_spec(
    b: AudioClassBuilder,
    control_interface: u8,
    input: Option<Result<StreamResources, UsbError>>,
    output: Option<Result<StreamResources, UsbError>>,
) -> Result<AudioClass, Error> {
    match (stream_build_spec(b.input, input), stream_build_spec(b.output, output)) {
        (Err(e), _) => Err(Error::UsbError(e)),
        (Ok(_), Err(e)) => Err(Error::UsbError(e)),
        (Ok(i), Ok(o)) => Ok(AudioClass { control_interface, input: i, output: o, clock_index: 0 }),
    }
}

fn build_stream(cfg: Option<StreamConfig>, res: Option<Result<StreamResources, UsbError>>) -> (r: Result<Option<AudioStream>, UsbError>)
    ensures
        r == stream_build_spec(cfg, res),
{
    match (cfg, res) {
        (Some(c), Some(Ok(r))) => Ok(Some(AudioStream {
            stream_config: c,
            interface: r.interface,
            ep_address: r.ep_address,
            ep_interval: r.ep_interval,
            alt_setting: DEFAULT_ALTERNATE_SETTING,
        })),
        (Some(_), Some(Err(e))) => Err(e),
        _ => Ok(None),
    }
}

impl AudioClassBuilder {
    /// A builder with no stream.
    pub fn new() -> (r: AudioClassBuilder)
        ensures
            r.input is None,
            r.output is None,
    {
        AudioClassBuilder { input: None, output: None }
    }

    /// Records the input stream; a later call replaces an earlier one.
    pub fn input(self, input: StreamConfig) -> (r: AudioClassBuilder)
        ensures
            r.input == Some(input),
            r.output == self.output,
    {
        AudioClassBuilder { input: Some(input), output: self.output }
    }

    /// Records the output stream; a later call replaces an earlier one.
    pub fn output(self, output: StreamConfig) -> (r: AudioClassBuilder)
        ensures
            r.input == self.input,
            r.output == Some(output),
    {
        AudioClassBuilder { input: self.input, output: Some(output) }
    }

    /// The endpoint to allocate for the input stream, if there is one: sized to its
    /// packets, for implicit-feedback data.
    pub fn input_endpoint(&self) -> (r: Option<EndpointRequest>)
        ensures
            r == endpoint_request_spec(self.input, IsoUsage::ImplicitFeedbackData),
    {
        match &self.input {
            Some(c) => Some(EndpointRequest { usage: IsoUsage::ImplicitFeedbackData, max_packet_size: c.packet_size(), interval: 1 }),
            None => None,
        }
    }

    /// The endpoint to allocate for the output stream, if there is one: sized to its
    /// packets, for plain data.
    pub fn output_endpoint(&self) -> (r: Option<EndpointRequest>)
        ensures
            r == endpoint_request_spec(self.output, IsoUsage::Data),
    {
        match &self.output {
            Some(c) => Some(EndpointRequest { usage: IsoUsage::Data, max_packet_size: c.packet_size(), interval: 1 }),
            None => None,
        }
    }

    /// Wires the function from the control interface and the allocation outcome of each
    /// configured stream. Every stream starts idle; the first allocation error, input
    /// before output, is returned instead.
    pub fn build(
        self,
        control_interface: u8,
        input: Option<Result<StreamResources, UsbError>>,
        output: Option<Result<StreamResources, UsbError>>,
    ) -> (r: Result<AudioClass, Error>)
        requires
            self.input is Some <==> input is Some,
            self.output is Some <==> output is Some,
        ensures
            r == build_spec(self, control_interface, input, output),
    {
        let i = match build_stream(self.input, input) {
            Ok(i) => i,
            Err(e) => return Err(Error::UsbError(e)),
        };
        let o = match build_stream(self.output, output) {
            Ok(o) => o,
            Err(e) => return Err(Error::UsbError(e)),
        };
        Ok(AudioClass { control_interface, input: i, output: o, clock_index: 0 })
    }
}

} // verus!
