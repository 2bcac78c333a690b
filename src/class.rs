use crate::codes::{
    AF_VERSION_02_00, AUDIO, AUDIOCONTROL, AUDIO_FUNCTION, CLOCK_SOURCE, CS_INTERFACE, CS_SAM_FREQ_CONTROL,
    DEFAULT_ALTERNATE_SETTING, FUNCTION_SUBCLASS_UNDEFINED, GET_INTERFACE, HEADER, ID_CLOCK_SRC,
    INTERFACE_ASSOCIATION, IP_VERSION_02_00, REQUEST_CUR, REQUEST_RANGE, SET_INTERFACE,
};
use crate::descriptor::{class_model, hi, lo, models, push_class, push_interface, Descriptor, DescriptorModel};
use crate::error::Error;
use crate::stream::{input_ac_spec, input_as_ep_spec, output_ac_spec, output_as_ep_spec, AudioStream};
use usb_device::UsbError;
use vstd::prelude::*;

verus! {

/// Kind of a control request.
#[derive(Clone, Copy, Debug, PartialEq, Eq, Structural)]
pub enum RequestType {
    Standard,
    Class,
    Vendor,
    Reserved,
}

/// Recipient of a control request.
#[derive(Clone, Copy, Debug, PartialEq, Eq, Structural)]
pub enum Recipient {
    Device,
    Interface,
    Endpoint,
    Other,
    Reserved,
}

/// The setup packet of a control transfer.
#[derive(Clone, Copy, Debug)]
pub struct ControlRequest {
    pub request_type: RequestType,
    pub recipient: Recipient,
    pub request: u8,
    pub value: u16,
    pub index: u16,
    pub length: u16,
}

/// The audio function: one control interface, and a stream in either direction or both.
#[derive(Clone, Copy, Debug)]
pub struct AudioClass {
    pub control_interface: u8,
    /// Stream the device captures and sends to the host.
    pub input: Option<AudioStream>,
    /// Stream the host sends and the device plays.
    pub output: Option<AudioStream>,
    /// How many clock range requests have been answered, up to 255.
    pub clock_index: u8,
}

/// Sampling frequency of the fixed clock, 16 kHz, low byte first.
pub open spec fn clock_freq_bytes() -> Seq<u8> {
    seq![0x80, 0x3E, 0x00, 0x00]
}

/// The answer to a first clock range request: the number of sub-ranges.
pub open spec fn clock_range_count() -> Seq<u8> {
    seq![0x01, 0x00]
}

/// The full clock range: one sub-range whose minimum and maximum are the fixed frequency.
pub open spec fn clock_range_full() -> Seq<u8> {
    seq![
        0x01, 0x00,
        0x80, 0x3E, 0x00, 0x00,
        0x80, 0x3E, 0x00, 0x00,
        0x01, 0x00, 0x00, 0x00,
    ]
}

pub open spec fn is_get_interface(req: ControlRequest) -> bool {
    req.request_type == RequestType::Standard && req.recipient == Recipient::Interface
        && req.request == GET_INTERFACE && req.length == 1
}

pub open spec fn is_set_interface(req: ControlRequest) -> bool {
    req.request_type == RequestType::Standard && req.recipient == Recipient::Interface
        && req.request == SET_INTERFACE
}

/// A class request to the clock source's sampling frequency control.
pub open spec fn is_clock_freq_request(req: ControlRequest) -> bool {
    req.request_type == RequestType::Class && req.recipient == Recipient::Interface
        && req.index / 256 == ID_CLOCK_SRC as u16 && req.value / 256 == CS_SAM_FREQ_CONTROL
}

/// The stream, if any, whose interface number is `iface`.
pub open spec fn on_interface(s: Option<AudioStream>, iface: u8) -> bool {
    s matches Some(st) && st.interface == iface
}

pub open spec fn with_alt(s: Option<AudioStream>, alt: u8) -> Option<AudioStream> {
    match s {
        Some(st) => Some(AudioStream { alt_setting: alt, ..st }),
        None => None,
    }
}

pub open spec fn stream_count(c: AudioClass) -> nat {
    (if c.input is Some { 1nat } else { 0nat }) + (if c.output is Some { 1nat } else { 0nat })
}

/// The total length that the audio control header announces.
pub open spec fn total_length_spec(c: AudioClass) -> u16 {
    (9 + 8 + 29 * stream_count(c)) as u16
}

pub open spec fn ac_header_body(total_length: u16) -> Seq<u8> {
    seq![HEADER, 0x00, 0x02, 0x00, lo(total_length), hi(total_length), 0x00]
}

/// The association, the control interface, its header and the clock source.
pub open spec fn preamble_spec(c: AudioClass) -> Seq<DescriptorModel> {
    seq![
        class_model(INTERFACE_ASSOCIATION, seq![
            0x00, (stream_count(c) + 1) as u8,
            AUDIO_FUNCTION, FUNCTION_SUBCLASS_UNDEFINED, AF_VERSION_02_00, 0x00,
        ]),
        DescriptorModel::Interface {
            number: c.control_interface,
            class: AUDIO,
            sub_class: AUDIOCONTROL,
            protocol: IP_VERSION_02_00,
        },
        class_model(CS_INTERFACE, ac_header_body(total_length_spec(c))),
        class_model(CS_INTERFACE, seq![CLOCK_SOURCE, ID_CLOCK_SRC, 0x01, 0x01, 0x00, 0x00]),
    ]
}

pub open spec fn opt_descs(s: Option<AudioStream>, f: spec_fn(AudioStream) -> Seq<DescriptorModel>) -> Seq<DescriptorModel> {
    match s {
        Some(st) => f(st),
        None => Seq::empty(),
    }
}

/// The whole configuration of the function: every audio control descriptor before any
/// audio streaming descriptor, the input stream's before the output stream's.
pub open spec fn configuration_spec(c: AudioClass) -> Seq<DescriptorModel> {
    preamble_spec(c)
        + opt_descs(c.input, |s: AudioStream| input_ac_spec(s))
        + opt_descs(c.output, |s: AudioStream| output_ac_spec(s))
        + opt_descs(c.input, |s: AudioStream| input_as_ep_spec(s))
        + opt_descs(c.output, |s: AudioStream| output_as_ep_spec(s))
}

/// The state after a control-in request, and the reply, if the request is handled.
pub open spec fn control_in_spec(c: AudioClass, req: ControlRequest) -> (AudioClass, Option<Seq<u8>>) {
    if is_get_interface(req) {
        let iface = req.index as u8;
        if on_interface(c.input, iface) {
            (c, Some(seq![c.input.unwrap().alt_setting]))
        } else if on_interface(c.output, iface) {
            (c, Some(seq![c.output.unwrap().alt_setting]))
        } else {
            (c, None)
        }
    } else if is_clock_freq_request(req) {
        if req.request == REQUEST_RANGE {
            let next = AudioClass { clock_index: if c.clock_index < 255 { (c.clock_index + 1) as u8 } else { 255 }, ..c };
            if c.clock_index == 0 {
                (next, Some(clock_range_count()))
            } else {
                (next, Some(clock_range_full()))
            }
        } else if req.request == REQUEST_CUR {
            (c, Some(clock_freq_bytes()))
        } else {
            (c, None)
        }
    } else {
        (c, None)
    }
}

/// The state after a control-out request, and whether the request is accepted.
pub open spec fn control_out_spec(c: AudioClass, req: ControlRequest) -> (AudioClass, bool) {
    let iface = req.index as u8;
    let alt = req.value as u8;
    if is_set_interface(req) && on_interface(c.input, iface) {
        (AudioClass { input: with_alt(c.input, alt), ..c }, true)
    } else if is_set_interface(req) && on_interface(c.output, iface) {
        (AudioClass { output: with_alt(c.output, alt), ..c }, true)
    } else {
        (c, false)
    }
}

pub open spec fn reply_view(r: Option<Vec<u8>>) -> Option<Seq<u8>> {
    match r {
        Some(v) => Some(v@),
        None => None,
    }
}

/// The outcome of a transfer on a stream's endpoint, as the caller sees it.
pub open spec fn transfer_result(outcome: Result<usize, UsbError>) -> Result<usize, Error> {
    match outcome {
        Ok(n) => Ok(n),
        Err(e) => Err(Error::UsbError(e)),
    }
}

fn transfer(outcome: Result<usize, UsbError>) -> (r: Result<usize, Error>)
    ensures
        r == transfer_result(outcome),
{
    match outcome {
        Ok(n) => Ok(n),
        Err(e) => Err(Error::UsbError(e)),
    }
}

impl AudioClass {
    /// Hands on the outcome of a read from the output stream's endpoint. Without an
    /// output stream there is nothing to read from, whatever `outcome` holds.
    pub fn read(&self, outcome: Result<usize, UsbError>) -> (r: Result<usize, Error>)
        ensures
            self.output is None ==> r matches Err(Error::StreamNotInitialized),
            self.output is Some ==> r == transfer_result(outcome),
    {
        if self.output.is_some() {
            transfer(outcome)
        } else {
            Err(Error::StreamNotInitialized)
        }
    }

    /// Hands on the outcome of a write to the input stream's endpoint. Without an
    /// input stream there is nothing to write to, whatever `outcome` holds.
    pub fn write(&self, outcome: Result<usize, UsbError>) -> (r: Result<usize, Error>)
        ensures
            self.input is None ==> r matches Err(Error::StreamNotInitialized),
            self.input is Some ==> r == transfer_result(outcome),
    {
        if self.input.is_some() {
            transfer(outcome)
        } else {
            Err(Error::StreamNotInitialized)
        }
    }

    /// Current alternate setting of the input stream.
    pub fn input_alt_setting(&self) -> (r: Result<u8, Error>)
        ensures
            self.input is None ==> r matches Err(Error::StreamNotInitialized),
            self.input matches Some(s) ==> r matches Ok(a) && a == s.alt_setting,
    {
        match &self.input {
            Some(s) => Ok(s.alt_setting),
            None => Err(Error::StreamNotInitialized),
        }
    }

    /// Current alternate setting of the output stream.
    pub fn output_alt_setting(&self) -> (r: Result<u8, Error>)
        ensures
            self.output is None ==> r matches Err(Error::StreamNotInitialized),
            self.output matches Some(s) ==> r matches Ok(a) && a == s.alt_setting,
    {
        match &self.output {
            Some(s) => Ok(s.alt_setting),
            None => Err(Error::StreamNotInitialized),
        }
    }
}

impl AudioClass {
    /// Number of configured streams.
    fn n_streams(&self) -> (r: u8)
        ensures
            r == stream_count(*self),
    {
        (if self.input.is_some() { 1u8 } else { 0u8 }) + (if self.output.is_some() { 1u8 } else { 0u8 })
    }

    /// The function's descriptors, in the order in which the host reads them.
    pub fn get_configuration_descriptors(&self) -> (r: Vec<Descriptor>)
        ensures
            models(r@) == configuration_spec(*self),
    {
        let n = self.n_streams();
        let total_length: u16 = 9 + 8 + 29 * n as u16;
        let mut out: Vec<Descriptor> = Vec::new();
        push_class(&mut out, INTERFACE_ASSOCIATION, vec![
            0x00, n + 1,
            AUDIO_FUNCTION, FUNCTION_SUBCLASS_UNDEFINED, AF_VERSION_02_00, 0x00,
        ]);
        push_interface(&mut out, self.control_interface, AUDIO, AUDIOCONTROL, IP_VERSION_02_00);
        push_class(&mut out, CS_INTERFACE, vec![
            HEADER, 0x00, 0x02, 0x00, (total_length % 256) as u8, (total_length / 256) as u8, 0x00,
        ]);
        push_class(&mut out, CS_INTERFACE, vec![CLOCK_SOURCE, ID_CLOCK_SRC, 0x01, 0x01, 0x00, 0x00]);
        assert(models(out@) =~= preamble_spec(*self));
        if let Some(s) = &self.input {
            s.input_ac_descriptor(&mut out);
        }
        assert(models(out@) =~= preamble_spec(*self)
            + opt_descs(self.input, |s: AudioStream| input_ac_spec(s)));
        if let Some(s) = &self.output {
            s.output_ac_descriptor(&mut out);
        }
        assert(models(out@) =~= preamble_spec(*self)
            + opt_descs(self.input, |s: AudioStream| input_ac_spec(s))
            + opt_descs(self.output, |s: AudioStream| output_ac_spec(s)));
        if let Some(s) = &self.input {
            s.input_as_ep_descriptor(&mut out);
        }
        assert(models(out@) =~= preamble_spec(*self)
            + opt_descs(self.input, |s: AudioStream| input_ac_spec(s))
            + opt_descs(self.output, |s: AudioStream| output_ac_spec(s))
            + opt_descs(self.input, |s: AudioStream| input_as_ep_spec(s)));
        if let Some(s) = &self.output {
            s.output_as_ep_descriptor(&mut out);
        }
        assert(models(out@) =~= configuration_spec(*self));
        out
    }

    /// Answers a control-in request addressed to the function. `None` leaves the
    /// request unhandled, for the device stack's default handling.
    pub fn control_in(&mut self, req: &ControlRequest) -> (r: Option<Vec<u8>>)
        ensures
            (*final(self), reply_view(r)) == control_in_spec(*old(self), *req),
    {
        if req.request_type == RequestType::Standard && req.recipient == Recipient::Interface
            && req.request == GET_INTERFACE && req.length == 1
        {
            let iface = req.index as u8;
            if let Some(s) = &self.input {
                if s.interface == iface {
                    let r = vec![s.alt_setting];
                    assert(r@ =~= seq![s.alt_setting]);
                    return Some(r);
                }
            }
            if let Some(s) = &self.output {
                if s.interface == iface {
                    let r = vec![s.alt_setting];
                    assert(r@ =~= seq![s.alt_setting]);
                    return Some(r);
                }
            }
            None
        } else if req.request_type == RequestType::Class && req.recipient == Recipient::Interface
            && req.index / 256 == ID_CLOCK_SRC as u16 && req.value / 256 == CS_SAM_FREQ_CONTROL
        {
            if req.request == REQUEST_RANGE {
                let first = self.clock_index == 0;
                if self.clock_index < 255 {
                    self.clock_index = self.clock_index + 1;
                }
                if first {
                    let r = vec![0x01, 0x00];
                    assert(r@ =~= clock_range_count());
                    Some(r)
                } else {
                    let r = vec![
                        0x01, 0x00,
                        0x80, 0x3E, 0x00, 0x00,
                        0x80, 0x3E, 0x00, 0x00,
                        0x01, 0x00, 0x00, 0x00,
                    ];
                    assert(r@ =~= clock_range_full());
                    Some(r)
                }
            } else if req.request == REQUEST_CUR {
                let r = vec![0x80, 0x3E, 0x00, 0x00];
                assert(r@ =~= clock_freq_bytes());
                Some(r)
            } else {
                None
            }
        } else {
            None
        }
    }

    /// Applies a control-out request addressed to the function; the result tells
    /// whether it was accepted. Unaccepted requests leave the state as it was.
    pub fn control_out(&mut self, req: &ControlRequest) -> (r: bool)
        ensures
            (*final(self), r) == control_out_spec(*old(self), *req),
    {
        if req.request_type == RequestType::Standard && req.recipient == Recipient::Interface
            && req.request == SET_INTERFACE
        {
            let iface = req.index as u8;
            let alt = req.value as u8;
            if let Some(s) = &mut self.input {
                if s.interface == iface {
                    s.alt_setting = alt;
                    return true;
                }
            }
            if let Some(s) = &mut self.output {
                if s.interface == iface {
                    s.alt_setting = alt;
                    return true;
                }
            }
        }
        false
    }
}

} // verus!
