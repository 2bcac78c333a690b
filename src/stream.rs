use crate::codes::{
    AS_GENERAL, AUDIO, AUDIOSTREAMING, CS_ENDPOINT, CS_INTERFACE, ENDPOINT, EP_GENERAL, FORMAT_TYPE, FORMAT_TYPE_I,
    ID_CLOCK_SRC, ID_INPUT_STREAMING, ID_INPUT_TERMINAL, ID_OUTPUT_STREAMING, ID_OUTPUT_TERMINAL, INPUT_TERMINAL,
    INTERFACE, IP_UNDEFINED, IP_VERSION_02_00, OUTPUT_TERMINAL,
};
use crate::config::{StreamConfig, TerminalType};
use crate::descriptor::{class_model, hi, lo, models, push_class, push_interface, Descriptor, DescriptorModel};
use vstd::prelude::*;

verus! {

/// Endpoint attributes: isochronous, asynchronous, implicit-feedback data.
pub const EP_ATTRIBUTES_INPUT: u8 = 0b00100101;
/// Endpoint attributes: isochronous, asynchronous, data.
pub const EP_ATTRIBUTES_OUTPUT: u8 = 0b00000101;

/// One direction's stream, bound to its interface and its isochronous endpoint.
#[derive(Clone, Copy, Debug)]
pub struct AudioStream {
    pub stream_config: StreamConfig,
    /// Interface number given at build time.
    pub interface: u8,
    /// Address of the isochronous endpoint.
    pub ep_address: u8,
    /// Polling interval of the isochronous endpoint.
    pub ep_interval: u8,
    /// Current alternate setting: zero is the idle, zero-bandwidth setting.
    pub alt_setting: u8,
}

pub open spec fn input_terminal_body(id: u8, term: Seq<u8>, n_channels: u8) -> Seq<u8> {
    seq![
        INPUT_TERMINAL, id, term[0], term[1],
        0x00, ID_CLOCK_SRC, n_channels,
        0x00, 0x00, 0x00, 0x00,
        0x00, 0x00, 0x00, 0x00,
    ]
}

pub open spec fn output_terminal_body(id: u8, term: Seq<u8>, source: u8) -> Seq<u8> {
    seq![OUTPUT_TERMINAL, id, term[0], term[1], 0x00, source, ID_CLOCK_SRC, 0x00, 0x00, 0x00]
}

/// Terminals of a stream that the device captures: the configured terminal feeds a
/// USB streaming terminal.
pub open spec fn input_ac_spec(s: AudioStream) -> Seq<DescriptorModel> {
    seq![
        class_model(CS_INTERFACE, input_terminal_body(
            ID_INPUT_TERMINAL, s.stream_config.term_type.bytes_spec(), s.stream_config.n_channels)),
        class_model(CS_INTERFACE, output_terminal_body(
            ID_INPUT_STREAMING, TerminalType::UsbStreaming.bytes_spec(), ID_INPUT_TERMINAL)),
    ]
}

/// Terminals of a stream that the device plays: a USB streaming terminal feeds the
/// configured terminal.
pub open spec fn output_ac_spec(s: AudioStream) -> Seq<DescriptorModel> {
    seq![
        class_model(CS_INTERFACE, input_terminal_body(
            ID_OUTPUT_STREAMING, TerminalType::UsbStreaming.bytes_spec(), s.stream_config.n_channels)),
        class_model(CS_INTERFACE, output_terminal_body(
            ID_OUTPUT_TERMINAL, s.stream_config.term_type.bytes_spec(), ID_OUTPUT_STREAMING)),
    ]
}

/// The streaming interface of a stream, alternate settings zero and one, with its
/// format and its endpoint.
pub open spec fn as_ep_spec(s: AudioStream, link: u8, protocol: u8, attributes: u8) -> Seq<DescriptorModel> {
    let c = s.stream_config;
    let ps = c.packet_size_spec() as u16;
    seq![
        DescriptorModel::Interface {
            number: s.interface,
            class: AUDIO,
            sub_class: AUDIOSTREAMING,
            protocol,
        },
        class_model(INTERFACE, seq![s.interface, 0x01, 0x01, AUDIO, AUDIOSTREAMING, IP_VERSION_02_00, 0x00]),
        class_model(CS_INTERFACE, seq![
            AS_GENERAL, link, 0x00, 0x01,
            0x01, 0x00, 0x00, 0x00,
            c.n_channels,
            0x00, 0x00, 0x00, 0x00,
            0x00,
        ]),
        class_model(CS_INTERFACE, seq![FORMAT_TYPE, FORMAT_TYPE_I, c.format.size_spec(), c.format.res_spec()]),
        class_model(ENDPOINT, seq![s.ep_address, attributes, lo(ps), hi(ps), s.ep_interval]),
        class_model(CS_ENDPOINT, seq![EP_GENERAL, 0x00, 0x00, 0x00, 0x00, 0x00]),
    ]
}

pub open spec fn input_as_ep_spec(s: AudioStream) -> Seq<DescriptorModel> {
    as_ep_spec(s, ID_INPUT_STREAMING, IP_VERSION_02_00, EP_ATTRIBUTES_INPUT)
}

pub open spec fn output_as_ep_spec(s: AudioStream) -> Seq<DescriptorModel> {
    as_ep_spec(s, ID_OUTPUT_STREAMING, IP_UNDEFINED, EP_ATTRIBUTES_OUTPUT)
}

fn input_terminal(id: u8, term: [u8; 2], n_channels: u8) -> (r: Vec<u8>)
    ensures
        r@ == input_terminal_body(id, term@, n_channels),
{
    let r = vec![
        INPUT_TERMINAL, id, term[0], term[1],
        0x00, ID_CLOCK_SRC, n_channels,
        0x00, 0x00, 0x00, 0x00,
        0x00, 0x00, 0x00, 0x00,
    ];
    assert(r@ =~= input_terminal_body(id, term@, n_channels));
    r
}

fn output_terminal(id: u8, term: [u8; 2], source: u8) -> (r: Vec<u8>)
    ensures
        r@ == output_terminal_body(id, term@, source),
{
    let r = vec![OUTPUT_TERMINAL, id, term[0], term[1], 0x00, source, ID_CLOCK_SRC, 0x00, 0x00, 0x00];
    assert(r@ =~= output_terminal_body(id, term@, source));
    r
}

impl AudioStream {
    /// Appends the terminal descriptors of a captured (device to host) stream.
    pub fn input_ac_descriptor(&self, out: &mut Vec<Descriptor>)
        ensures
            models(final(out)@) == models(old(out)@) + input_ac_spec(*self),
    {
        let term = self.stream_config.term_type.as_bytes();
        let usb = TerminalType::UsbStreaming.as_bytes();
        push_class(out, CS_INTERFACE, input_terminal(ID_INPUT_TERMINAL, term, self.stream_config.n_channels));
        push_class(out, CS_INTERFACE, output_terminal(ID_INPUT_STREAMING, usb, ID_INPUT_TERMINAL));
        assert(models(out@) =~= models(old(out)@) + input_ac_spec(*self));
    }

    /// Appends the terminal descriptors of a played (host to device) stream.
    pub fn output_ac_descriptor(&self, out: &mut Vec<Descriptor>)
        ensures
            models(final(out)@) == models(old(out)@) + output_ac_spec(*self),
    {
        let usb = TerminalType::UsbStreaming.as_bytes();
        let term = self.stream_config.term_type.as_bytes();
        push_class(out, CS_INTERFACE, input_terminal(ID_OUTPUT_STREAMING, usb, self.stream_config.n_channels));
        push_class(out, CS_INTERFACE, output_terminal(ID_OUTPUT_TERMINAL, term, ID_OUTPUT_STREAMING));
        assert(models(out@) =~= models(old(out)@) + output_ac_spec(*self));
    }

    fn as_ep_descriptor(&self, out: &mut Vec<Descriptor>, link: u8, protocol: u8, attributes: u8)
        ensures
            models(final(out)@) == models(old(out)@) + as_ep_spec(*self, link, protocol, attributes),
    {
        let c = self.stream_config;
        push_interface(out, self.interface, AUDIO, AUDIOSTREAMING, protocol);
        push_class(out, INTERFACE, vec![self.interface, 0x01, 0x01, AUDIO, AUDIOSTREAMING, IP_VERSION_02_00, 0x00]);
        push_class(out, CS_INTERFACE, vec![
            AS_GENERAL, link, 0x00, 0x01,
            0x01, 0x00, 0x00, 0x00,
            c.n_channels,
            0x00, 0x00, 0x00, 0x00,
            0x00,
        ]);
        push_class(out, CS_INTERFACE, vec![FORMAT_TYPE, FORMAT_TYPE_I, c.format.size(), c.format.res()]);
        let ps = c.packet_size();
        push_class(out, ENDPOINT, vec![self.ep_address, attributes, (ps % 256) as u8, (ps / 256) as u8, self.ep_interval]);
        push_class(out, CS_ENDPOINT, vec![EP_GENERAL, 0x00, 0x00, 0x00, 0x00, 0x00]);
        assert(models(out@) =~= models(old(out)@) + as_ep_spec(*self, link, protocol, attributes));
    }

    /// Appends the streaming interface and endpoint descriptors of a captured stream.
    pub fn input_as_ep_descriptor(&self, out: &mut Vec<Descriptor>)
        ensures
            models(final(out)@) == models(old(out)@) + input_as_ep_spec(*self),
    {
        self.as_ep_descriptor(out, ID_INPUT_STREAMING, IP_VERSION_02_00, EP_ATTRIBUTES_INPUT);
    }

    /// Appends the streaming interface and endpoint descriptors of a played stream.
    pub fn output_as_ep_descriptor(&self, out: &mut Vec<Descriptor>)
        ensures
            models(final(out)@) == models(old(out)@) + output_as_ep_spec(*self),
    {
        self.as_ep_descriptor(out, ID_OUTPUT_STREAMING, IP_UNDEFINED, EP_ATTRIBUTES_OUTPUT);
    }
}

} // verus!
