use usb_device::UsbError;
use usbd_uac2::builder::{AudioClassBuilder, IsoUsage, StreamResources};
use usbd_uac2::class::{AudioClass, ControlRequest, Recipient, RequestType};
use usbd_uac2::descriptor::Descriptor;
use usbd_uac2::{Error, Format, StreamConfig, TerminalType};

fn config(format: Format, rate: u16, n_channels: u8, term: TerminalType) -> StreamConfig {
    match StreamConfig::new(format, rate, n_channels, term) {
        Ok(c) => c,
        Err(_) => panic!("stream configuration refused"),
    }
}

fn mic() -> StreamConfig {
    config(Format::S16LE, 48000, 2, TerminalType::InMicrophone)
}

fn speaker() -> StreamConfig {
    config(Format::S24LE, 44100, 2, TerminalType::OutSpeaker)
}

fn res(interface: u8, ep_address: u8) -> StreamResources {
    StreamResources { interface, ep_address, ep_interval: 1 }
}

fn both() -> AudioClass {
    let b = AudioClassBuilder::new().input(mic()).output(speaker());
    match b.build(0, Some(Ok(res(1, 0x81))), Some(Ok(res(2, 0x02)))) {
        Ok(c) => c,
        Err(_) => panic!("build failed"),
    }
}

fn input_only() -> AudioClass {
    match AudioClassBuilder::new().input(mic()).build(0, Some(Ok(res(1, 0x81))), None) {
        Ok(c) => c,
        Err(_) => panic!("build failed"),
    }
}

fn output_only() -> AudioClass {
    match AudioClassBuilder::new().output(speaker()).build(0, None, Some(Ok(res(1, 0x01)))) {
        Ok(c) => c,
        Err(_) => panic!("build failed"),
    }
}

fn none_built() -> AudioClass {
    match AudioClassBuilder::new().build(0, None, None) {
        Ok(c) => c,
        Err(_) => panic!("build failed"),
    }
}

fn req(request_type: RequestType, request: u8, value: u16, index: u16, length: u16) -> ControlRequest {
    ControlRequest { request_type, recipient: Recipient::Interface, request, value, index, length }
}

fn get_interface(iface: u16) -> ControlRequest {
    req(RequestType::Standard, 10, 0, iface, 1)
}

fn set_interface(iface: u16, alt: u16) -> ControlRequest {
    req(RequestType::Standard, 11, alt, iface, 0)
}

fn class_body(d: &Descriptor) -> (u8, Vec<u8>) {
    match d {
        Descriptor::Class { descriptor_type, body } => (*descriptor_type, body.clone()),
        Descriptor::Interface { .. } => panic!("expected a class descriptor"),
    }
}

fn count_endpoints(ds: &[Descriptor]) -> usize {
    ds.iter().filter(|d| matches!(d, Descriptor::Class { descriptor_type: 0x05, .. })).count()
}

fn count_streaming_interfaces(ds: &[Descriptor]) -> usize {
    ds.iter().filter(|d| matches!(d, Descriptor::Interface { class: 0x01, sub_class: 0x02, .. })).count()
}

#[test]
fn packet_size_48k_stereo_16bit() {
    assert_eq!(config(Format::S16LE, 48000, 2, TerminalType::InMicrophone).packet_size(), 196);
}

#[test]
fn packet_size_44k1_stereo_24bit() {
    assert_eq!(config(Format::S24LE, 44100, 2, TerminalType::OutSpeaker).packet_size(), 270);
}

#[test]
fn packet_size_whole_frames_over_rates() {
    for rate in [1000u16, 8000, 11025, 16000, 22050, 32000, 44100, 48000, 65535] {
        for n in [1u8, 2, 3, 6, 8, 255] {
            for f in [Format::S16LE, Format::S24LE] {
                let ps = config(f, rate, n, TerminalType::ExtLineConnector).packet_size();
                let frame = n as u16 * f.size() as u16;
                assert!(ps > 0);
                assert_eq!(ps % frame, 0);
            }
        }
    }
}

#[test]
fn packet_size_largest_values() {
    assert_eq!(config(Format::S24LE, 65535, 255, TerminalType::OutSpeaker).packet_size(), 66 * 3 * 255);
}

#[test]
fn format_sizes_and_resolutions() {
    assert_eq!(Format::S16LE.size(), 2);
    assert_eq!(Format::S16LE.res(), 16);
    assert_eq!(Format::S24LE.size(), 3);
    assert_eq!(Format::S24LE.res(), 24);
}

#[test]
fn terminal_type_bytes_low_first() {
    assert_eq!(TerminalType::UsbStreaming.as_bytes(), [0x01, 0x01]);
    assert_eq!(TerminalType::InMicrophone.as_bytes(), [0x01, 0x02]);
    assert_eq!(TerminalType::OutSpeaker.as_bytes(), [0x01, 0x03]);
    assert_eq!(TerminalType::UsbVendor.as_bytes(), [0xFF, 0x01]);
}

#[test]
fn stream_config_keeps_values() {
    let c = config(Format::S24LE, 96, 0, TerminalType::OutHeadphones);
    assert!(matches!(c.format, Format::S24LE));
    assert_eq!(c.rate, 96);
    assert_eq!(c.n_channels, 0);
    assert_eq!(c.term_type, TerminalType::OutHeadphones);
}

#[test]
fn read_without_output_stream() {
    let c = input_only();
    assert!(matches!(c.read(Ok(12)), Err(Error::StreamNotInitialized)));
    assert!(matches!(c.read(Err(UsbError::WouldBlock)), Err(Error::StreamNotInitialized)));
    assert!(matches!(none_built().read(Ok(0)), Err(Error::StreamNotInitialized)));
}

#[test]
fn write_without_input_stream() {
    let c = output_only();
    assert!(matches!(c.write(Ok(12)), Err(Error::StreamNotInitialized)));
    assert!(matches!(c.write(Err(UsbError::BufferOverflow)), Err(Error::StreamNotInitialized)));
    assert!(matches!(none_built().write(Ok(0)), Err(Error::StreamNotInitialized)));
}

#[test]
fn read_and_write_pass_outcomes_through() {
    let c = both();
    assert!(matches!(c.read(Ok(7)), Ok(7)));
    assert!(matches!(c.read(Err(UsbError::WouldBlock)), Err(Error::UsbError(UsbError::WouldBlock))));
    assert!(matches!(c.write(Ok(196)), Ok(196)));
    assert!(matches!(c.write(Err(UsbError::BufferOverflow)), Err(Error::UsbError(UsbError::BufferOverflow))));
}

#[test]
fn alt_settings_start_idle() {
    let c = both();
    assert!(matches!(c.input_alt_setting(), Ok(0)));
    assert!(matches!(c.output_alt_setting(), Ok(0)));
}

#[test]
fn alt_settings_follow_set_interface() {
    let mut c = both();
    assert!(c.control_out(&set_interface(1, 1)));
    assert!(matches!(c.input_alt_setting(), Ok(1)));
    assert!(matches!(c.output_alt_setting(), Ok(0)));
    assert!(c.control_out(&set_interface(2, 1)));
    assert!(matches!(c.output_alt_setting(), Ok(1)));
    assert!(c.control_out(&set_interface(1, 0)));
    assert!(matches!(c.input_alt_setting(), Ok(0)));
    assert!(matches!(c.output_alt_setting(), Ok(1)));
}

#[test]
fn set_interface_on_unknown_interface_is_unhandled() {
    let mut c = input_only();
    assert!(!c.control_out(&set_interface(2, 1)));
    assert!(matches!(c.input_alt_setting(), Ok(0)));
    let class_req = req(RequestType::Class, 11, 1, 1, 0);
    assert!(!c.control_out(&class_req));
    assert!(matches!(c.input_alt_setting(), Ok(0)));
}

#[test]
fn get_interface_reports_alt_setting() {
    let mut c = both();
    assert_eq!(c.control_in(&get_interface(1)), Some(vec![0]));
    assert!(c.control_out(&set_interface(2, 1)));
    assert_eq!(c.control_in(&get_interface(2)), Some(vec![1]));
    assert_eq!(c.control_in(&get_interface(1)), Some(vec![0]));
}

#[test]
fn get_interface_unhandled_cases() {
    let mut c = input_only();
    assert_eq!(c.control_in(&get_interface(2)), None);
    assert_eq!(c.control_in(&get_interface(0)), None);
    assert_eq!(c.control_in(&req(RequestType::Standard, 10, 0, 1, 2)), None);
}

#[test]
fn clock_range_is_staged() {
    let mut c = both();
    let range = req(RequestType::Class, 0x02, 0x0100, 0x0100, 14);
    assert_eq!(c.control_in(&range), Some(vec![0x01, 0x00]));
    let full = vec![0x01, 0x00, 0x80, 0x3E, 0x00, 0x00, 0x80, 0x3E, 0x00, 0x00, 0x01, 0x00, 0x00, 0x00];
    assert_eq!(c.control_in(&range), Some(full.clone()));
    for _ in 0..300 {
        assert_eq!(c.control_in(&range), Some(full.clone()));
    }
    assert_eq!(c.clock_index, 255);
}

#[test]
fn clock_current_frequency() {
    let mut c = none_built();
    let cur = req(RequestType::Class, 0x01, 0x0100, 0x0100, 4);
    assert_eq!(c.control_in(&cur), Some(vec![0x80, 0x3E, 0x00, 0x00]));
    assert_eq!(c.clock_index, 0);
}

#[test]
fn clock_requests_other_shapes_unhandled() {
    let mut c = none_built();
    assert_eq!(c.control_in(&req(RequestType::Class, 0x03, 0x0100, 0x0100, 4)), None);
    assert_eq!(c.control_in(&req(RequestType::Class, 0x01, 0x0200, 0x0100, 4)), None);
    assert_eq!(c.control_in(&req(RequestType::Class, 0x01, 0x0100, 0x0200, 4)), None);
    assert_eq!(c.control_in(&req(RequestType::Vendor, 0x01, 0x0100, 0x0100, 4)), None);
    assert_eq!(c.clock_index, 0);
}

#[test]
fn total_length_counts_streams() {
    for (c, n) in [(none_built(), 0u8), (input_only(), 1), (output_only(), 1), (both(), 2)] {
        let ds = c.get_configuration_descriptors();
        let (ty, header) = class_body(&ds[2]);
        assert_eq!(ty, 0x24);
        let total = 9 + 8 + 29 * n as u16;
        assert_eq!(header, vec![0x01, 0x00, 0x02, 0x00, (total % 256) as u8, (total / 256) as u8, 0x00]);
        let (ty, iad) = class_body(&ds[0]);
        assert_eq!(ty, 0x0B);
        assert_eq!(iad, vec![0x00, n + 1, 0x01, 0x00, 0x20, 0x00]);
        assert_eq!(count_endpoints(&ds), n as usize);
        assert_eq!(count_streaming_interfaces(&ds), n as usize);
        assert_eq!(ds.len(), 4 + 8 * n as usize);
    }
}

#[test]
fn input_only_has_no_output_descriptors() {
    let c = input_only();
    assert!(matches!(c.output_alt_setting(), Err(Error::StreamNotInitialized)));
    assert!(matches!(c.read(Ok(1)), Err(Error::StreamNotInitialized)));
    let ds = c.get_configuration_descriptors();
    for d in ds.iter() {
        if let Descriptor::Class { descriptor_type: 0x24, body } = d {
            if (body[0] == 0x02 && body.len() == 15) || (body[0] == 0x03 && body.len() == 10) {
                assert!(body[1] == 0x02 || body[1] == 0x03);
            }
            if body[0] == 0x01 && body.len() == 14 {
                assert_eq!(body[1], 0x03);
            }
        }
        if let Descriptor::Class { descriptor_type: 0x05, body } = d {
            assert_eq!(body[1], 0b00100101);
        }
    }
    assert_eq!(count_endpoints(&ds), 1);
}

#[test]
fn input_stream_descriptor_bytes() {
    let ds = input_only().get_configuration_descriptors();
    assert!(matches!(ds[1], Descriptor::Interface { number: 0, class: 0x01, sub_class: 0x01, protocol: 0x20 }));
    assert_eq!(class_body(&ds[3]), (0x24, vec![0x0A, 0x01, 0x01, 0x01, 0x00, 0x00]));
    assert_eq!(
        class_body(&ds[4]),
        (0x24, vec![0x02, 0x02, 0x01, 0x02, 0x00, 0x01, 2, 0, 0, 0, 0, 0, 0, 0, 0])
    );
    assert_eq!(class_body(&ds[5]), (0x24, vec![0x03, 0x03, 0x01, 0x01, 0x00, 0x02, 0x01, 0, 0, 0]));
    assert!(matches!(ds[6], Descriptor::Interface { number: 1, class: 0x01, sub_class: 0x02, protocol: 0x20 }));
    assert_eq!(class_body(&ds[7]), (0x04, vec![1, 0x01, 0x01, 0x01, 0x02, 0x20, 0x00]));
    assert_eq!(class_body(&ds[8]), (0x24, vec![0x01, 0x03, 0x00, 0x01, 0x01, 0, 0, 0, 2, 0, 0, 0, 0, 0]));
    assert_eq!(class_body(&ds[9]), (0x24, vec![0x02, 0x01, 2, 16]));
    assert_eq!(class_body(&ds[10]), (0x05, vec![0x81, 0b00100101, 196, 0, 1]));
    assert_eq!(class_body(&ds[11]), (0x25, vec![0x01, 0, 0, 0, 0, 0]));
}

#[test]
fn output_stream_descriptor_bytes() {
    let ds = output_only().get_configuration_descriptors();
    assert_eq!(
        class_body(&ds[4]),
        (0x24, vec![0x02, 0x04, 0x01, 0x01, 0x00, 0x01, 2, 0, 0, 0, 0, 0, 0, 0, 0])
    );
    assert_eq!(class_body(&ds[5]), (0x24, vec![0x03, 0x05, 0x01, 0x03, 0x00, 0x04, 0x01, 0, 0, 0]));
    assert!(matches!(ds[6], Descriptor::Interface { number: 1, class: 0x01, sub_class: 0x02, protocol: 0x00 }));
    assert_eq!(class_body(&ds[8]), (0x24, vec![0x01, 0x04, 0x00, 0x01, 0x01, 0, 0, 0, 2, 0, 0, 0, 0, 0]));
    assert_eq!(class_body(&ds[9]), (0x24, vec![0x02, 0x01, 3, 24]));
    assert_eq!(class_body(&ds[10]), (0x05, vec![0x01, 0b00000101, 0x0E, 0x01, 1]));
}

#[test]
fn both_streams_ac_before_as() {
    let ds = both().get_configuration_descriptors();
    assert_eq!(ds.len(), 20);
    assert_eq!(class_body(&ds[4]).1[1], 0x02);
    assert_eq!(class_body(&ds[6]).1[1], 0x04);
    assert!(matches!(ds[8], Descriptor::Interface { number: 1, .. }));
    assert!(matches!(ds[14], Descriptor::Interface { number: 2, .. }));
}

#[test]
fn builder_last_call_wins() {
    let b = AudioClassBuilder::new().input(mic()).input(config(Format::S24LE, 8000, 1, TerminalType::InMicrophone));
    assert_eq!(b.input.map(|c| c.rate), Some(8000));
    assert!(b.output.is_none());
}

#[test]
fn endpoint_requests_follow_streams() {
    let b = AudioClassBuilder::new().input(mic()).output(speaker());
    let i = b.input_endpoint().expect("input endpoint");
    assert_eq!(i.usage, IsoUsage::ImplicitFeedbackData);
    assert_eq!(i.max_packet_size, 196);
    let o = b.output_endpoint().expect("output endpoint");
    assert_eq!(o.usage, IsoUsage::Data);
    assert_eq!(o.max_packet_size, 270);
    assert!(AudioClassBuilder::new().input_endpoint().is_none());
    assert!(AudioClassBuilder::new().output_endpoint().is_none());
}

#[test]
fn build_propagates_allocation_error() {
    let b = AudioClassBuilder::new().input(mic()).output(speaker());
    let r = b.build(0, Some(Err(UsbError::EndpointOverflow)), Some(Ok(res(2, 0x02))));
    assert!(matches!(r, Err(Error::UsbError(UsbError::EndpointOverflow))));
    let r = b.build(0, Some(Ok(res(1, 0x81))), Some(Err(UsbError::EndpointMemoryOverflow)));
    assert!(matches!(r, Err(Error::UsbError(UsbError::EndpointMemoryOverflow))));
}

#[test]
fn build_records_resources() {
    let c = both();
    assert_eq!(c.control_interface, 0);
    let i = c.input.expect("input");
    assert_eq!((i.interface, i.ep_address, i.ep_interval, i.alt_setting), (1, 0x81, 1, 0));
    let o = c.output.expect("output");
    assert_eq!((o.interface, o.ep_address, o.ep_interval, o.alt_setting), (2, 0x02, 1, 0));
    assert_eq!(c.clock_index, 0);
}
