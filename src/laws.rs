use crate::builder::{build_spec, stream_of, AudioClassBuilder, StreamResources};
use crate::class::{
    ac_header_body, configuration_spec, control_in_spec, control_out_spec, is_get_interface, is_set_interface,
    on_interface, preamble_spec, stream_count, AudioClass, ControlRequest,
};
use crate::codes::{AUDIO, AUDIOSTREAMING, CS_INTERFACE, DEFAULT_ALTERNATE_SETTING, ENDPOINT};
use crate::descriptor::{class_model, DescriptorModel};
use crate::stream::{input_ac_spec, input_as_ep_spec, output_ac_spec, output_as_ep_spec, AudioStream};
use usb_device::UsbError;
use vstd::prelude::*;

verus! {

/// Descriptors of `s` that satisfy `p`, counted.
pub open spec fn count_where(s: Seq<DescriptorModel>, p: spec_fn(DescriptorModel) -> bool) -> nat
    decreases s.len(),
{
    if s.len() == 0 {
        0
    } else {
        count_where(s.drop_last(), p) + if p(s.last()) { 1nat } else { 0nat }
    }
}

pub open spec fn is_streaming_interface(d: DescriptorModel) -> bool {
    d matches DescriptorModel::Interface { class, sub_class, .. } && class == AUDIO && sub_class == AUDIOSTREAMING
}

pub open spec fn is_endpoint(d: DescriptorModel) -> bool {
    d matches DescriptorModel::Class { descriptor_type, .. } && descriptor_type == ENDPOINT
}

/// Counting distributes over concatenation.
pub proof fn count_where_concat(a: Seq<DescriptorModel>, b: Seq<DescriptorModel>, p: spec_fn(DescriptorModel) -> bool)
    ensures
        count_where(a + b, p) == count_where(a, p) + count_where(b, p),
    decreases b.len(),
{
    if b.len() == 0 {
        assert(a + b =~= a);
    } else {
        assert((a + b).drop_last() =~= a + b.drop_last());
        assert((a + b).last() == b.last());
        count_where_concat(a, b.drop_last(), p);
    }
}

proof fn counts_of_blocks(c: AudioClass)
    ensures
        count_where(preamble_spec(c), |d: DescriptorModel| is_streaming_interface(d)) == 0,
        count_where(preamble_spec(c), |d: DescriptorModel| is_endpoint(d)) == 0,
        forall|s: AudioStream| #![auto]
            count_where(input_ac_spec(s), |d: DescriptorModel| is_streaming_interface(d)) == 0
            && count_where(input_ac_spec(s), |d: DescriptorModel| is_endpoint(d)) == 0
            && count_where(output_ac_spec(s), |d: DescriptorModel| is_streaming_interface(d)) == 0
            && count_where(output_ac_spec(s), |d: DescriptorModel| is_endpoint(d)) == 0
            && count_where(input_as_ep_spec(s), |d: DescriptorModel| is_streaming_interface(d)) == 1
            && count_where(input_as_ep_spec(s), |d: DescriptorModel| is_endpoint(d)) == 1
            && count_where(output_as_ep_spec(s), |d: DescriptorModel| is_streaming_interface(d)) == 1
            && count_where(output_as_ep_spec(s), |d: DescriptorModel| is_endpoint(d)) == 1,
{
    reveal_with_fuel(count_where, 7);
}

/// The audio control header announces a total length of 9 + 8 + 29 bytes per configured
/// stream, and the configuration holds one streaming interface and one endpoint
/// descriptor per configured stream.
pub proof fn configuration_counts_streams(c: AudioClass)
    ensures
        configuration_spec(c)[2] == class_model(CS_INTERFACE, ac_header_body((9 + 8 + 29 * stream_count(c)) as u16)),
        count_where(configuration_spec(c), |d: DescriptorModel| is_streaming_interface(d)) == stream_count(c),
        count_where(configuration_spec(c), |d: DescriptorModel| is_endpoint(d)) == stream_count(c),
{
    let ia = if c.input is Some { input_ac_spec(c.input.unwrap()) } else { Seq::empty() };
    let oa = if c.output is Some { output_ac_spec(c.output.unwrap()) } else { Seq::empty() };
    let ie = if c.input is Some { input_as_ep_spec(c.input.unwrap()) } else { Seq::empty() };
    let oe = if c.output is Some { output_as_ep_spec(c.output.unwrap()) } else { Seq::empty() };
    let pre = preamble_spec(c);
    assert(configuration_spec(c) =~= pre + ia + oa + ie + oe);
    counts_of_blocks(c);
    let ps = |d: DescriptorModel| is_streaming_interface(d);
    let pe = |d: DescriptorModel| is_endpoint(d);
    assert(count_where(Seq::<DescriptorModel>::empty(), ps) == 0);
    assert(count_where(Seq::<DescriptorModel>::empty(), pe) == 0);
    count_where_concat(pre, ia, ps);
    count_where_concat(pre + ia, oa, ps);
    count_where_concat(pre + ia + oa, ie, ps);
    count_where_concat(pre + ia + oa + ie, oe, ps);
    count_where_concat(pre, ia, pe);
    count_where_concat(pre + ia, oa, pe);
    count_where_concat(pre + ia + oa, ie, pe);
    count_where_concat(pre + ia + oa + ie, oe, pe);
}

/// A freshly built function has every configured stream in the idle alternate setting.
pub proof fn build_starts_idle(
    b: AudioClassBuilder,
    control_interface: u8,
    input: Option<Result<StreamResources, UsbError>>,
    output: Option<Result<StreamResources, UsbError>>,
)
    ensures
        build_spec(b, control_interface, input, output) matches Ok(c) ==> {
            &&& (c.input matches Some(s) ==> s.alt_setting == DEFAULT_ALTERNATE_SETTING)
            &&& (c.output matches Some(s) ==> s.alt_setting == DEFAULT_ALTERNATE_SETTING)
        },
{
}

/// After a SET_INTERFACE on a stream's interface, that stream's alternate setting is the
/// value the request delivered; the request is accepted and the other stream is untouched.
pub proof fn set_interface_sets_alt_setting(c: AudioClass, req: ControlRequest)
    requires
        is_set_interface(req),
        c.input matches Some(i) && c.output matches Some(o) ==> i.interface != o.interface,
    ensures
        on_interface(c.input, req.index as u8) ==> {
            let (n, accepted) = control_out_spec(c, req);
            &&& accepted
            &&& n.input.unwrap().alt_setting == req.value as u8
            &&& n.output == c.output
        },
        on_interface(c.output, req.index as u8) ==> {
            let (n, accepted) = control_out_spec(c, req);
            &&& accepted
            &&& n.output.unwrap().alt_setting == req.value as u8
            &&& n.input == c.input
        },
        !on_interface(c.input, req.index as u8) && !on_interface(c.output, req.index as u8)
            ==> control_out_spec(c, req) == (c, false),
{
}

/// GET_INTERFACE on a stream's interface is answered with exactly one byte, that stream's
/// alternate setting; on any other interface it is left unhandled. The state is unchanged.
pub proof fn get_interface_reports_alt_setting(c: AudioClass, req: ControlRequest)
    requires
        is_get_interface(req),
        c.input matches Some(i) && c.output matches Some(o) ==> i.interface != o.interface,
    ensures
        control_in_spec(c, req).0 == c,
        on_interface(c.input, req.index as u8) ==> control_in_spec(c, req).1 == Some(seq![c.input.unwrap().alt_setting]),
        on_interface(c.output, req.index as u8) ==> control_in_spec(c, req).1 == Some(seq![c.output.unwrap().alt_setting]),
        !on_interface(c.input, req.index as u8) && !on_interface(c.output, req.index as u8)
            ==> control_in_spec(c, req).1 is None,
{
}

/// Built with an input stream alone, the function has no output stream, and its
/// configuration holds the input stream's descriptors and nothing of an output stream.
pub proof fn input_only_configuration(b: AudioClassBuilder, control_interface: u8, res: StreamResources)
    requires
        b.input is Some,
        b.output is None,
    ensures
        build_spec(b, control_interface, Some(Ok(res)), None) matches Ok(c) && c.output is None
            && configuration_spec(c) == preamble_spec(c) + input_ac_spec(stream_of(b.input.unwrap(), res))
                + input_as_ep_spec(stream_of(b.input.unwrap(), res)),
{
    let c = AudioClass {
        control_interface,
        input: Some(stream_of(b.input.unwrap(), res)),
        output: None,
        clock_index: 0,
    };
    assert(build_spec(b, control_interface, Some(Ok(res)), None) == Ok::<AudioClass, crate::error::Error>(c));
    assert(configuration_spec(c) =~= preamble_spec(c) + input_ac_spec(stream_of(b.input.unwrap(), res))
        + input_as_ep_spec(stream_of(b.input.unwrap(), res)));
}

} // verus!
