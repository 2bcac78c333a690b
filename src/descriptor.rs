use vstd::prelude::*;

verus! {

/// One descriptor of the configuration, in the order the host reads them.
#[derive(Debug)]
pub enum Descriptor {
    /// A standard interface descriptor for alternate setting zero, which the
    /// descriptor writer also counts among the configuration's interfaces.
    Interface { number: u8, class: u8, sub_class: u8, protocol: u8 },
    /// A descriptor written as given: its type and the bytes after the length and type fields.
    Class { descriptor_type: u8, body: Vec<u8> },
}

/// The mathematical value of a `Descriptor`.
pub enum DescriptorModel {
    Interface { number: u8, class: u8, sub_class: u8, protocol: u8 },
    Class { descriptor_type: u8, body: Seq<u8> },
}

impl View for Descriptor {
    type V = DescriptorModel;

    open spec fn view(&self) -> DescriptorModel {
        match self {
            Descriptor::Interface { number, class, sub_class, protocol } => DescriptorModel::Interface {
                number: *number,
                class: *class,
                sub_class: *sub_class,
                protocol: *protocol,
            },
            Descriptor::Class { descriptor_type, body } => DescriptorModel::Class {
                descriptor_type: *descriptor_type,
                body: body@,
            },
        }
    }
}

/// The values of a sequence of descriptors.
pub open spec fn models(s: Seq<Descriptor>) -> Seq<DescriptorModel> {
    s.map_values(|d: Descriptor| d@)
}

pub open spec fn class_model(descriptor_type: u8, body: Seq<u8>) -> DescriptorModel {
    DescriptorModel::Class { descriptor_type, body }
}

pub fn push_class(out: &mut Vec<Descriptor>, descriptor_type: u8, body: Vec<u8>)
    ensures
        models(final(out)@) == models(old(out)@).push(class_model(descriptor_type, body@)),
{
    let ghost b = body@;
    out.push(Descriptor::Class { descriptor_type, body });
    assert(models(out@) =~= models(old(out)@).push(class_model(descriptor_type, b)));
}

pub fn push_interface(out: &mut Vec<Descriptor>, number: u8, class: u8, sub_class: u8, protocol: u8)
    ensures
        models(final(out)@) == models(old(out)@).push(
            DescriptorModel::Interface { number, class, sub_class, protocol },
        ),
{
    out.push(Descriptor::Interface { number, class, sub_class, protocol });
    assert(models(out@) =~= models(old(out)@).push(
        DescriptorModel::Interface { number, class, sub_class, protocol },
    ));
}

/// Low byte of a 16-bit field; such fields go low byte first on the wire.
pub open spec fn lo(v: u16) -> u8 {
    (v % 256) as u8
}

pub open spec fn hi(v: u16) -> u8 {
    (v / 256) as u8
}

} // verus!
