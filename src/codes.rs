use vstd::prelude::*;

verus! {

// Audio function and interface classes.
pub const AUDIO: u8 = 0x01;
pub const AUDIO_FUNCTION: u8 = 0x01;
pub const FUNCTION_SUBCLASS_UNDEFINED: u8 = 0x00;
pub const AF_VERSION_02_00: u8 = 0x20;
pub const AUDIOCONTROL: u8 = 0x01;
pub const AUDIOSTREAMING: u8 = 0x02;
pub const IP_UNDEFINED: u8 = 0x00;
pub const IP_VERSION_02_00: u8 = 0x20;

// Descriptor types.
pub const INTERFACE: u8 = 0x04;
pub const ENDPOINT: u8 = 0x05;
pub const INTERFACE_ASSOCIATION: u8 = 0x0B;
pub const CS_INTERFACE: u8 = 0x24;
pub const CS_ENDPOINT: u8 = 0x25;

// Audio control interface descriptor subtypes.
pub const HEADER: u8 = 0x01;
pub const INPUT_TERMINAL: u8 = 0x02;
pub const OUTPUT_TERMINAL: u8 = 0x03;
pub const CLOCK_SOURCE: u8 = 0x0A;

// Audio streaming interface descriptor subtypes.
pub const AS_GENERAL: u8 = 0x01;
pub const FORMAT_TYPE: u8 = 0x02;
pub const FORMAT_TYPE_I: u8 = 0x01;

// Audio streaming endpoint descriptor subtype.
pub const EP_GENERAL: u8 = 0x01;

// Entity identifiers of the audio function's topology.
pub const ID_CLOCK_SRC: u8 = 0x01;
pub const ID_INPUT_TERMINAL: u8 = 0x02;
pub const ID_INPUT_STREAMING: u8 = 0x03;
pub const ID_OUTPUT_STREAMING: u8 = 0x04;
pub const ID_OUTPUT_TERMINAL: u8 = 0x05;

// Standard requests.
pub const GET_INTERFACE: u8 = 10;
pub const SET_INTERFACE: u8 = 11;

// Class-specific requests and control selectors.
pub const REQUEST_CUR: u8 = 0x01;
pub const REQUEST_RANGE: u8 = 0x02;
pub const CS_SAM_FREQ_CONTROL: u16 = 0x01;

// Alternate setting that carries no bandwidth.
pub const DEFAULT_ALTERNATE_SETTING: u8 = 0;

} // verus!
