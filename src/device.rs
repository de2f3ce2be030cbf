use vstd::prelude::*;

use crate::error::{is_status_code, status_result, SaneError, STATUS_GOOD};
use crate::option_descriptor::{OptionDescriptor, Settable, ValueType};
use crate::value::{
    buffer_value, decode_value, encode_value, kind_matches, layout_ok,
    lemma_value_round_trip, size_fits, value_bytes, ByteOrder, Value, ValueView,
};

verus! {

/// Control action code: read an option's value.
pub const ACTION_GET_VALUE: u32 = 0;

/// Control action code: write an option's value.
pub const ACTION_SET_VALUE: u32 = 1;

/// Frame format code: a single gray band.
pub const FRAME_GRAY: u32 = 0;

/// Frame format code: pixel-interleaved red, green and blue.
pub const FRAME_RGB: u32 = 1;

/// Frame format code: the red band.
pub const FRAME_RED: u32 = 2;

/// Frame format code: the green band.
pub const FRAME_GREEN: u32 = 3;

/// Frame format code: the blue band.
pub const FRAME_BLUE: u32 = 4;

/// The format of an image frame.
#[derive(Debug, Clone, Copy, PartialEq, Eq, Structural)]
pub enum FrameType {
    /// Band covering human visual range.
    Gray,
    /// Pixel-interleaved red/green/blue bands.
    RGB,
    /// Red band of a red/green/blue image.
    Red,
    /// Green band of a red/green/blue image.
    Green,
    /// Blue band of a red/green/blue image.
    Blue,
}

/// Acquisition parameters as the native library fills them in.
#[derive(Debug, Clone, Copy, PartialEq, Eq, Structural)]
pub struct RawParameters {
    pub format: u32,
    pub last_frame: i32,
    pub bytes_per_line: i32,
    pub pixels_per_line: i32,
    pub lines: i32,
    pub depth: i32,
}

/// The geometry of the next image frame.
#[derive(Debug, Clone, Copy, PartialEq, Eq, Structural)]
pub struct ScanParameters {
    /// The format of the next frame to be returned.
    pub format: FrameType,
    /// Whether the frame being acquired is the last frame of a multi frame image.
    pub last_frame: bool,
    /// How many scan lines the frame is comprised of; `None` if that is not known a priori.
    pub lines: Option<i32>,
    /// Number of bytes per scan line.
    pub bytes_per_line: i32,
    /// Number of pixels per scan line.
    pub pixels_per_line: i32,
    /// Number of bits per sample.
    pub depth: i32,
}

/// The frame type that a documented format code stands for.
pub open spec fn frame_type_of(code: u32) -> Option<FrameType> {
    if code == FRAME_GRAY {
        Some(FrameType::Gray)
    } else if code == FRAME_RGB {
        Some(FrameType::RGB)
    } else if code == FRAME_RED {
        Some(FrameType::Red)
    } else if code == FRAME_GREEN {
        Some(FrameType::Green)
    } else if code == FRAME_BLUE {
        Some(FrameType::Blue)
    } else {
        None
    }
}

/// Whether raw parameters keep the protocol's promises: a known frame
/// format, and a last-frame flag of 0 or 1.
pub open spec fn parameters_ok(raw: RawParameters) -> bool {
    &&& frame_type_of(raw.format) is Some
    &&& (raw.last_frame == 0 || raw.last_frame == 1)
}

/// The parameters that well-formed raw parameters stand for: a line count
/// of -1 means that the count is not known.
pub open spec fn parameters_of(raw: RawParameters) -> ScanParameters {
    ScanParameters {
        format: frame_type_of(raw.format).unwrap(),
        last_frame: raw.last_frame == 1,
        lines: if raw.lines == -1 {
            None
        } else {
            Some(raw.lines)
        },
        bytes_per_line: raw.bytes_per_line,
        pixels_per_line: raw.pixels_per_line,
        depth: raw.depth,
    }
}

impl RawParameters {
    /// Tells whether these parameters can be decoded. Ones that cannot are a
    /// broken promise of the native library.
    pub fn is_well_formed(&self) -> (r: bool)
        ensures
            r == parameters_ok(*self),
    {
        self.format <= FRAME_BLUE && (self.last_frame == 0 || self.last_frame == 1)
    }
}

impl ScanParameters {
    /// Decodes the parameters that the native library filled in.
    pub fn from_raw(params: RawParameters) -> (r: ScanParameters)
        requires
            parameters_ok(params),
        ensures
            r == parameters_of(params),
    {
        let format = match params.format {
            FRAME_GRAY => FrameType::Gray,
            FRAME_RGB => FrameType::RGB,
            FRAME_RED => FrameType::Red,
            FRAME_GREEN => FrameType::Green,
            _ => FrameType::Blue,
        };
        ScanParameters {
            format,
            last_frame: params.last_frame == 1,
            lines: if params.lines != -1 {
                Some(params.lines)
            } else {
                None
            },
            bytes_per_line: params.bytes_per_line,
            pixels_per_line: params.pixels_per_line,
            depth: params.depth,
        }
    }
}

/// The outcome of a query of the acquisition parameters: the native library
/// answered `status` and, on success, filled in `params`.
pub fn get_params_result(status: u32, params: RawParameters) -> (r: Result<
    ScanParameters,
    SaneError,
>)
    requires
        is_status_code(status),
        status == STATUS_GOOD ==> parameters_ok(params),
    ensures
        status != STATUS_GOOD ==> r == Err::<ScanParameters, SaneError>(
            status_result(status)->Err_0,
        ),
        status == STATUS_GOOD ==> r == Ok::<ScanParameters, SaneError>(parameters_of(params)),
{
    match SaneError::from_retcode(status) {
        Err(e) => Err(e),
        Ok(()) => Ok(ScanParameters::from_raw(params)),
    }
}

/// Whether software can read the value of the option that `d` describes: it
/// has a value, and is not a hardware-only option hidden from software.
pub open spec fn readable(d: OptionDescriptor) -> bool {
    &&& d.value_type.has_value()
    &&& d.capabilities.settable != (Settable::Hardware { software_visible: false })
}

/// Whether software can write the value of the option that `d` describes.
pub open spec fn writable(d: OptionDescriptor) -> bool {
    d.capabilities.settable is Software
}

/// The option buffers of a device, by option number, as the native library
/// keeps them.
pub type OptionStore = Map<i32, Seq<u8>>;

/// The store after setting option `d` to `v`: options that only hardware
/// can set are left as they were.
pub open spec fn apply_set(
    store: OptionStore,
    d: OptionDescriptor,
    v: ValueView,
    order: ByteOrder,
) -> OptionStore {
    if writable(d) {
        store.insert(d.number, value_bytes(v, d.size as nat, order))
    } else {
        store
    }
}

/// What reading option `d` from the store yields: nothing for an option
/// that software cannot read, else the value in its buffer.
pub open spec fn read_back(
    store: OptionStore,
    d: OptionDescriptor,
    order: ByteOrder,
) -> Option<ValueView> {
    if readable(d) {
        Some(buffer_value(d.value_type, store[d.number], order))
    } else {
        None
    }
}

/// What reading an option's value asks of the native library.
#[derive(Debug, Clone, Copy, PartialEq, Eq, Structural)]
pub enum GetRequest {
    /// The option has no value that software can read: the answer is `None`
    /// and the native library is not asked.
    NoValue,
    /// Read the value of option `number` into a buffer of `size` bytes.
    Read { number: i32, size: usize },
}

/// What writing an option's value asks of the native library.
#[derive(Debug, Clone, PartialEq, Eq)]
pub enum SetRequest {
    /// Only hardware can set the option: the write is a no-op that succeeds.
    Skip,
    /// Write `bytes` as the value of option `number`.
    Write { number: i32, bytes: Vec<u8> },
}

/// Decides how to read the value of the option that `descriptor` describes.
pub fn get_option_request(descriptor: &OptionDescriptor) -> (r: GetRequest)
    requires
        descriptor.size >= 0,
    ensures
        readable(*descriptor) ==> r == (GetRequest::Read {
            number: descriptor.number,
            size: descriptor.size as usize,
        }),
        !readable(*descriptor) ==> r == GetRequest::NoValue,
{
    if let Settable::Hardware { software_visible: false } = descriptor.capabilities.settable {
        return GetRequest::NoValue;
    }
    match descriptor.value_type {
        ValueType::Group | ValueType::Button => GetRequest::NoValue,
        _ => GetRequest::Read { number: descriptor.number, size: descriptor.size as usize },
    }
}

/// The outcome of a read that `get_option_request` asked for: the native
/// library answered `status` and, on success, filled `buffer`.
pub fn get_option_result(
    descriptor: &OptionDescriptor,
    status: u32,
    buffer: &Vec<u8>,
    order: ByteOrder,
) -> (r: Result<Value, SaneError>)
    requires
        readable(*descriptor),
        is_status_code(status),
        status == STATUS_GOOD ==> layout_ok(descriptor.value_type, buffer@),
    ensures
        status != STATUS_GOOD ==> r == Err::<Value, SaneError>(status_result(status)->Err_0),
        status == STATUS_GOOD ==> r is Ok && r->Ok_0@ == buffer_value(
            descriptor.value_type,
            buffer@,
            order,
        ),
{
    match SaneError::from_retcode(status) {
        Err(e) => Err(e),
        Ok(()) => Ok(decode_value(descriptor.value_type, buffer, order)),
    }
}

/// Decides how to write `value` to the option that `descriptor` describes.
pub fn set_option_request(
    descriptor: &OptionDescriptor,
    value: &Value,
    order: ByteOrder,
) -> (r: SetRequest)
    requires
        kind_matches(value@, descriptor.value_type),
        writable(*descriptor) ==> size_fits(value@, descriptor.size as int),
    ensures
        !writable(*descriptor) ==> r == SetRequest::Skip,
        writable(*descriptor) ==> (r matches SetRequest::Write { number, bytes } && number
            == descriptor.number && bytes@ == value_bytes(value@, descriptor.size as nat, order)),
{
    if let Settable::Hardware { .. } = descriptor.capabilities.settable {
        return SetRequest::Skip;
    }
    let bytes = encode_value(value, descriptor.size as usize, order);
    SetRequest::Write { number: descriptor.number, bytes }
}


/// Setting a writable option that has a value to a value of its type and
/// size, then reading it, gives that value back.
pub proof fn lemma_set_then_get(
    store: OptionStore,
    d: OptionDescriptor,
    v: ValueView,
    order: ByteOrder,
)
    requires
        writable(d),
        d.value_type.has_value(),
        kind_matches(v, d.value_type),
        size_fits(v, d.size as int),
    ensures
        layout_ok(d.value_type, apply_set(store, d, v, order)[d.number]),
        read_back(apply_set(store, d, v, order), d, order) == Some(v),
{
    lemma_value_round_trip(v, d.value_type, d.size as nat, order);
}

/// Setting an option twice to the same value leaves the device as setting
/// it once does, so a read after either gives the same answer.
pub proof fn lemma_set_idempotent(
    store: OptionStore,
    d: OptionDescriptor,
    v: ValueView,
    order: ByteOrder,
)
    ensures
        apply_set(apply_set(store, d, v, order), d, v, order) == apply_set(store, d, v, order),
        read_back(apply_set(apply_set(store, d, v, order), d, v, order), d, order) == read_back(
            apply_set(store, d, v, order),
            d,
            order,
        ),
{
    assert(apply_set(apply_set(store, d, v, order), d, v, order) =~= apply_set(store, d, v, order));
}

/// An option that only hardware can set and that software cannot see reads
/// as nothing, and setting it changes no option of the device.
pub proof fn lemma_hidden_hardware_option(
    store: OptionStore,
    d: OptionDescriptor,
    v: ValueView,
    order: ByteOrder,
)
    requires
        d.capabilities.settable == (Settable::Hardware { software_visible: false }),
    ensures
        read_back(store, d, order) is None,
        apply_set(store, d, v, order) == store,
{
}

/// Group headers and buttons have no value: reading one gives nothing.
pub proof fn lemma_no_value_options(store: OptionStore, d: OptionDescriptor, order: ByteOrder)
    requires
        d.value_type is Group || d.value_type is Button,
    ensures
        read_back(store, d, order) is None,
{
}

} // verus!
