//! A typed model of the SANE scanner-control protocol: status codes,
//! option descriptors, constraints, option values and acquisition
//! parameters, decoded from the plain values that the native library hands
//! out. Calls into the native library itself are made by the caller; every
//! decision about what to ask of it and how to read its answers is here.
pub mod device;
pub mod device_list;
pub mod error;
pub mod option_descriptor;
pub mod value;

pub use device::{
    get_option_request, get_option_result, get_params_result, set_option_request, FrameType,
    GetRequest, RawParameters, ScanParameters, SetRequest,
};
pub use device_list::{DeviceDescription, NullTerminatedWalk, MAX_LIST_ENTRIES};
pub use error::{is_known_status, SaneError};
pub use option_descriptor::{
    word_list_count, Capabilities, Constraint, ConstraintPayload, OptionDescriptor,
    OptionDescriptorIterator, RawOptionDescriptor, RawRange, Settable, Unit, ValueType,
    MAX_CONSTRAINT_ITEMS,
};
pub use value::{decode_value, encode_value, layout_is_valid, ByteOrder, Value};
