use vstd::prelude::*;

verus! {

/// Value type code of a boolean option.
pub const TYPE_BOOL: u32 = 0;

/// Value type code of an integer option.
pub const TYPE_INT: u32 = 1;

/// Value type code of a fixed-point option.
pub const TYPE_FIXED: u32 = 2;

/// Value type code of a text option.
pub const TYPE_STRING: u32 = 3;

/// Value type code of a button, an option without a value.
pub const TYPE_BUTTON: u32 = 4;

/// Value type code of a group header, an option without a value.
pub const TYPE_GROUP: u32 = 5;

/// Unit code: the value has no unit.
pub const UNIT_NONE: u32 = 0;

/// Unit code: pixels.
pub const UNIT_PIXEL: u32 = 1;

/// Unit code: bits.
pub const UNIT_BIT: u32 = 2;

/// Unit code: millimetres.
pub const UNIT_MM: u32 = 3;

/// Unit code: dots per inch.
pub const UNIT_DPI: u32 = 4;

/// Unit code: percent.
pub const UNIT_PERCENT: u32 = 5;

/// Unit code: microseconds.
pub const UNIT_MICROSECOND: u32 = 6;

/// Bit of the capability word: the value can be set in software.
pub const CAP_SOFT_SELECT_BIT: u32 = 0;

/// Bit of the capability word: the value can be set by the hardware only.
pub const CAP_HARD_SELECT_BIT: u32 = 1;

/// Bit of the capability word: software can read the value.
pub const CAP_SOFT_DETECT_BIT: u32 = 2;

/// Bit of the capability word: the backend emulates the option.
pub const CAP_EMULATED_BIT: u32 = 3;

/// Bit of the capability word: the backend can pick a value by itself.
pub const CAP_AUTOMATIC_BIT: u32 = 4;

/// Bit of the capability word: the option is currently inactive.
pub const CAP_INACTIVE_BIT: u32 = 5;

/// Bit of the capability word: the option is meant for advanced users.
pub const CAP_ADVANCED_BIT: u32 = 6;

/// The type of the value that an option holds.
#[derive(Debug, Clone, Copy, PartialEq, Eq, Structural)]
pub enum ValueType {
    Bool,
    Int,
    Fixed,
    String,
    Button,
    Group,
}

/// The value type that a documented type code stands for.
pub open spec fn value_type_of(code: u32) -> Option<ValueType> {
    if code == TYPE_BOOL {
        Some(ValueType::Bool)
    } else if code == TYPE_INT {
        Some(ValueType::Int)
    } else if code == TYPE_FIXED {
        Some(ValueType::Fixed)
    } else if code == TYPE_STRING {
        Some(ValueType::String)
    } else if code == TYPE_BUTTON {
        Some(ValueType::Button)
    } else if code == TYPE_GROUP {
        Some(ValueType::Group)
    } else {
        None
    }
}

impl ValueType {
    /// Decodes a type code; `None` for a code that the protocol does not define.
    pub fn from_code(code: u32) -> (r: Option<ValueType>)
        ensures
            r == value_type_of(code),
    {
        match code {
            TYPE_BOOL => Some(ValueType::Bool),
            TYPE_INT => Some(ValueType::Int),
            TYPE_FIXED => Some(ValueType::Fixed),
            TYPE_STRING => Some(ValueType::String),
            TYPE_BUTTON => Some(ValueType::Button),
            TYPE_GROUP => Some(ValueType::Group),
            _ => None,
        }
    }

    /// Whether options of this type carry a value (buttons and groups do not).
    pub open spec fn has_value(self) -> bool {
        !(self is Button || self is Group)
    }
}

/// The physical unit of an option's value.
#[derive(Debug, Clone, Copy, PartialEq, Eq, Structural)]
pub enum Unit {
    /// Value is unit-less (e.g., page count).
    Unitless,
    /// Value is in number of pixels.
    Pixel,
    /// Value is in number of bits.
    Bit,
    /// Value is in millimeters.
    MM,
    /// Value is a resolution in dots/inch.
    DPI,
    /// Value is a percentage.
    Percent,
    /// Value is time in microseconds.
    Microsecond,
}

/// The unit that a documented unit code stands for.
pub open spec fn unit_of(code: u32) -> Option<Unit> {
    if code == UNIT_NONE {
        Some(Unit::Unitless)
    } else if code == UNIT_PIXEL {
        Some(Unit::Pixel)
    } else if code == UNIT_BIT {
        Some(Unit::Bit)
    } else if code == UNIT_MM {
        Some(Unit::MM)
    } else if code == UNIT_DPI {
        Some(Unit::DPI)
    } else if code == UNIT_PERCENT {
        Some(Unit::Percent)
    } else if code == UNIT_MICROSECOND {
        Some(Unit::Microsecond)
    } else {
        None
    }
}

/// The code of each unit on the wire.
pub open spec fn unit_code(unit: Unit) -> u32 {
    match unit {
        Unit::Unitless => UNIT_NONE,
        Unit::Pixel => UNIT_PIXEL,
        Unit::Bit => UNIT_BIT,
        Unit::MM => UNIT_MM,
        Unit::DPI => UNIT_DPI,
        Unit::Percent => UNIT_PERCENT,
        Unit::Microsecond => UNIT_MICROSECOND,
    }
}

impl Unit {
    /// Decodes a unit code; `None` for a code that the protocol does not define.
    pub fn from_code(code: u32) -> (r: Option<Unit>)
        ensures
            r == unit_of(code),
    {
        match code {
            UNIT_NONE => Some(Unit::Unitless),
            UNIT_PIXEL => Some(Unit::Pixel),
            UNIT_BIT => Some(Unit::Bit),
            UNIT_MM => Some(Unit::MM),
            UNIT_DPI => Some(Unit::DPI),
            UNIT_PERCENT => Some(Unit::Percent),
            UNIT_MICROSECOND => Some(Unit::Microsecond),
            _ => None,
        }
    }
}

impl From<Unit> for u32 {
    fn from(unit: Unit) -> u32 {
        match unit {
            Unit::Unitless => UNIT_NONE,
            Unit::Pixel => UNIT_PIXEL,
            Unit::Bit => UNIT_BIT,
            Unit::MM => UNIT_MM,
            Unit::DPI => UNIT_DPI,
            Unit::Percent => UNIT_PERCENT,
            Unit::Microsecond => UNIT_MICROSECOND,
        }
    }
}

impl vstd::std_specs::convert::FromSpecImpl<Unit> for u32 {
    open spec fn obeys_from_spec() -> bool {
        true
    }

    open spec fn from_spec(unit: Unit) -> u32 {
        unit_code(unit)
    }
}

/// Who may change an option's value.
#[derive(Debug, Clone, Copy, PartialEq, Eq, Structural)]
pub enum Settable {
    /// The option value can be set in software.
    Software,
    /// The option value can only be set by physical hardware (e.g. a switch).
    Hardware {
        /// The option's value is visible to software.
        software_visible: bool,
    },
}

/// What may be done with an option, decoded from its capability word.
#[derive(Debug, Clone, Copy, PartialEq, Eq, Structural)]
pub struct Capabilities {
    pub settable: Settable,
    /// The capability is not directly supported by the device and is instead emulated in the backend.
    pub emulated: bool,
    /// The backend (or the device) can pick a reasonable value automatically.
    pub automatic: bool,
    /// The option is not currently active (e.g., because it's meaningful only if another option is set to some other value).
    pub inactive: bool,
    /// The option should be considered an "advanced user option".
    pub advanced: bool,
}

/// Whether bit `bit` (0 = least significant) of `word` is set.
pub open spec fn flag(word: u32, bit: u32) -> bool {
    (word >> bit) & 1 == 1
}

/// The capabilities that a capability word stands for. Bits 7 and up are
/// ignored. When both the software-settable and the hardware-settable bits
/// are set, software wins.
pub open spec fn capabilities_of(word: u32) -> Capabilities {
    Capabilities {
        settable: if flag(word, CAP_SOFT_SELECT_BIT) {
            Settable::Software
        } else {
            Settable::Hardware { software_visible: flag(word, CAP_SOFT_DETECT_BIT) }
        },
        emulated: flag(word, CAP_EMULATED_BIT),
        automatic: flag(word, CAP_AUTOMATIC_BIT),
        inactive: flag(word, CAP_INACTIVE_BIT),
        advanced: flag(word, CAP_ADVANCED_BIT),
    }
}

/// Any capability word decodes: when its software-settable bit is set the
/// option is software-settable; when that bit is clear and the
/// hardware-settable bit is set, it is hardware-settable, visible to software
/// exactly when the software-visible bit is set.
pub proof fn lemma_settable_bits(word: u32)
    ensures
        word % 2 == 1 ==> capabilities_of(word).settable == Settable::Software,
        word % 2 == 0 && (word / 2) % 2 == 1 ==> capabilities_of(word).settable == (
        Settable::Hardware { software_visible: (word / 4) % 2 == 1 }),
{
    assert(((word >> 0u32) & 1 == 1) == (word % 2 == 1)) by (bit_vector);
    assert(((word >> 2u32) & 1 == 1) == ((word / 4) % 2 == 1)) by (bit_vector);
}

impl From<u32> for Capabilities {
    fn from(cap: u32) -> Capabilities {
        let software_settable = (cap >> CAP_SOFT_SELECT_BIT) & 1 == 1;
        let software_visible = (cap >> CAP_SOFT_DETECT_BIT) & 1 == 1;
        let emulated = (cap >> CAP_EMULATED_BIT) & 1 == 1;
        let automatic = (cap >> CAP_AUTOMATIC_BIT) & 1 == 1;
        let inactive = (cap >> CAP_INACTIVE_BIT) & 1 == 1;
        let advanced = (cap >> CAP_ADVANCED_BIT) & 1 == 1;
        let settable = if software_settable {
            Settable::Software
        } else {
            Settable::Hardware { software_visible }
        };
        Capabilities { settable, emulated, automatic, inactive, advanced }
    }
}

impl vstd::std_specs::convert::FromSpecImpl<u32> for Capabilities {
    open spec fn obeys_from_spec() -> bool {
        true
    }

    open spec fn from_spec(cap: u32) -> Capabilities {
        capabilities_of(cap)
    }
}


/// Constraint type code: any value of the option's type is allowed.
pub const CONSTRAINT_NONE: u32 = 0;

/// Constraint type code: a numeric range.
pub const CONSTRAINT_RANGE: u32 = 1;

/// Constraint type code: a list of numbers.
pub const CONSTRAINT_WORD_LIST: u32 = 2;

/// Constraint type code: a list of texts.
pub const CONSTRAINT_STRING_LIST: u32 = 3;

/// The most entries that a constraint list may hold. A declared length above
/// it marks a corrupt descriptor, and no walk over a list goes further.
pub const MAX_CONSTRAINT_ITEMS: usize = 65536;

/// A range constraint as the native library lays it out.
#[derive(Debug, Clone, Copy, PartialEq, Eq, Structural)]
pub struct RawRange {
    pub min: i32,
    pub max: i32,
    /// The quantization step; 0 when values are not quantized.
    pub quant: i32,
}

/// What the constraint pointer of a native descriptor points at, read as
/// plain values.
#[derive(Debug, Clone, PartialEq, Eq)]
pub enum ConstraintPayload {
    /// No payload (for an unconstrained option).
    Nothing,
    /// The range record.
    Range(RawRange),
    /// The word array as stored: its first word is the count `n`, followed
    /// by at least `n` more words.
    WordList(Vec<i32>),
    /// The texts before the null entry that ends the pointer array.
    StringList(Vec<Vec<u8>>),
}

/// The set of values that an option may take.
#[derive(Debug, Clone, PartialEq, Eq)]
pub enum Constraint {
    /// Any value of the option's type.
    Unconstrained,
    /// Numbers from `min` to `max`, in steps of `quant` when there is one.
    Range { min: i32, max: i32, quant: Option<i32> },
    /// One of the listed numbers.
    List(Vec<i32>),
    /// One of the listed texts.
    StringList(Vec<Vec<u8>>),
}

/// The mathematical form of a `Constraint`.
pub enum ConstraintView {
    Unconstrained,
    Range { min: i32, max: i32, quant: Option<i32> },
    List(Seq<i32>),
    StringList(Seq<Seq<u8>>),
}

impl View for Constraint {
    type V = ConstraintView;

    open spec fn view(&self) -> ConstraintView {
        match self {
            Constraint::Unconstrained => ConstraintView::Unconstrained,
            Constraint::Range { min, max, quant } => ConstraintView::Range {
                min: *min,
                max: *max,
                quant: *quant,
            },
            Constraint::List(words) => ConstraintView::List(words@),
            Constraint::StringList(texts) => ConstraintView::StringList(texts.deep_view()),
        }
    }
}

/// Whether a stored word array is a well-formed length-prefixed list: its
/// count is within bounds and that many words follow it.
pub open spec fn word_list_ok(words: Seq<i32>) -> bool {
    &&& words.len() >= 1
    &&& 0 <= words[0] <= MAX_CONSTRAINT_ITEMS
    &&& words[0] + 1 <= words.len()
}

/// The entries of a well-formed length-prefixed word list.
pub open spec fn word_list_entries(words: Seq<i32>) -> Seq<i32> {
    words.subrange(1, 1 + words[0])
}

/// Whether a constraint type code and the payload read for it describe a
/// constraint at all.
pub open spec fn constraint_ok(constraint_type: u32, payload: ConstraintPayload) -> bool {
    match payload {
        ConstraintPayload::Nothing => constraint_type == CONSTRAINT_NONE,
        ConstraintPayload::Range(_) => constraint_type == CONSTRAINT_RANGE,
        ConstraintPayload::WordList(words) => constraint_type == CONSTRAINT_WORD_LIST
            && word_list_ok(words@),
        ConstraintPayload::StringList(texts) => constraint_type == CONSTRAINT_STRING_LIST
            && texts.len() <= MAX_CONSTRAINT_ITEMS,
    }
}

/// The constraint that a well-formed payload describes. The quantization
/// step comes from the range's own step field; a step of 0 means none.
pub open spec fn constraint_of(payload: ConstraintPayload) -> ConstraintView {
    match payload {
        ConstraintPayload::Nothing => ConstraintView::Unconstrained,
        ConstraintPayload::Range(range) => ConstraintView::Range {
            min: range.min,
            max: range.max,
            quant: if range.quant == 0 {
                None
            } else {
                Some(range.quant)
            },
        },
        ConstraintPayload::WordList(words) => ConstraintView::List(word_list_entries(words@)),
        ConstraintPayload::StringList(texts) => ConstraintView::StringList(texts.deep_view()),
    }
}

/// How many entries follow the count word `count` of a word list, or `None`
/// when the count is negative or above `MAX_CONSTRAINT_ITEMS` (a corrupt
/// descriptor, whose list must not be read).
pub fn word_list_count(count: i32) -> (r: Option<usize>)
    ensures
        r == (if 0 <= count <= MAX_CONSTRAINT_ITEMS {
            Some(count as usize)
        } else {
            None::<usize>
        }),
{
    if 0 <= count && count as usize <= MAX_CONSTRAINT_ITEMS {
        Some(count as usize)
    } else {
        None
    }
}

/// Tells whether a constraint type code and its payload can be decoded.
pub fn constraint_is_well_formed(constraint_type: u32, payload: &ConstraintPayload) -> (r: bool)
    ensures
        r == constraint_ok(constraint_type, *payload),
{
    match payload {
        ConstraintPayload::Nothing => constraint_type == CONSTRAINT_NONE,
        ConstraintPayload::Range(_) => constraint_type == CONSTRAINT_RANGE,
        ConstraintPayload::WordList(words) => {
            constraint_type == CONSTRAINT_WORD_LIST && words.len() >= 1 && 0 <= words[0]
                && words[0] as usize <= MAX_CONSTRAINT_ITEMS && words[0] as usize + 1
                <= words.len()
        },
        ConstraintPayload::StringList(texts) => {
            constraint_type == CONSTRAINT_STRING_LIST && texts.len() <= MAX_CONSTRAINT_ITEMS
        },
    }
}

impl Constraint {
    /// Decodes the constraint of a descriptor from its type code and the
    /// payload read for that code.
    pub fn new(constraint_type: u32, payload: ConstraintPayload) -> (r: Constraint)
        requires
            constraint_ok(constraint_type, payload),
        ensures
            r@ == constraint_of(payload),
    {
        match payload {
            ConstraintPayload::Nothing => Constraint::Unconstrained,
            ConstraintPayload::Range(range) => Constraint::Range {
                min: range.min,
                max: range.max,
                quant: if range.quant == 0 {
                    None
                } else {
                    Some(range.quant)
                },
            },
            ConstraintPayload::WordList(words) => {
                let n = words[0] as usize;
                let mut entries: Vec<i32> = Vec::new();
                let mut i: usize = 0;
                while i < n
                    invariant
                        word_list_ok(words@),
                        n == words@[0],
                        i <= n,
                        entries@ == words@.subrange(1, 1 + i as int),
                    decreases n - i,
                {
                    entries.push(words[i + 1]);
                    i = i + 1;
                }
                Constraint::List(entries)
            },
            ConstraintPayload::StringList(texts) => Constraint::StringList(texts),
        }
    }
}


/// A native option descriptor, read as plain values: texts as their bytes
/// before the terminating zero (`None` for a null pointer), codes as the
/// native library gives them.
#[derive(Debug, Clone, PartialEq, Eq)]
pub struct RawOptionDescriptor {
    pub name: Option<Vec<u8>>,
    pub title: Option<Vec<u8>>,
    pub desc: Option<Vec<u8>>,
    pub type_: u32,
    pub unit: u32,
    pub size: i32,
    pub cap: u32,
    pub constraint_type: u32,
    pub constraint: ConstraintPayload,
}

/// One configurable parameter of a device, in typed form.
#[derive(Debug, Clone, PartialEq, Eq)]
pub struct OptionDescriptor {
    /// This option's position in the device's option table.
    pub number: i32,
    pub name: Option<Vec<u8>>,
    pub title: Option<Vec<u8>>,
    pub description: Option<Vec<u8>>,
    pub value_type: ValueType,
    pub capabilities: Capabilities,
    pub unit: Unit,
    /// Size in bytes of the option's value buffer.
    pub size: i32,
    pub constraint: Constraint,
}

/// Whether a native descriptor keeps the protocol's promises: known type and
/// unit codes, a size that is not negative, and a decodable constraint.
pub open spec fn raw_descriptor_ok(raw: RawOptionDescriptor) -> bool {
    &&& value_type_of(raw.type_) is Some
    &&& unit_of(raw.unit) is Some
    &&& raw.size >= 0
    &&& constraint_ok(raw.constraint_type, raw.constraint)
}

/// Whether `d` is the decoding of the native descriptor `raw` at position
/// `number` of the option table.
pub open spec fn decodes_to(raw: RawOptionDescriptor, number: i32, d: OptionDescriptor) -> bool {
    &&& d.number == number
    &&& d.name == raw.name
    &&& d.title == raw.title
    &&& d.description == raw.desc
    &&& d.value_type == value_type_of(raw.type_).unwrap()
    &&& d.capabilities == capabilities_of(raw.cap)
    &&& d.unit == unit_of(raw.unit).unwrap()
    &&& d.size == raw.size
    &&& d.constraint@ == constraint_of(raw.constraint)
}

impl RawOptionDescriptor {
    /// Tells whether this descriptor can be decoded. One that cannot is a
    /// broken promise of the native library.
    pub fn is_well_formed(&self) -> (r: bool)
        ensures
            r == raw_descriptor_ok(*self),
    {
        ValueType::from_code(self.type_).is_some() && Unit::from_code(self.unit).is_some()
            && self.size >= 0 && constraint_is_well_formed(self.constraint_type, &self.constraint)
    }
}

impl OptionDescriptor {
    /// Decodes the native descriptor found at position `number` of a
    /// device's option table.
    pub fn from_descriptor(descriptor: RawOptionDescriptor, number: i32) -> (r: OptionDescriptor)
        requires
            raw_descriptor_ok(descriptor),
        ensures
            decodes_to(descriptor, number, r),
    {
        let value_type = ValueType::from_code(descriptor.type_).unwrap();
        let unit = Unit::from_code(descriptor.unit).unwrap();
        let RawOptionDescriptor {
            name,
            title,
            desc,
            type_: _,
            unit: _,
            size,
            cap,
            constraint_type,
            constraint,
        } = descriptor;
        OptionDescriptor {
            number,
            name,
            title,
            description: desc,
            value_type,
            capabilities: Capabilities::from(cap),
            unit,
            size,
            constraint: Constraint::new(constraint_type, constraint),
        }
    }
}


/// Walks a device's option table. Position 0 holds the table's length, the
/// number of options including itself; the options proper are at positions
/// 1 up to that length. The walk ends at the length or at the first position
/// for which the native library has no descriptor, whichever comes first.
#[derive(Debug, Clone, Copy, PartialEq, Eq, Structural)]
pub struct OptionDescriptorIterator {
    /// The table's length, as read from position 0.
    pub length: i32,
    /// The position of the next option to read.
    pub position: i32,
    /// Whether the native library reported no descriptor at a position.
    pub ended: bool,
}

impl OptionDescriptorIterator {
    /// Whether the walk is in a state that it can reach.
    pub open spec fn wf(self) -> bool {
        self.position >= 1
    }

    /// The position to read next, if the walk has not ended.
    pub open spec fn next_spec(self) -> Option<i32> {
        if !self.ended && self.position < self.length {
            Some(self.position)
        } else {
            None
        }
    }

    /// A walk over a table of `length` entries, which starts at position 1.
    pub fn new(length: i32) -> (r: OptionDescriptorIterator)
        ensures
            r.wf(),
            r.length == length,
            r.position == 1,
            !r.ended,
    {
        OptionDescriptorIterator { length, position: 1, ended: false }
    }

    /// The position whose descriptor is to be read next; `None` once the walk
    /// is over.
    pub fn next_ordinal(&self) -> (r: Option<i32>)
        ensures
            r == self.next_spec(),
    {
        if !self.ended && self.position < self.length {
            Some(self.position)
        } else {
            None
        }
    }

    /// Takes what the native library gave for the position `next_ordinal`
    /// named: `None` for a null descriptor, which ends the walk, or the
    /// descriptor, which is decoded with its position as its number.
    pub fn accept(&mut self, descriptor: Option<RawOptionDescriptor>) -> (r: Option<OptionDescriptor>)
        requires
            old(self).wf(),
            old(self).next_spec() is Some,
            descriptor matches Some(raw) ==> raw_descriptor_ok(raw),
        ensures
            final(self).wf(),
            final(self).length == old(self).length,
            descriptor is None ==> r is None && final(self).ended && final(self).position == old(
                self,
            ).position,
            descriptor matches Some(raw) ==> (r matches Some(d) && decodes_to(
                raw,
                old(self).position,
                d,
            ) && d.number >= 1 && !final(self).ended && final(self).position == old(self).position
                + 1),
    {
        match descriptor {
            None => {
                self.ended = true;
                None
            },
            Some(raw) => {
                let d = OptionDescriptor::from_descriptor(raw, self.position);
                self.position = self.position + 1;
                Some(d)
            },
        }
    }
}

} // verus!
