use libsane::option_descriptor::constraint_is_well_formed;
use libsane::{
    word_list_count, Capabilities, Constraint, ConstraintPayload, NullTerminatedWalk,
    OptionDescriptor, OptionDescriptorIterator, RawOptionDescriptor, RawRange, Settable, Unit,
    ValueType, MAX_CONSTRAINT_ITEMS,
};

fn raw(name: &str, type_: u32, size: i32, cap: u32) -> RawOptionDescriptor {
    RawOptionDescriptor {
        name: Some(name.as_bytes().to_vec()),
        title: Some(b"Title".to_vec()),
        desc: None,
        type_,
        unit: 0,
        size,
        cap,
        constraint_type: 0,
        constraint: ConstraintPayload::Nothing,
    }
}

#[test]
fn software_bit_gives_software_settable() {
    assert_eq!(Capabilities::from(0b1u32).settable, Settable::Software);
    assert_eq!(Capabilities::from(0b101u32).settable, Settable::Software);
}

#[test]
fn both_settable_bits_resolve_to_software() {
    assert_eq!(Capabilities::from(0b011u32).settable, Settable::Software);
}

#[test]
fn hardware_settable_carries_visibility() {
    assert_eq!(
        Capabilities::from(0b110u32).settable,
        Settable::Hardware { software_visible: true }
    );
    assert_eq!(
        Capabilities::from(0b010u32).settable,
        Settable::Hardware { software_visible: false }
    );
}

#[test]
fn capability_flags_and_high_bits() {
    let c = Capabilities::from(0xFFFF_FF00u32 | 0b0101_1001);
    assert_eq!(c.settable, Settable::Software);
    assert!(c.emulated);
    assert!(c.automatic);
    assert!(!c.inactive);
    assert!(c.advanced);
    let none = Capabilities::from(0xFFFF_FF80u32);
    assert_eq!(none.settable, Settable::Hardware { software_visible: false });
    assert!(!none.emulated && !none.automatic && !none.inactive && !none.advanced);
}

#[test]
fn value_type_and_unit_codes() {
    assert_eq!(ValueType::from_code(0), Some(ValueType::Bool));
    assert_eq!(ValueType::from_code(1), Some(ValueType::Int));
    assert_eq!(ValueType::from_code(2), Some(ValueType::Fixed));
    assert_eq!(ValueType::from_code(3), Some(ValueType::String));
    assert_eq!(ValueType::from_code(4), Some(ValueType::Button));
    assert_eq!(ValueType::from_code(5), Some(ValueType::Group));
    assert_eq!(ValueType::from_code(6), None);
    assert_eq!(Unit::from_code(0), Some(Unit::Unitless));
    assert_eq!(Unit::from_code(4), Some(Unit::DPI));
    assert_eq!(Unit::from_code(6), Some(Unit::Microsecond));
    assert_eq!(Unit::from_code(7), None);
    assert_eq!(u32::from(Unit::DPI), 4);
    assert_eq!(u32::from(Unit::Microsecond), 6);
    assert_eq!(u32::from(Unit::Unitless), 0);
}

#[test]
fn range_constraint_reads_its_step_field() {
    let c = Constraint::new(1, ConstraintPayload::Range(RawRange { min: 0, max: 100, quant: 5 }));
    assert_eq!(c, Constraint::Range { min: 0, max: 100, quant: Some(5) });
}

#[test]
fn range_constraint_without_step() {
    let c = Constraint::new(1, ConstraintPayload::Range(RawRange { min: -10, max: 10, quant: 0 }));
    assert_eq!(c, Constraint::Range { min: -10, max: 10, quant: None });
}

#[test]
fn word_list_constraint_is_length_prefixed() {
    let payload = ConstraintPayload::WordList(vec![3, 75, 150, 300, 999]);
    assert!(constraint_is_well_formed(2, &payload));
    assert_eq!(Constraint::new(2, payload), Constraint::List(vec![75, 150, 300]));
    let empty = ConstraintPayload::WordList(vec![0]);
    assert_eq!(Constraint::new(2, empty), Constraint::List(vec![]));
}

#[test]
fn word_list_count_bounds() {
    assert_eq!(word_list_count(3), Some(3));
    assert_eq!(word_list_count(0), Some(0));
    assert_eq!(word_list_count(-1), None);
    assert_eq!(word_list_count(MAX_CONSTRAINT_ITEMS as i32), Some(MAX_CONSTRAINT_ITEMS));
    assert_eq!(word_list_count(MAX_CONSTRAINT_ITEMS as i32 + 1), None);
}

#[test]
fn malformed_constraints_are_rejected() {
    assert!(!constraint_is_well_formed(2, &ConstraintPayload::WordList(vec![5, 1, 2])));
    assert!(!constraint_is_well_formed(2, &ConstraintPayload::WordList(vec![-1])));
    assert!(!constraint_is_well_formed(2, &ConstraintPayload::WordList(vec![])));
    assert!(!constraint_is_well_formed(4, &ConstraintPayload::Nothing));
    assert!(!constraint_is_well_formed(1, &ConstraintPayload::Nothing));
    assert!(constraint_is_well_formed(0, &ConstraintPayload::Nothing));
}

#[test]
fn string_list_walk_stops_at_null() {
    let entries: [Option<&str>; 5] = [Some("Lineart"), Some("Gray"), Some("Color"), None, Some("After")];
    let mut walk = NullTerminatedWalk::new(MAX_CONSTRAINT_ITEMS);
    let mut texts: Vec<Vec<u8>> = Vec::new();
    while walk.wants_more() {
        match entries[walk.count] {
            Some(t) => {
                texts.push(t.as_bytes().to_vec());
                walk.record(true);
            }
            None => walk.record(false),
        }
    }
    assert!(walk.ended);
    assert_eq!(walk.count, 3);
    let c = Constraint::new(3, ConstraintPayload::StringList(texts));
    assert_eq!(
        c,
        Constraint::StringList(vec![b"Lineart".to_vec(), b"Gray".to_vec(), b"Color".to_vec()])
    );
    if let Constraint::StringList(l) = c {
        assert_eq!(l.len(), 3);
    }
}

#[test]
fn walk_counts_entries_before_null() {
    let entries = [true, true, false, true];
    let mut walk = NullTerminatedWalk::new(100);
    while walk.wants_more() {
        walk.record(entries[walk.count]);
    }
    assert_eq!(walk.count, 2);
    assert!(walk.ended);
}

#[test]
fn walk_stops_at_its_limit() {
    let mut walk = NullTerminatedWalk::new(3);
    while walk.wants_more() {
        walk.record(true);
    }
    assert_eq!(walk.count, 3);
    assert!(!walk.ended);
}

#[test]
fn empty_list_walk() {
    let mut walk = NullTerminatedWalk::new(10);
    assert!(walk.wants_more());
    walk.record(false);
    assert!(!walk.wants_more());
    assert_eq!(walk.count, 0);
}

#[test]
fn descriptor_decodes_every_field() {
    let mut r = raw("resolution", 1, 4, 0b101);
    r.unit = 4;
    r.constraint_type = 1;
    r.constraint = ConstraintPayload::Range(RawRange { min: 75, max: 1200, quant: 25 });
    assert!(r.is_well_formed());
    let d = OptionDescriptor::from_descriptor(r, 7);
    assert_eq!(d.number, 7);
    assert_eq!(d.name, Some(b"resolution".to_vec()));
    assert_eq!(d.title, Some(b"Title".to_vec()));
    assert_eq!(d.description, None);
    assert_eq!(d.value_type, ValueType::Int);
    assert_eq!(d.unit, Unit::DPI);
    assert_eq!(d.size, 4);
    assert_eq!(d.capabilities.settable, Settable::Software);
    assert_eq!(d.constraint, Constraint::Range { min: 75, max: 1200, quant: Some(25) });
}

#[test]
fn group_descriptor_without_name() {
    let mut r = raw("", 5, 0, 0);
    r.name = None;
    assert!(r.is_well_formed());
    let d = OptionDescriptor::from_descriptor(r, 1);
    assert_eq!(d.name, None);
    assert_eq!(d.value_type, ValueType::Group);
}

#[test]
fn malformed_descriptors_are_rejected() {
    assert!(!raw("x", 6, 4, 1).is_well_formed());
    assert!(!raw("x", 1, -4, 1).is_well_formed());
    let mut bad_unit = raw("x", 1, 4, 1);
    bad_unit.unit = 7;
    assert!(!bad_unit.is_well_formed());
    let mut bad_constraint = raw("x", 1, 4, 1);
    bad_constraint.constraint_type = 2;
    assert!(!bad_constraint.is_well_formed());
}

#[test]
fn option_walk_yields_positions_from_one() {
    let mut it = OptionDescriptorIterator::new(4);
    let mut numbers = Vec::new();
    while let Some(n) = it.next_ordinal() {
        let d = it.accept(Some(raw("opt", 1, 4, 1))).unwrap();
        assert_eq!(d.number, n);
        numbers.push(d.number);
    }
    assert_eq!(numbers, vec![1, 2, 3]);
}

#[test]
fn option_walk_stops_at_null_descriptor() {
    let mut it = OptionDescriptorIterator::new(10);
    assert_eq!(it.next_ordinal(), Some(1));
    assert!(it.accept(Some(raw("a", 0, 1, 1))).is_some());
    assert_eq!(it.next_ordinal(), Some(2));
    assert!(it.accept(None).is_none());
    assert_eq!(it.next_ordinal(), None);
}

#[test]
fn option_walk_of_empty_table() {
    let it = OptionDescriptorIterator::new(1);
    assert_eq!(it.next_ordinal(), None);
    let it0 = OptionDescriptorIterator::new(0);
    assert_eq!(it0.next_ordinal(), None);
}
