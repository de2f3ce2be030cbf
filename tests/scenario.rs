use std::collections::HashMap;

use libsane::{
    get_option_request, get_option_result, set_option_request, ByteOrder, ConstraintPayload,
    GetRequest, OptionDescriptor, OptionDescriptorIterator, RawOptionDescriptor, RawRange,
    SetRequest, Value, Constraint, SaneError,
};

/// A stand-in for the native side: an option table and the option buffers.
struct FakeDevice {
    table: Vec<RawOptionDescriptor>,
    buffers: HashMap<i32, Vec<u8>>,
}

fn raw(name: &str, type_: u32, size: i32, cap: u32, constraint_type: u32, constraint: ConstraintPayload) -> RawOptionDescriptor {
    RawOptionDescriptor {
        name: Some(name.as_bytes().to_vec()),
        title: None,
        desc: None,
        type_,
        unit: 0,
        size,
        cap,
        constraint_type,
        constraint,
    }
}

impl FakeDevice {
    fn new() -> FakeDevice {
        let table = vec![
            raw("", 1, 4, 0b100, 0, ConstraintPayload::Nothing),
            raw("scan-mode", 5, 0, 0, 0, ConstraintPayload::Nothing),
            raw(
                "resolution",
                1,
                4,
                0b101,
                1,
                ConstraintPayload::Range(RawRange { min: 75, max: 1200, quant: 25 }),
            ),
            raw(
                "mode",
                3,
                8,
                0b101,
                3,
                ConstraintPayload::StringList(vec![b"Lineart".to_vec(), b"Gray".to_vec(), b"Color".to_vec()]),
            ),
            raw("lamp-switch", 0, 1, 0b010, 0, ConstraintPayload::Nothing),
        ];
        let mut buffers = HashMap::new();
        buffers.insert(0, (table.len() as i32).to_le_bytes().to_vec());
        buffers.insert(2, 150i32.to_le_bytes().to_vec());
        buffers.insert(3, b"Color\0\0\0".to_vec());
        buffers.insert(4, vec![1]);
        FakeDevice { table, buffers }
    }

    fn options(&self) -> Vec<OptionDescriptor> {
        let length = i32::from_le_bytes(self.buffers[&0].clone().try_into().unwrap());
        let mut it = OptionDescriptorIterator::new(length);
        let mut out = Vec::new();
        while let Some(n) = it.next_ordinal() {
            let entry = self.table.get(n as usize).cloned();
            if let Some(r) = &entry {
                assert!(r.is_well_formed());
            }
            match it.accept(entry) {
                Some(d) => out.push(d),
                None => break,
            }
        }
        out
    }

    fn get(&self, d: &OptionDescriptor) -> Result<Option<Value>, SaneError> {
        match get_option_request(d) {
            GetRequest::NoValue => Ok(None),
            GetRequest::Read { number, size } => {
                let buffer = self.buffers[&number].clone();
                assert_eq!(buffer.len(), size);
                get_option_result(d, 0, &buffer, ByteOrder::Little).map(Some)
            }
        }
    }

    fn set(&mut self, d: &OptionDescriptor, v: &Value) -> Result<(), SaneError> {
        assert!(v.matches_type(d.value_type) && v.fits_size(d.size));
        match set_option_request(d, v, ByteOrder::Little) {
            SetRequest::Skip => Ok(()),
            SetRequest::Write { number, bytes } => {
                self.buffers.insert(number, bytes);
                Ok(())
            }
        }
    }
}

#[test]
fn end_to_end_resolution_scenario() {
    let mut dev = FakeDevice::new();
    let options = dev.options();
    let numbers: Vec<i32> = options.iter().map(|d| d.number).collect();
    assert_eq!(numbers, vec![1, 2, 3, 4]);
    assert!(!numbers.contains(&0));
    let res = options
        .iter()
        .find(|d| d.name.as_deref() == Some(b"resolution".as_slice()))
        .unwrap()
        .clone();
    assert_eq!(res.constraint, Constraint::Range { min: 75, max: 1200, quant: Some(25) });
    dev.set(&res, &Value::Int(vec![300])).unwrap();
    assert_eq!(dev.get(&res), Ok(Some(Value::Int(vec![300]))));
}

#[test]
fn set_then_get_round_trip_for_text() {
    let mut dev = FakeDevice::new();
    let mode = dev.options().into_iter().find(|d| d.number == 3).unwrap();
    assert_eq!(dev.get(&mode), Ok(Some(Value::String(b"Color".to_vec()))));
    dev.set(&mode, &Value::String(b"Gray".to_vec())).unwrap();
    assert_eq!(dev.get(&mode), Ok(Some(Value::String(b"Gray".to_vec()))));
}

#[test]
fn setting_twice_equals_setting_once() {
    let mut once = FakeDevice::new();
    let mut twice = FakeDevice::new();
    let res = once.options().into_iter().find(|d| d.number == 2).unwrap();
    once.set(&res, &Value::Int(vec![600])).unwrap();
    twice.set(&res, &Value::Int(vec![600])).unwrap();
    twice.set(&res, &Value::Int(vec![600])).unwrap();
    assert_eq!(once.get(&res), twice.get(&res));
    assert_eq!(once.buffers, twice.buffers);
}

#[test]
fn group_option_reads_none() {
    let dev = FakeDevice::new();
    let group = dev.options().into_iter().find(|d| d.number == 1).unwrap();
    assert_eq!(dev.get(&group), Ok(None));
}

#[test]
fn hidden_hardware_option_set_changes_nothing() {
    let mut dev = FakeDevice::new();
    let lamp = dev.options().into_iter().find(|d| d.number == 4).unwrap();
    assert_eq!(dev.get(&lamp), Ok(None));
    let before = dev.buffers.clone();
    assert_eq!(dev.set(&lamp, &Value::Bool(vec![false])), Ok(()));
    assert_eq!(dev.buffers, before);
}
