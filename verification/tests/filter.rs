use monitor_rs::config::{BleDevice, MacAddr, Manufacturer};
use monitor_rs::filter::{company_id_filter, matching_device};

fn device(name: &str, manufacturer: Option<Manufacturer>) -> BleDevice {
    BleDevice {
        address: MacAddr { octets: [0, 0, 0, 0, 0, 0] },
        name: name.to_string(),
        manufacturer,
    }
}

#[test]
fn test_company_ids() {
    assert_eq!(Manufacturer::Apple.company_ids(), vec![0x004C]);
    assert_eq!(Manufacturer::Google.company_ids(), vec![0x018E, 0x00E0]);
}

#[test]
fn test_company_id_filter_collects_declared_manufacturers() {
    let devices = vec![
        device("A", Some(Manufacturer::Apple)),
        device("B", None),
        device("C", Some(Manufacturer::Google)),
    ];
    assert_eq!(company_id_filter(&devices), vec![0x004C, 0x018E, 0x00E0]);
}

#[test]
fn test_company_id_filter_empty_without_manufacturers() {
    let devices = vec![device("A", None), device("B", None)];
    assert_eq!(company_id_filter(&devices), Vec::<u16>::new());
}

#[test]
fn test_matching_device() {
    let ids = company_id_filter(&vec![device("A", Some(Manufacturer::Apple))]);
    assert!(matching_device(&ids, &Some(vec![0x004C])));
    assert!(matching_device(&ids, &Some(vec![0x1234, 0x004C])));
    assert!(!matching_device(&ids, &Some(vec![0x1234])));
    assert!(!matching_device(&ids, &Some(Vec::new())));
    assert!(!matching_device(&ids, &None));
}
