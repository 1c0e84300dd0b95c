use yusb::config_descriptor::{native_len, ConfigDescriptor};
use yusb::device_descriptor::{string_index, DeviceDescriptor};
use yusb::endpoint_descriptor::EndpointDescriptor;
use yusb::fields::{Direction, SyncType, TransferType, UsageType, Version};
use yusb::interface_descriptor::{Interface, InterfaceDescriptor};

fn endpoint_with_address(address: u8) -> EndpointDescriptor {
    EndpointDescriptor {
        b_length: 7,
        b_descriptor_type: 0x05,
        b_endpoint_address: address,
        ..Default::default()
    }
}

fn endpoint_with_attributes(attributes: u8) -> EndpointDescriptor {
    EndpointDescriptor {
        b_length: 7,
        b_descriptor_type: 0x05,
        bm_attributes: attributes,
        ..Default::default()
    }
}

struct Setting {
    number: u8,
    alternate: u8,
    class: u8,
    sub_class: u8,
    protocol: u8,
    string: u8,
    endpoints: Vec<EndpointDescriptor>,
}

fn setting() -> Setting {
    Setting {
        number: 0,
        alternate: 0,
        class: 0,
        sub_class: 0,
        protocol: 0,
        string: 0,
        endpoints: vec![],
    }
}

fn interface_descriptor(s: Setting) -> InterfaceDescriptor {
    InterfaceDescriptor::new(
        9,
        0x04,
        s.number,
        s.alternate,
        s.class,
        s.sub_class,
        s.protocol,
        s.string,
        s.endpoints,
        vec![],
    )
}

fn interface(s: Setting) -> Interface {
    Interface::new(vec![interface_descriptor(s)]).unwrap()
}

fn config(value: u8, string: u8, attributes: u8, max_power: u8, interfaces: Vec<Interface>) -> ConfigDescriptor {
    ConfigDescriptor::new(9, 0x02, 9, value, string, attributes, max_power, interfaces, vec![])
}

// Configuration descriptors

#[test]
fn it_has_number() {
    assert_eq!(42, config(42, 0, 0, 0, vec![]).number());
}

#[test]
fn it_has_max_power() {
    assert_eq!(42, config(0, 0, 0, 21, vec![]).max_power());
}

#[test]
fn max_power_is_twice_the_raw_value() {
    for raw in 0u8..=255 {
        assert_eq!(config(0, 0, 0, raw, vec![]).max_power(), 2 * raw as u16);
    }
    assert_eq!(config(0, 0, 0, 255, vec![]).max_power(), 510);
    assert_eq!(config(0, 0, 0, 0, vec![]).max_power(), 0);
}

#[test]
fn it_interprets_self_powered_bit_in_attributes() {
    assert_eq!(false, config(0, 0, 0b0000_0000, 0, vec![]).self_powered());
    assert_eq!(true, config(0, 0, 0b0100_0000, 0, vec![]).self_powered());
}

#[test]
fn it_interprets_remote_wakeup_bit_in_attributes() {
    assert_eq!(false, config(0, 0, 0b0000_0000, 0, vec![]).remote_wakeup());
    assert_eq!(true, config(0, 0, 0b0010_0000, 0, vec![]).remote_wakeup());
}

#[test]
fn power_bits_are_independent() {
    for attributes in 0u8..=255 {
        let c = config(0, 0, attributes, 0, vec![]);
        assert_eq!(c.self_powered(), attributes & 0x40 != 0);
        assert_eq!(c.remote_wakeup(), attributes & 0x20 != 0);
        let flipped = config(0, 0, attributes ^ 0x20, 0, vec![]);
        assert_eq!(flipped.self_powered(), c.self_powered());
        assert_eq!(flipped.remote_wakeup(), !c.remote_wakeup());
        let flipped = config(0, 0, attributes ^ 0x40, 0, vec![]);
        assert_eq!(flipped.remote_wakeup(), c.remote_wakeup());
        assert_eq!(flipped.self_powered(), !c.self_powered());
    }
    let c = config(0, 0, 0b0110_0000, 0, vec![]);
    assert!(c.self_powered() && c.remote_wakeup());
    let c = config(0, 0, 0b1001_1111, 0, vec![]);
    assert!(!c.self_powered() && !c.remote_wakeup());
}

#[test]
fn config_descriptor_it_has_description_string_index() {
    assert_eq!(Some(42), config(0, 42, 0, 0, vec![]).description_string_index());
}

#[test]
fn config_descriptor_it_handles_missing_description_string_index() {
    assert_eq!(None, config(0, 0, 0, 0, vec![]).description_string_index());
}

#[test]
fn it_has_num_interfaces() {
    let interface1 = interface(Setting { number: 1, ..setting() });
    let interface2 = interface(Setting { number: 2, ..setting() });

    assert_eq!(2, config(0, 0, 0, 0, vec![interface1, interface2]).num_interfaces());
}

#[test]
fn it_has_interfaces() {
    let interface = interface(Setting { number: 1, ..setting() });
    let config = config(0, 0, 0, 0, vec![interface]);

    let mut interface_numbers = Vec::new();
    let mut interfaces = config.interfaces();
    while let Some(interface) = interfaces.next() {
        interface_numbers.push(interface.number());
    }

    assert_eq!(vec![1], interface_numbers);
}

fn addresses_of<'a>(config: &'a ConfigDescriptor) -> Vec<u8> {
    let mut addresses = Vec::new();
    let mut interfaces = config.interfaces();
    while let Some(intf) = interfaces.next() {
        let mut descriptors = intf.descriptors();
        while let Some(desc) = descriptors.next() {
            let mut endpoints = desc.endpoint_descriptors();
            while let Some(ep) = endpoints.next() {
                addresses.push(ep.address());
            }
        }
    }
    addresses
}

// Successful compilation shows that the lifetime of the endpoint descriptor(s) is the same
// as the lifetime of the config descriptor.
#[test]
fn it_had_interfaces_with_endpoints() {
    let endpoint1 = endpoint_with_address(0x81);
    let endpoint2 = endpoint_with_address(0x01);
    let endpoint3 = endpoint_with_address(0x02);
    let interface1 = interface(Setting { endpoints: vec![endpoint1, endpoint2], ..setting() });
    let interface2 = interface(Setting { endpoints: vec![endpoint3], ..setting() });
    let config = config(0, 0, 0, 0, vec![interface1, interface2]);

    fn named_lifetime<'a>(config: &'a ConfigDescriptor) {
        let addresses = addresses_of(config);
        assert_eq!(addresses, &[0x81, 0x01, 0x02]);
        let interface: &'a Interface = config.interfaces().next().expect("There's one interface");
        let desc: &'a InterfaceDescriptor =
            interface.descriptors().next().expect("There's one interface");
        let _: &'a EndpointDescriptor =
            desc.endpoint_descriptors().next().expect("There's one endpoint");
    }
    named_lifetime(&config);
}

#[test]
fn config_extra_is_empty_not_absent() {
    let c = config(0, 0, 0, 0, vec![]);
    assert!(c.extra().is_empty());
    let c = ConfigDescriptor::new(9, 2, 12, 1, 0, 0, 0, vec![], vec![1, 2, 3]);
    assert_eq!(c.extra(), &[1, 2, 3]);
    assert_eq!(native_len(3), 3);
    assert_eq!(native_len(0), 0);
    assert_eq!(native_len(-1), 0);
    assert_eq!(native_len(i32::MIN), 0);
    assert_eq!(native_len(i32::MAX), i32::MAX as usize);
}

#[test]
fn interfaces_cursor_moves_forward_only() {
    let config = config(
        0,
        0,
        0,
        0,
        vec![
            interface(Setting { number: 5, ..setting() }),
            interface(Setting { number: 6, ..setting() }),
            interface(Setting { number: 7, ..setting() }),
        ],
    );
    let mut it = config.interfaces();
    assert_eq!(it.size_hint(), (3, Some(3)));
    assert_eq!(it.next().map(|i| i.number()), Some(5));
    assert_eq!(it.size_hint(), (2, Some(2)));
    assert_eq!(it.next().map(|i| i.number()), Some(6));
    assert_eq!(it.next().map(|i| i.number()), Some(7));
    assert_eq!(it.size_hint(), (0, Some(0)));
    assert!(it.next().is_none());
    assert!(it.next().is_none());
    let mut again = config.interfaces();
    assert_eq!(again.next().map(|i| i.number()), Some(5));
}

// Device descriptors

#[test]
fn it_has_usb_version() {
    assert_eq!(
        Version::from_bcd(0x1234),
        DeviceDescriptor { bcd_usb: 0x1234, ..Default::default() }.usb_version()
    );
}

#[test]
fn it_has_device_version() {
    assert_eq!(
        Version::from_bcd(0x1234),
        DeviceDescriptor { bcd_device: 0x1234, ..Default::default() }.device_version()
    );
}

#[test]
fn it_has_manufacturer_string_index() {
    assert_eq!(
        Some(42),
        DeviceDescriptor { i_manufacturer: 42, ..Default::default() }.manufacturer_string_index()
    );
}

#[test]
fn it_handles_missing_manufacturer_string_index() {
    assert_eq!(
        None,
        DeviceDescriptor { i_manufacturer: 0, ..Default::default() }.manufacturer_string_index()
    );
}

#[test]
fn it_has_product_string_index() {
    assert_eq!(
        Some(42),
        DeviceDescriptor { i_product: 42, ..Default::default() }.product_string_index()
    );
}

#[test]
fn it_handles_missing_product_string_index() {
    assert_eq!(
        None,
        DeviceDescriptor { i_product: 0, ..Default::default() }.product_string_index()
    );
}

#[test]
fn it_has_serial_number_string_index() {
    assert_eq!(
        Some(42),
        DeviceDescriptor { i_serial_number: 42, ..Default::default() }.serial_number_string_index()
    );
}

#[test]
fn it_handles_missing_serial_number_string_index() {
    assert_eq!(
        None,
        DeviceDescriptor { i_serial_number: 0, ..Default::default() }.serial_number_string_index()
    );
}

#[test]
fn string_index_is_none_for_zero_only() {
    assert_eq!(string_index(0), None);
    for n in 1u8..=255 {
        assert_eq!(string_index(n), Some(n));
    }
}

#[test]
fn device_descriptor_it_has_class_code() {
    assert_eq!(42, DeviceDescriptor { b_device_class: 42, ..Default::default() }.class_code());
}

#[test]
fn device_descriptor_it_has_sub_class_code() {
    assert_eq!(
        42,
        DeviceDescriptor { b_device_sub_class: 42, ..Default::default() }.sub_class_code()
    );
}

#[test]
fn device_descriptor_it_has_protocol_code() {
    assert_eq!(
        42,
        DeviceDescriptor { b_device_protocol: 42, ..Default::default() }.protocol_code()
    );
}

#[test]
fn it_has_vendor_id() {
    assert_eq!(42, DeviceDescriptor { id_vendor: 42, ..Default::default() }.vendor_id());
}

#[test]
fn it_has_product_id() {
    assert_eq!(42, DeviceDescriptor { id_product: 42, ..Default::default() }.product_id());
}

#[test]
fn device_descriptor_it_has_max_packet_size() {
    assert_eq!(
        42,
        DeviceDescriptor { b_max_packet_size0: 42, ..Default::default() }.max_packet_size()
    );
}

#[test]
fn it_has_num_configurations() {
    assert_eq!(
        3,
        DeviceDescriptor { b_num_configurations: 3, ..Default::default() }.num_configurations()
    );
}

#[test]
fn default_device_descriptor_is_zero() {
    let d = DeviceDescriptor::default();
    assert_eq!(d.vendor_id(), 0);
    assert_eq!(d.usb_version(), Version(0, 0, 0));
    assert_eq!(d.b_length, 0);
}

// Endpoint descriptors

#[test]
fn it_interprets_number_for_output_endpoints() {
    assert_eq!(0, endpoint_with_address(0b0000_0000).number());
    assert_eq!(1, endpoint_with_address(0b0000_0001).number());
}

#[test]
fn it_interprets_number_for_input_endpoints() {
    assert_eq!(2, endpoint_with_address(0b1000_0010).number());
    assert_eq!(3, endpoint_with_address(0b1000_0011).number());
}

#[test]
fn it_ignores_reserved_bits_in_address() {
    assert_eq!(0, endpoint_with_address(0b0000_1000).number());
    assert_eq!(0, endpoint_with_address(0b0001_0000).number());
    assert_eq!(0, endpoint_with_address(0b0010_0000).number());
    assert_eq!(0, endpoint_with_address(0b0100_0000).number());
    assert_eq!(7, endpoint_with_address(0b1111_1111).number());
}

#[test]
fn reserved_bits_never_change_number_or_direction() {
    for address in 0u8..=255 {
        let plain = endpoint_with_address(address & 0x87);
        let e = endpoint_with_address(address);
        assert_eq!(e.number(), plain.number());
        assert_eq!(e.direction(), plain.direction());
        assert_eq!(e.number(), address & 0x07);
        assert_eq!(e.address(), address);
    }
}

#[test]
fn it_interprets_direction_bit_in_address() {
    assert_eq!(Direction::Out, endpoint_with_address(0b0000_0000).direction());
    assert_eq!(Direction::In, endpoint_with_address(0b1000_0000).direction());
}

#[test]
fn endpoint_address_decodes_number_and_direction() {
    let e = endpoint_with_address(0b1000_0010);
    assert_eq!((e.number(), e.direction()), (2, Direction::In));
    let e = endpoint_with_address(0b0000_0001);
    assert_eq!((e.number(), e.direction()), (1, Direction::Out));
}

#[test]
fn it_interprets_transfer_type_in_attributes() {
    assert_eq!(TransferType::Control, endpoint_with_attributes(0b0000_0000).transfer_type());
    assert_eq!(TransferType::Isochronous, endpoint_with_attributes(0b0000_0001).transfer_type());
    assert_eq!(TransferType::Bulk, endpoint_with_attributes(0b0000_0010).transfer_type());
    assert_eq!(TransferType::Interrupt, endpoint_with_attributes(0b0000_0011).transfer_type());
}

#[test]
fn it_interprets_synchronization_type_in_attributes() {
    assert_eq!(SyncType::NoSync, endpoint_with_attributes(0b0000_0001).sync_type());
    assert_eq!(SyncType::Asynchronous, endpoint_with_attributes(0b0000_0101).sync_type());
    assert_eq!(SyncType::Adaptive, endpoint_with_attributes(0b0000_1001).sync_type());
    assert_eq!(SyncType::Synchronous, endpoint_with_attributes(0b0000_1101).sync_type());
}

#[test]
fn it_interprets_usage_type_in_attributes() {
    assert_eq!(UsageType::Data, endpoint_with_attributes(0b0000_0001).usage_type());
    assert_eq!(UsageType::Feedback, endpoint_with_attributes(0b0001_0001).usage_type());
    assert_eq!(UsageType::FeedbackData, endpoint_with_attributes(0b0010_0001).usage_type());
    assert_eq!(UsageType::Reserved, endpoint_with_attributes(0b0011_0001).usage_type());
}

#[test]
fn attribute_fields_ignore_the_other_bits() {
    for attributes in 0u8..=255 {
        let e = endpoint_with_attributes(attributes);
        assert_eq!(e.transfer_type(), TransferType::from(attributes & 0x03));
        assert_eq!(e.sync_type(), SyncType::from((attributes >> 2) & 0x03));
        assert_eq!(e.usage_type(), UsageType::from((attributes >> 4) & 0x03));
    }
}

#[test]
fn endpoint_descriptor_it_has_max_packet_size() {
    assert_eq!(
        64,
        EndpointDescriptor { w_max_packet_size: 64, ..Default::default() }.max_packet_size()
    );
    assert_eq!(
        4096,
        EndpointDescriptor { w_max_packet_size: 4096, ..Default::default() }.max_packet_size()
    );
    assert_eq!(
        65535,
        EndpointDescriptor { w_max_packet_size: 65535, ..Default::default() }.max_packet_size()
    );
}

#[test]
fn it_has_interval() {
    assert_eq!(1, EndpointDescriptor { b_interval: 1, ..Default::default() }.interval());
    assert_eq!(20, EndpointDescriptor { b_interval: 20, ..Default::default() }.interval());
    assert_eq!(255, EndpointDescriptor { b_interval: 255, ..Default::default() }.interval());
}

#[test]
fn endpoint_audio_fields_and_extra() {
    let e = EndpointDescriptor {
        b_refresh: 3,
        b_synch_address: 0x84,
        extra: vec![9, 8],
        ..Default::default()
    };
    assert_eq!(e.refresh(), 3);
    assert_eq!(e.synch_address(), 0x84);
    assert_eq!(e.extra(), &[9, 8]);
    assert!(EndpointDescriptor::default().extra().is_empty());
}

// Interface descriptors

#[test]
fn it_has_interface_number() {
    assert_eq!(42, interface(Setting { number: 42, ..setting() }).number());
}

fn settings_of<T>(interface: &Interface, read: fn(&InterfaceDescriptor) -> T) -> Vec<T> {
    let mut values = Vec::new();
    let mut descriptors = interface.descriptors();
    while let Some(d) = descriptors.next() {
        values.push(read(d));
    }
    values
}

#[test]
fn it_has_interface_number_in_descriptor() {
    assert_eq!(
        vec!(42),
        settings_of(&interface(Setting { number: 42, ..setting() }), |s| s.interface_number())
    );
}

#[test]
fn it_has_alternate_setting_number() {
    assert_eq!(
        vec!(42),
        settings_of(&interface(Setting { alternate: 42, ..setting() }), |s| s.setting_number())
    );
}

#[test]
fn interface_descriptor_it_has_class_code() {
    assert_eq!(
        vec!(42),
        settings_of(&interface(Setting { class: 42, ..setting() }), |s| s.class_code())
    );
}

#[test]
fn interface_descriptor_it_has_sub_class_code() {
    assert_eq!(
        vec!(42),
        settings_of(&interface(Setting { sub_class: 42, ..setting() }), |s| s.sub_class_code())
    );
}

#[test]
fn interface_descriptor_it_has_protocol_code() {
    assert_eq!(
        vec!(42),
        settings_of(&interface(Setting { protocol: 42, ..setting() }), |s| s.protocol_code())
    );
}

#[test]
fn interface_descriptor_it_has_description_string_index() {
    assert_eq!(
        vec!(Some(42)),
        settings_of(&interface(Setting { string: 42, ..setting() }), |s| s
            .description_string_index())
    );
}

#[test]
fn interface_descriptor_it_handles_missing_description_string_index() {
    assert_eq!(
        vec!(None),
        settings_of(&interface(Setting { string: 0, ..setting() }), |s| s
            .description_string_index())
    );
}

#[test]
fn it_has_num_endpoints() {
    let endpoint1 = endpoint_with_address(0x81);
    let endpoint2 = endpoint_with_address(0x01);

    assert_eq!(
        vec!(2),
        settings_of(
            &interface(Setting { endpoints: vec![endpoint1, endpoint2], ..setting() }),
            |s| s.num_endpoints()
        )
    );
}

#[test]
fn it_has_endpoints() {
    let interface = interface(Setting { endpoints: vec![endpoint_with_address(0x87)], ..setting() });

    let mut endpoint_addresses = Vec::new();
    let mut endpoints = interface.descriptors().next().unwrap().endpoint_descriptors();
    while let Some(endpoint) = endpoints.next() {
        endpoint_addresses.push(endpoint.address());
    }

    assert_eq!(vec![0x87], endpoint_addresses);
}

#[test]
fn interface_needs_a_setting() {
    assert!(Interface::new(vec![]).is_none());
    let one = Interface::new(vec![interface_descriptor(Setting { number: 9, ..setting() })]);
    assert_eq!(one.unwrap().number(), 9);
}

#[test]
fn interface_takes_any_number_of_settings() {
    for count in [2usize, 255, 256, 257, 1000] {
        let mut settings = Vec::new();
        for i in 0..count {
            settings.push(interface_descriptor(Setting {
                number: 3,
                alternate: (i % 256) as u8,
                ..setting()
            }));
        }
        let interface = Interface::new(settings).unwrap();
        assert_eq!(interface.number(), 3);
        assert_eq!(interface.descriptors().size_hint(), (count, Some(count)));
        let alternates = settings_of(&interface, |s| s.setting_number());
        assert_eq!(alternates.len(), count);
        for (i, alternate) in alternates.iter().enumerate() {
            assert_eq!(*alternate, (i % 256) as u8);
        }
    }
}

#[test]
fn alternate_settings_come_in_order() {
    let interface = Interface::new(vec![
        interface_descriptor(Setting { number: 1, alternate: 0, ..setting() }),
        interface_descriptor(Setting { number: 1, alternate: 1, ..setting() }),
        interface_descriptor(Setting { number: 1, alternate: 2, ..setting() }),
    ])
    .unwrap();
    assert_eq!(settings_of(&interface, |s| s.setting_number()), vec![0, 1, 2]);
    let mut it = interface.descriptors();
    it.next();
    assert_eq!(it.size_hint(), (2, Some(2)));
    it.next();
    it.next();
    assert!(it.next().is_none());
    assert_eq!(it.size_hint(), (0, Some(0)));
}

#[test]
fn interface_extra_is_empty_not_absent() {
    let d = InterfaceDescriptor::new(9, 4, 0, 0, 0, 0, 0, 0, vec![], vec![]);
    assert!(d.extra().is_empty());
    assert_eq!(d.num_endpoints(), 0);
    assert!(d.endpoint_descriptors().next().is_none());
    let d = InterfaceDescriptor::new(9, 4, 0, 0, 0, 0, 0, 0, vec![], vec![7]);
    assert_eq!(d.extra(), &[7]);
}
