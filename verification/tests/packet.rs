use mac_address::MacAddress;
use rustboot::codes::DHCPOptionCode;
use rustboot::error::RejectReason;
use rustboot::options::VendorData;
use rustboot::packet::{DHCPPacket, PACKET_LEN, VENDOR_MAGIC};
use rustboot::scan::scan_options;
use rustboot::server::DHCPServer;

/// The value of option 175 in the captured request. Nothing reads it; only
/// its length matters to what follows it.
fn etherboot_value() -> Vec<u8> {
    (0u8..48).map(|i| 0xb0 ^ i).collect()
}

/// The options of a DISCOVER as an iPXE client sends it, in wire order.
fn discovery_options() -> Vec<u8> {
    let mut options: Vec<u8> = vec![53, 1, 1, 57, 2, 5, 192, 93, 2, 0, 0, 94, 3, 1, 2, 1, 60, 32];
    options.extend_from_slice("PXEClient:Arch:00000:UNDI:002001".as_bytes());
    options.extend_from_slice(&[77, 4, 105, 80, 88, 69]);
    options.extend_from_slice(&[55, 23]);
    options.extend_from_slice(&[
        1, 3, 6, 7, 12, 15, 17, 26, 43, 60, 66, 67, 119, 128, 129, 130, 131, 132, 133, 134, 135,
        175, 203,
    ]);
    options.extend_from_slice(&[175, 48]);
    options.extend_from_slice(&etherboot_value());
    options.extend_from_slice(&[61, 7, 1, 82, 84, 0, 148, 158, 242]);
    options.extend_from_slice(&[97, 17]);
    options.extend_from_slice(&[
        0, 178, 35, 76, 56, 225, 195, 173, 69, 183, 151, 210, 221, 34, 14, 27, 157,
    ]);
    options.push(255);
    options
}

/// The wire bytes of the captured DISCOVER.
fn discovery_bytes() -> Vec<u8> {
    let mut bytes: Vec<u8> = vec![1, 1, 6, 0];
    bytes.extend_from_slice(&[0xff, 0x77, 0xdf, 0x41]);
    bytes.extend_from_slice(&[0, 4]);
    bytes.extend_from_slice(&[0x80, 0]);
    bytes.extend_from_slice(&[0; 16]);
    bytes.extend_from_slice(&[0x52, 0x54, 0x00, 0x94, 0x9e, 0xf2]);
    bytes.extend_from_slice(&[0; 10]);
    bytes.extend_from_slice(&[0; 64]);
    bytes.extend_from_slice(&[0; 128]);
    bytes.extend_from_slice(&[99, 130, 83, 99]);
    bytes.extend_from_slice(&discovery_options());
    bytes.resize(PACKET_LEN, 0);
    bytes
}

fn read_discovery_packet() -> DHCPPacket {
    DHCPPacket::decode(&discovery_bytes()).unwrap()
}

#[test]
fn dhcp_test_create_packet() {
    let packet = DHCPPacket::new();
    assert_eq!(0, packet.opcode);
}

#[test]
fn packet_test_create_packet() {
    let packet = DHCPPacket::new();
    assert_eq!(0, packet.opcode);
}

#[test]
fn dhcp_test_parse_packet() {
    let packet = read_discovery_packet();
    assert_eq!(1, packet.opcode);
    assert_eq!(1, packet._hwtype);
    assert_eq!(6, packet._hw_addr_len);
    assert_eq!(0, packet._hop_count);
    assert_eq!(4286046017, packet.txn_id());

    let test_mac = MacAddress::new([0x52, 0x54, 0x00, 0x94, 0x9e, 0xf2]);
    assert_eq!(test_mac, packet.client_mac());

    assert_eq!(VENDOR_MAGIC, packet.vendor_magic());
}

#[test]
fn packet_test_parse_packet() {
    let packet = read_discovery_packet();
    assert_eq!(1, packet.opcode);
    assert_eq!(1, packet._hwtype);
    assert_eq!(6, packet._hw_addr_len);
    assert_eq!(0, packet._hop_count);
    assert_eq!(4286046017, packet.txn_id());

    let test_mac = MacAddress::new([0x52, 0x54, 0x00, 0x94, 0x9e, 0xf2]);
    assert_eq!(test_mac, packet.client_mac());

    assert_eq!(VENDOR_MAGIC, packet.vendor_magic());
}

#[test]
fn dhcp_test_parse_vendor_data() {
    let packet = read_discovery_packet();
    let vendor_data: Vec<VendorData> = scan_options(&packet._vendor_info);

    assert_eq!(10, vendor_data.len());

    {
        // 53 DHCP Message type
        assert_eq!(53, vendor_data[0].code);
        assert_eq!(1, vendor_data[0].len);
        assert_eq!(vec![1], vendor_data[0].data);
    }
    {
        // 57 = Maximum DHCP Message Size
        assert_eq!(57, vendor_data[1].code);
        assert_eq!(2, vendor_data[1].len);
        assert_eq!(vec![5, 192], vendor_data[1].data);
    }
    {
        // 93 = Client System Architecture Type; 0 = Intel
        assert_eq!(93, vendor_data[2].code);
        assert_eq!(2, vendor_data[2].len);
        assert_eq!(vec![0, 0], vendor_data[2].data);
    }
    {
        // 94 = Client Network Interface Identifier
        assert_eq!(94, vendor_data[3].code);
        assert_eq!(3, vendor_data[3].len);
        assert_eq!(vec![1, 2, 1], vendor_data[3].data);
    }
    {
        // 60 = Vendor class identifier
        assert_eq!(60, vendor_data[4].code);
        assert_eq!(32, vendor_data[4].len);
        let vendor_class_id = std::str::from_utf8(&vendor_data[4].data).unwrap();
        assert_eq!(vendor_class_id.len(), usize::from(vendor_data[4].len));
        assert_eq!("PXEClient:Arch:00000:UNDI:002001", vendor_class_id);
    }
    {
        // 77 = User class info
        assert_eq!(77, vendor_data[5].code);
        assert_eq!(4, vendor_data[5].len);

        let user_class_info = std::str::from_utf8(&vendor_data[5].data).unwrap();
        assert_eq!(user_class_info.len(), usize::from(vendor_data[5].len));
        assert_eq!("iPXE", user_class_info);
        assert_eq!(vec![105, 80, 88, 69], vendor_data[5].data);
    }
    {
        // 55 = Parameter Request List
        assert_eq!(55, vendor_data[6].code);
        assert_eq!(23, vendor_data[6].len);
        assert_eq!(23, vendor_data[6].data.len());
        assert_eq!(
            vec![
                1, 3, 6, 7, 12, 15, 17, 26, 43, 60, 66, 67, 119, 128, 129, 130, 131, 132, 133, 134,
                135, 175, 203
            ],
            vendor_data[6].data
        );
    }
    {
        // 175 = Etherboot
        assert_eq!(175, vendor_data[7].code);
        assert_eq!(48, vendor_data[7].len);
    }
    {
        // 61 = Client identifier
        assert_eq!(61, vendor_data[8].code);
        assert_eq!(7, vendor_data[8].len);
        assert_eq!(vec![1, 82, 84, 0, 148, 158, 242], vendor_data[8].data);
    }
    {
        // 97 = Client Machine Identifier (GUID)
        assert_eq!(97, vendor_data[9].code);
        assert_eq!(17, vendor_data[9].len);
        assert_eq!(
            vec![0, 178, 35, 76, 56, 225, 195, 173, 69, 183, 151, 210, 221, 34, 14, 27, 157],
            vendor_data[9].data
        );
    }
}

#[test]
fn packet_test_parse_vendor_data() {
    let packet = read_discovery_packet();
    let vendor_data = packet.parse_vendor_data().unwrap();

    assert_eq!(10, vendor_data.len());

    match vendor_data.get(&DHCPOptionCode::DHCPMessageType.to_u8()) {
        Some(option) => {
            assert_eq!(DHCPOptionCode::DHCPMessageType.to_u8(), option.code);
            assert_eq!(1, option.len);
            assert_eq!(vec![1], option.data);
        }
        None => {
            assert!(false, "Vendor data is mising option 53");
        }
    }

    match vendor_data.get(&DHCPOptionCode::MaximumDHCPMessageSize.to_u8()) {
        Some(option) => {
            assert_eq!(DHCPOptionCode::MaximumDHCPMessageSize.to_u8(), option.code);
            assert_eq!(2, option.len);
            assert_eq!(vec![5, 192], option.data);
        }
        None => {
            assert!(false, "Vendor data is mising option ");
        }
    }

    match vendor_data.get(&DHCPOptionCode::ClientSystemArchitectureType.to_u8()) {
        Some(option) => {
            assert_eq!(DHCPOptionCode::ClientSystemArchitectureType.to_u8(), option.code);
            assert_eq!(2, option.len);
            // 0 = Intel
            assert_eq!(vec![0, 0], option.data);
        }
        None => {
            assert!(false, "Vendor data is mising option ");
        }
    }

    match vendor_data.get(&DHCPOptionCode::ClientNetworkInterfaceIdentifier.to_u8()) {
        Some(option) => {
            assert_eq!(DHCPOptionCode::ClientNetworkInterfaceIdentifier.to_u8(), option.code);
            assert_eq!(3, option.len);
            assert_eq!(vec![1, 2, 1], option.data);
        }
        None => {
            assert!(false, "Vendor data is mising option ");
        }
    }

    match vendor_data.get(&DHCPOptionCode::VendorClassIdentifier.to_u8()) {
        Some(option) => {
            assert_eq!(60, option.code);
            assert_eq!(32, option.len);
            let vendor_class_id = std::str::from_utf8(&option.data).unwrap();
            assert_eq!(vendor_class_id.len(), usize::from(option.len));
            assert_eq!("PXEClient:Arch:00000:UNDI:002001", vendor_class_id);
        }
        None => {
            assert!(false, "Vendor data is mising option ");
        }
    }
    match vendor_data.get(&DHCPOptionCode::UserClassInfo.to_u8()) {
        Some(option) => {
            assert_eq!(77, option.code);
            assert_eq!(4, option.len);

            let user_class_info = std::str::from_utf8(&option.data).unwrap();
            assert_eq!(user_class_info.len(), usize::from(option.len));
            assert_eq!("iPXE", user_class_info);
            assert_eq!(vec![105, 80, 88, 69], option.data);
        }
        None => {
            assert!(false, "Vendor data is mising option ");
        }
    }
    match vendor_data.get(&DHCPOptionCode::ParameterRequestList.to_u8()) {
        Some(option) => {
            assert_eq!(55, option.code);
            assert_eq!(23, option.len);
            assert_eq!(23, option.data.len());
            assert_eq!(
                vec![
                    1, 3, 6, 7, 12, 15, 17, 26, 43, 60, 66, 67, 119, 128, 129, 130, 131, 132, 133,
                    134, 135, 175, 203
                ],
                option.data
            );
        }
        None => {
            assert!(false, "Vendor data is mising option ");
        }
    }
    match vendor_data.get(&DHCPOptionCode::Etherboot.to_u8()) {
        Some(option) => {
            assert_eq!(175, option.code);
            assert_eq!(48, option.len);
        }
        None => {
            assert!(false, "Vendor data is mising option ");
        }
    }
    match vendor_data.get(&DHCPOptionCode::ClientIdentifier.to_u8()) {
        Some(option) => {
            assert_eq!(61, option.code);
            assert_eq!(7, option.len);
            assert_eq!(vec![1, 82, 84, 0, 148, 158, 242], option.data);
        }
        None => {
            assert!(false, "Vendor data is mising option ");
        }
    }

    match vendor_data.get(&DHCPOptionCode::ClientMachineIdentifier.to_u8()) {
        Some(option) => {
            assert_eq!(97, option.code);
            assert_eq!(17, option.len);
            assert_eq!(
                vec![0, 178, 35, 76, 56, 225, 195, 173, 69, 183, 151, 210, 221, 34, 14, 27, 157],
                option.data
            );
        }
        None => {
            assert!(false, "Vendor data is mising option ");
        }
    }
}

#[test]
fn dhcp_test_new_vendor_data_ok() {
    match VendorData::from_raw(53, &vec![1]) {
        Ok(vendor_data) => {
            assert_eq!(53, vendor_data.code);
            assert_eq!(1, vendor_data.len);
            assert_eq!(vec![1], vendor_data.data);
        }
        Err(msg) => assert!(false, "{}", msg.message()),
    }
}

#[test]
fn packet_test_new_vendor_data_ok() {
    match VendorData::new(DHCPOptionCode::DHCPMessageType, &vec![1]) {
        Ok(vendor_data) => {
            assert_eq!(DHCPOptionCode::DHCPMessageType.to_u8(), vendor_data.code);
            assert_eq!(1, vendor_data.len);
            assert_eq!(vec![1], vendor_data.data);
        }
        Err(msg) => assert!(false, "{}", msg.message()),
    }
}

#[test]
fn dhcp_test_new_vendor_data_too_long() {
    match VendorData::from_raw(53, &vec![0; 488]) {
        Ok(vendor_data) => {
            assert!(false, "vendor data {} would overun buffer", vendor_data.data.len());
        }
        Err(_) => assert!(true),
    }
}

#[test]
fn packet_test_new_vendor_data_too_long() {
    match VendorData::new(DHCPOptionCode::DHCPMessageType, &vec![0; 488]) {
        Ok(vendor_data) => {
            assert!(false, "vendor data {} would overun buffer", vendor_data.data.len());
        }
        Err(_) => assert!(true),
    }
}

#[test]
fn dhcp_test_write_vendor_data_to_buffer() {
    match VendorData::from_raw(53, &vec![1]) {
        Ok(vendor_data) => {
            let mut buf: [u8; 4] = [9; 4];
            buf[3] = 9;
            {
                buf[0] = vendor_data.code;
                buf[1] = vendor_data.len;

                for i in 0..vendor_data.data.len() {
                    buf[i + 2] = vendor_data.data[i];
                }
            }
            assert_eq!(buf[3], 9);
        }
        Err(msg) => assert!(false, "{}", msg.message()),
    }
}

#[test]
fn packet_test_write_vendor_data_to_buffer() {
    match VendorData::new(DHCPOptionCode::DHCPMessageType, &vec![1]) {
        Ok(vendor_data) => {
            let mut buf: [u8; 4] = [9; 4];
            buf[3] = 9;
            {
                buf[0] = vendor_data.code;
                buf[1] = vendor_data.len;

                for i in 0..vendor_data.data.len() {
                    buf[i + 2] = vendor_data.data[i];
                }
            }
            assert_eq!(buf[3], 9);
        }
        Err(msg) => assert!(false, "{}", msg.message()),
    }
}

#[test]
fn test_generate_response() {
    assert!(!DHCPPacket::generate_response(&read_discovery_packet()).is_err());
}

#[test]
fn the_response_does_not_depend_on_the_server() {
    let quiet = DHCPServer::new(false, false, "").unwrap();
    let loud = DHCPServer::new(true, true, "/tmp/capture").unwrap();
    let request = read_discovery_packet();
    let response = DHCPPacket::generate_response(&request);
    assert_eq!(response, quiet.generate_response(&request));
    assert_eq!(response, loud.generate_response(&request));
    assert_eq!(2, response.unwrap().opcode);
}

#[test]
fn decode_then_encode_gives_the_bytes_back() {
    let bytes = discovery_bytes();
    assert_eq!(PACKET_LEN, bytes.len());
    let packet = DHCPPacket::decode(&bytes).unwrap();
    assert_eq!(bytes, packet.encode());

    let noise: Vec<u8> = (0..PACKET_LEN).map(|i| (i * 7 + 3) as u8).collect();
    assert_eq!(noise, DHCPPacket::decode(&noise).unwrap().encode());
}

#[test]
fn encode_then_decode_gives_the_packet_back() {
    let mut packet = read_discovery_packet();
    packet._gateway_ip = [10, 0, 0, 1];
    packet._boot_file_name[127] = 0x5a;
    packet._client_mac_remainder = [9; 10];
    let bytes = packet.encode();
    assert_eq!(552, bytes.len());
    assert_eq!(Ok(packet), DHCPPacket::decode(&bytes));
}

#[test]
fn encode_puts_each_field_at_its_offset() {
    let mut packet = DHCPPacket::new();
    packet.opcode = 1;
    packet._hwtype = 2;
    packet._hw_addr_len = 3;
    packet._hop_count = 4;
    packet._txn_id = [5, 6, 7, 8];
    packet._num_secs = [9, 10];
    packet._flags = [11, 12];
    packet._client_ip = [13; 4];
    packet.your_ip = [14; 4];
    packet._server_ip = [15; 4];
    packet._gateway_ip = [16; 4];
    packet._client_mac = [17; 6];
    packet._client_mac_remainder = [18; 10];
    packet._server_host_name = [19; 64];
    packet._boot_file_name = [20; 128];
    packet._vendor_magic = [21; 4];
    packet._vendor_info = [22; 312];
    let bytes = packet.encode();
    assert_eq!([1, 2, 3, 4, 5, 6, 7, 8, 9, 10, 11, 12], bytes[0..12]);
    assert_eq!([13, 13, 13, 13, 14, 14, 14, 14, 15, 15, 15, 15, 16, 16, 16, 16], bytes[12..28]);
    assert_eq!([17; 6], bytes[28..34]);
    assert_eq!([18; 10], bytes[34..44]);
    assert_eq!([19; 64], bytes[44..108]);
    assert_eq!([20; 128], bytes[108..236]);
    assert_eq!([21; 4], bytes[236..240]);
    assert_eq!([22; 312], bytes[240..552]);
}

#[test]
fn a_short_buffer_is_a_truncated_packet() {
    assert_eq!(Err(RejectReason::TruncatedPacket), DHCPPacket::decode(&[]));
    let bytes = discovery_bytes();
    assert_eq!(Err(RejectReason::TruncatedPacket), DHCPPacket::decode(&bytes[0..551]));
    assert!(DHCPPacket::decode(&bytes[0..552]).is_ok());
}

#[test]
fn bytes_behind_the_packet_are_not_read() {
    let mut bytes = discovery_bytes();
    let packet = DHCPPacket::decode(&bytes).unwrap();
    bytes.extend_from_slice(&[0xaa; 40]);
    assert_eq!(Ok(packet), DHCPPacket::decode(&bytes));
}

#[test]
fn a_new_packet_is_all_zero() {
    assert_eq!(vec![0u8; 552], DHCPPacket::new().encode());
}

#[test]
fn txn_id_is_big_endian() {
    let mut packet = DHCPPacket::new();
    packet._txn_id = [0x01, 0x02, 0x03, 0x04];
    assert_eq!(0x01020304, packet.txn_id());
    packet._txn_id = [0xff, 0xff, 0xff, 0xff];
    assert_eq!(u32::MAX, packet.txn_id());
    packet._txn_id = [0, 0, 1, 0];
    assert_eq!(256, packet.txn_id());
}

#[test]
fn client_mac_holds_the_octets_of_the_packet() {
    let packet = read_discovery_packet();
    assert_eq!([0x52, 0x54, 0x00, 0x94, 0x9e, 0xf2], packet.client_mac().bytes());
    assert_eq!("52:54:00:94:9E:F2", format!("{}", packet.client_mac()));
}

#[test]
fn names_are_nul_padded_and_bounded_by_their_fields() {
    let mut packet = DHCPPacket::new();
    packet._server_host_name = [0xee; 64];
    assert_eq!(Ok(()), packet.set_server_host_name("boot"));
    assert_eq!(b"boot", &packet._server_host_name[0..4]);
    assert_eq!([0u8; 60], packet._server_host_name[4..64]);

    let exact = "h".repeat(64);
    assert_eq!(Ok(()), packet.set_server_host_name(&exact));
    assert_eq!([b'h'; 64], packet._server_host_name);
    let before = packet;
    assert_eq!(Err(RejectReason::FieldTooLong), packet.set_server_host_name(&"h".repeat(65)));
    assert_eq!(before, packet);

    assert_eq!(Ok(()), packet.set_boot_file_name("pxelinux.0"));
    assert_eq!(b"pxelinux.0", &packet._boot_file_name[0..10]);
    assert_eq!([0u8; 118], packet._boot_file_name[10..128]);
    assert_eq!(Ok(()), packet.set_boot_file_name(&"f".repeat(128)));
    assert_eq!(Err(RejectReason::FieldTooLong), packet.set_boot_file_name(&"f".repeat(129)));
    assert_eq!([b'f'; 128], packet._boot_file_name);
}
