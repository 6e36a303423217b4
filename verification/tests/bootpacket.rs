use mac_address::MacAddress;
use rustboot::bootpacket::{
    alloc_boot_packet, generate_response, new_vendor_data, parse_vendor_data, BootPacket,
    BOOT_PACKET_LEN,
};
use rustboot::error::RejectReason;
use rustboot::options::VendorData;

/// A captured BOOTP request from a PXE client. Its vendor area is full: the
/// parameter request list announces 23 bytes, of which only two are left.
fn read_packet() -> BootPacket {
    let mut packet = alloc_boot_packet();
    packet.opcode = 1;
    packet._hwtype = 1;
    packet._hw_addr_len = 6;
    packet._txn_id = [0xff, 0x77, 0xdf, 0x41];
    packet._client_mac = [0x52, 0x54, 0x00, 0xE6, 0x08, 0x31];
    packet._vendor_magic = [99, 130, 83, 99];
    let mut area: Vec<u8> = vec![53, 1, 1, 57, 2, 5, 192, 93, 2, 0, 0, 94, 3, 1, 2, 1, 60, 32];
    area.extend_from_slice("PXEClient:Arch:00000:UNDI:002001".as_bytes());
    area.extend_from_slice(&[77, 4, 105, 80, 88, 69, 55, 23, 1, 3]);
    assert_eq!(60, area.len());
    packet._vendor_info.copy_from_slice(&area);
    packet
}

#[test]
fn bootpacket_test_create_packet() {
    let packet = alloc_boot_packet();
    assert_eq!(0, packet.opcode);
}

#[test]
fn bootpacket_test_parse_packet() {
    let packet = read_packet();
    assert_eq!(1, packet.opcode);

    assert_eq!(1, packet.opcode);
    let test_mac = MacAddress::new([0x52, 0x54, 0x00, 0xE6, 0x08, 0x031]);
    assert_eq!(test_mac, packet.client_mac());
    assert_eq!([99, 130, 83, 99], packet.vendor_magic());
}

#[test]
fn bootpacket_test_parse_vendor_data() {
    let packet = read_packet();
    let vendor_data: Vec<VendorData> = parse_vendor_data(&packet);

    {
        // 53 DHCP Message type
        assert_eq!(53, vendor_data[0].code);
        assert_eq!(1, vendor_data[0].len);
        assert_eq!(vec![1], vendor_data[0].data);
    }
    {
        // 57 = Maximum DHCP Message Size
        assert_eq!(57, vendor_data[1].code);
        assert_eq!(2, vendor_data[1].len);
        assert_eq!(vec![5, 192], vendor_data[1].data);
    }
    {
        // 93 = Client System Architecture Type; 0 = Intel
        assert_eq!(93, vendor_data[2].code);
        assert_eq!(2, vendor_data[2].len);
        assert_eq!(vec![0, 0], vendor_data[2].data);
    }
    {
        // 94 = Client Network Interface Identifier
        assert_eq!(94, vendor_data[3].code);
        assert_eq!(3, vendor_data[3].len);
        assert_eq!(vec![1, 2, 1], vendor_data[3].data);
    }
    {
        // 60 = Vendor class identifier
        assert_eq!(60, vendor_data[4].code);
        assert_eq!(32, vendor_data[4].len);
        let vendor_class_id = std::str::from_utf8(&vendor_data[4].data).unwrap();
        assert_eq!(vendor_class_id.len(), usize::from(vendor_data[4].len));
        assert_eq!("PXEClient:Arch:00000:UNDI:002001", vendor_class_id);
    }
    {
        // 77 = User class info
        assert_eq!(77, vendor_data[5].code);
        assert_eq!(4, vendor_data[5].len);

        let user_class_info = std::str::from_utf8(&vendor_data[5].data).unwrap();
        assert_eq!(user_class_info.len(), usize::from(vendor_data[5].len));
        assert_eq!("iPXE", user_class_info);
        assert_eq!(vec![105, 80, 88, 69], vendor_data[5].data);
    }
    {
        // 55 = Parameter Request List, cut short by the end of the area
        assert_eq!(55, vendor_data[6].code);
        assert_eq!(23, vendor_data[6].len);
        assert_eq!(0, vendor_data[6].data.len());
    }
    assert_eq!(7, vendor_data.len());
}

#[test]
fn bootpacket_test_new_vendor_data_ok() {
    match new_vendor_data(53, &vec![1]) {
        Ok(vendor_data) => {
            assert_eq!(53, vendor_data.code);
            assert_eq!(1, vendor_data.len);
            assert_eq!(vec![1], vendor_data.data);
        }
        Err(msg) => assert!(false, "{}", msg.message()),
    }
}

#[test]
fn new_vendor_data_is_bounded_by_the_vendor_area() {
    let at_limit = new_vendor_data(53, &vec![7; 60]).unwrap();
    assert_eq!(60, at_limit.len);
    assert_eq!(vec![7; 60], at_limit.data);
    assert_eq!(Err(RejectReason::ValueTooLong), new_vendor_data(53, &vec![7; 61]));
}

#[test]
fn boot_response_overwrites_name_and_addresses_only() {
    let mut request = read_packet();
    request._server_host_name = [b'x'; 64];
    let response = generate_response(request);
    assert_eq!(2, response.opcode);
    assert_eq!(b"ayoungP40", &response._server_host_name[0..9]);
    assert_eq!([b'x'; 55], response._server_host_name[9..64]);
    assert_eq!([192, 168, 144, 1], response._server_ip);
    assert_eq!([192, 168, 144, 100], response.your_ip);

    let mut expected = request;
    expected.opcode = 2;
    expected._server_host_name[0..9].copy_from_slice(b"ayoungP40");
    expected._server_ip = [192, 168, 144, 1];
    expected.your_ip = [192, 168, 144, 100];
    assert_eq!(expected, response);
}

#[test]
fn zeroed_boot_packet_has_no_vendor_data() {
    let packet = alloc_boot_packet();
    assert_eq!([0u8; 60], packet._vendor_info);
    assert_eq!([0u8; 64], packet._server_host_name);
    assert!(parse_vendor_data(&packet).is_empty());
}

#[test]
fn a_boot_packet_and_its_300_bytes_determine_each_other() {
    let packet = read_packet();
    let bytes = packet.encode();
    assert_eq!(300, bytes.len());
    assert_eq!(BOOT_PACKET_LEN, bytes.len());
    assert_eq!([1, 1, 6, 0, 0xff, 0x77, 0xdf, 0x41], bytes[0..8]);
    assert_eq!([0x52, 0x54, 0x00, 0xE6, 0x08, 0x31], bytes[28..34]);
    assert_eq!([99, 130, 83, 99, 53, 1, 1], bytes[236..243]);
    assert_eq!([55, 23, 1, 3], bytes[296..300]);
    assert_eq!(Ok(packet), BootPacket::decode(&bytes));

    let noise: Vec<u8> = (0..300usize).map(|i| (i * 11 + 5) as u8).collect();
    assert_eq!(noise, BootPacket::decode(&noise).unwrap().encode());
    assert_eq!(vec![0u8; 300], alloc_boot_packet().encode());
}

#[test]
fn a_short_buffer_is_a_truncated_boot_packet() {
    let bytes = read_packet().encode();
    assert_eq!(Err(RejectReason::TruncatedPacket), BootPacket::decode(&bytes[0..299]));
    assert_eq!(Err(RejectReason::TruncatedPacket), BootPacket::decode(&[]));
    let mut longer = bytes.clone();
    longer.extend_from_slice(&[1, 2, 3]);
    assert_eq!(BootPacket::decode(&bytes), BootPacket::decode(&longer));
}
