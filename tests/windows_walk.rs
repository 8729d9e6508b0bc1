use ifaces::decode::{ipv4_octets, read_u32_le};
use ifaces::model::{EnumerationError, Kind, SocketAddress};
use ifaces::windows::{
    ifaces, map_adapter_addresses, Acquisition, Action, IpAdapterAddresses,
    IpAdapterUnicastAddress, IpDadState, AF_INET, AF_INET6, ERROR_ADDRESS_NOT_ASSOCIATED,
    ERROR_BUFFER_OVERFLOW, ERROR_INVALID_PARAMETER, ERROR_NOT_ENOUGH_MEMORY, ERROR_NO_DATA,
    ERROR_SUCCESS, MAX_ATTEMPTS, PREALLOC_ADAPTERS_LEN,
};

fn v4_unicast(ip: [u8; 4], dad: IpDadState) -> IpAdapterUnicastAddress {
    let mut address = vec![2, 0, 0x1f, 0x90, ip[0], ip[1], ip[2], ip[3]];
    address.extend_from_slice(&[0u8; 8]);
    IpAdapterUnicastAddress { length: 48, family: AF_INET, address, dad_state: dad }
}

fn v6_unicast(ip: [u8; 16], dad: IpDadState) -> IpAdapterUnicastAddress {
    let mut address = vec![23, 0, 0, 0, 0, 0, 0, 0];
    address.extend_from_slice(&ip);
    address.extend_from_slice(&[9, 0, 0, 0]);
    IpAdapterUnicastAddress { length: 48, family: AF_INET6, address, dad_state: dad }
}

fn ula() -> [u8; 16] {
    [0xfd, 0x00, 0, 0, 0, 0, 0, 0, 0, 0, 0, 0, 0, 0, 0xab, 0xcd]
}

#[test]
fn scenario_ipv6_scope_from_adapter() {
    let adapters = vec![IpAdapterAddresses {
        ipv6_if_index: 5,
        first_unicast_address: vec![v6_unicast(ula(), IpDadState::IpDadStatePreferred)],
    }];
    let r = map_adapter_addresses(&adapters);
    assert_eq!(r.len(), 1);
    assert_eq!(r[0].kind, Kind::Ipv6);
    assert_eq!(r[0].name, "");
    assert_eq!(
        r[0].addr,
        Some(SocketAddress::V6 { ip: [0xfd00, 0, 0, 0, 0, 0, 0, 0xabcd], port: 0, scope_id: 5 })
    );
    assert_eq!(r[0].mask, None);
    assert_eq!(r[0].hop, None);
}

#[test]
fn scenario_deprecated_gives_nothing() {
    let adapters = vec![IpAdapterAddresses {
        ipv6_if_index: 5,
        first_unicast_address: vec![v4_unicast([10, 0, 0, 1], IpDadState::IpDadStateDeprecated)],
    }];
    assert!(map_adapter_addresses(&adapters).is_empty());
}

#[test]
fn zero_length_record_is_passed_over() {
    let mut zero = v4_unicast([10, 0, 0, 1], IpDadState::IpDadStatePreferred);
    zero.length = 0;
    let adapters = vec![IpAdapterAddresses {
        ipv6_if_index: 1,
        first_unicast_address: vec![zero, v4_unicast([10, 0, 0, 2], IpDadState::IpDadStatePreferred)],
    }];
    let r = map_adapter_addresses(&adapters);
    assert_eq!(r.len(), 1);
    assert_eq!(r[0].addr, Some(SocketAddress::V4 { ip: [10, 0, 0, 2], port: 0 }));
}

#[test]
fn ipv4_records_in_order_over_adapters() {
    let adapters = vec![
        IpAdapterAddresses {
            ipv6_if_index: 1,
            first_unicast_address: vec![
                v4_unicast([192, 168, 0, 7], IpDadState::IpDadStatePreferred),
                v4_unicast([10, 1, 2, 3], IpDadState::IpDadStateTentative),
            ],
        },
        IpAdapterAddresses { ipv6_if_index: 2, first_unicast_address: vec![] },
        IpAdapterAddresses {
            ipv6_if_index: 3,
            first_unicast_address: vec![v4_unicast([127, 0, 0, 1], IpDadState::IpDadStatePreferred)],
        },
    ];
    let r = map_adapter_addresses(&adapters);
    let ips: Vec<Option<SocketAddress>> = r.iter().map(|i| i.addr).collect();
    assert_eq!(
        ips,
        vec![
            Some(SocketAddress::V4 { ip: [192, 168, 0, 7], port: 0 }),
            Some(SocketAddress::V4 { ip: [10, 1, 2, 3], port: 0 }),
            Some(SocketAddress::V4 { ip: [127, 0, 0, 1], port: 0 }),
        ]
    );
    assert!(r.iter().all(|i| i.kind == Kind::Ipv4));
}

#[test]
fn other_family_record_is_passed_over() {
    let mut odd = v4_unicast([10, 0, 0, 1], IpDadState::IpDadStatePreferred);
    odd.family = 17;
    let adapters = vec![IpAdapterAddresses { ipv6_if_index: 1, first_unicast_address: vec![odd] }];
    assert!(map_adapter_addresses(&adapters).is_empty());
}

#[test]
fn acquired_buffer_gives_list_and_error_passes_through() {
    let adapters = vec![IpAdapterAddresses {
        ipv6_if_index: 1,
        first_unicast_address: vec![v4_unicast([10, 0, 0, 1], IpDadState::IpDadStatePreferred)],
    }];
    assert_eq!(ifaces(Ok(()), &adapters).unwrap().len(), 1);
    assert_eq!(ifaces(Err(EnumerationError::NoData), &adapters), Err(EnumerationError::NoData));
}

#[test]
fn overflow_then_success() {
    let mut acq = Acquisition::new();
    assert_eq!(acq.capacity, PREALLOC_ADAPTERS_LEN);
    assert_eq!(acq.local_ifaces_with_buffer(ERROR_BUFFER_OVERFLOW, 40000), Action::Call(40000));
    assert_eq!(acq.capacity, 40000);
    assert_eq!(acq.attempts, 1);
    assert_eq!(acq.local_ifaces_with_buffer(ERROR_SUCCESS, 40000), Action::Ready);
}

#[test]
fn overflow_retries_are_capped() {
    let mut acq = Acquisition::new();
    for _ in 0..MAX_ATTEMPTS - 1 {
        assert!(matches!(acq.local_ifaces_with_buffer(ERROR_BUFFER_OVERFLOW, 20000), Action::Call(20000)));
    }
    assert_eq!(
        acq.local_ifaces_with_buffer(ERROR_BUFFER_OVERFLOW, 20000),
        Action::Failed(EnumerationError::TooManyRetries)
    );
}

#[test]
fn status_codes_map_to_errors() {
    let cases = [
        (ERROR_ADDRESS_NOT_ASSOCIATED, EnumerationError::AddressNotAssociated),
        (ERROR_INVALID_PARAMETER, EnumerationError::InvalidParameter),
        (ERROR_NOT_ENOUGH_MEMORY, EnumerationError::OutOfMemory),
        (ERROR_NO_DATA, EnumerationError::NoData),
        (31, EnumerationError::Other),
    ];
    for (code, err) in cases {
        let mut acq = Acquisition::new();
        assert_eq!(acq.local_ifaces_with_buffer(code, 0), Action::Failed(err));
    }
}

#[test]
fn dad_state_values() {
    assert_eq!(IpDadState::from_value(3), Some(IpDadState::IpDadStateDeprecated));
    assert_eq!(IpDadState::from_value(4), Some(IpDadState::IpDadStatePreferred));
    assert_eq!(IpDadState::from_value(5), None);
}

#[test]
fn little_endian_word_splits_into_octets() {
    let b = vec![127u8, 0, 0, 1];
    let w = read_u32_le(&b, 0);
    assert_eq!(w, 0x0100007f);
    assert_eq!(ipv4_octets(w), [127, 0, 0, 1]);
    assert_eq!(ipv4_octets(0x04030201), [1, 2, 3, 4]);
}
