use matchbox::id::{
    AddressBlock, IpAddressType, ProvideIdentifier, VmIdentifier, VmIdentifierFactory,
    GROUPS_IN_LAST_BLOCK, LAST_STARTING_IP, MAX_NETWORK_START_BLOCK,
};
use matchbox::text::decimal_string;

#[test]
fn test_no_panics_for_network_range() {
    for block in 0..=MAX_NETWORK_START_BLOCK {
        let _ = AddressBlock::from(block);
    }
}

#[test]
fn next_door_neighbors() {
    let block1 = AddressBlock::from(0);
    let block2 = AddressBlock::from(1);

    assert_eq!(
        block1.base_address(),
        block2.base_address(),
        "address block 0 & 1 should have the same base address"
    );
    assert_eq!(
        block1.starting_ip() + 4,
        block2.starting_ip(),
        "next door neighbor blocks should be separated by 4"
    );
}

#[test]
fn wrap_around_blocks() {
    let block1 = AddressBlock::from(GROUPS_IN_LAST_BLOCK - 1);
    let block2 = AddressBlock::from(GROUPS_IN_LAST_BLOCK);

    assert_ne!(
        block1.base_address(),
        block2.base_address(),
        "base address should be different after we hit the last group in a block"
    );

    assert!(block2.starting_ip() == 1)
}

#[test]
fn address_block_smoke() {
    assert_eq!(AddressBlock::from(0).get_ip(2), "10.200.0.3");
    assert_eq!(AddressBlock::from(59).get_ip(0), "10.200.0.237");
    assert_eq!(AddressBlock::from(60).get_ip(0), "10.200.1.1");
    assert_eq!(AddressBlock::from(15299).get_ip(3), "10.200.254.240");
}

#[test]
fn base_address_and_starting_ip_follow_the_index() {
    let block = AddressBlock::from(125);
    assert_eq!(block.base_address(), "10.200.2");
    assert_eq!(block.starting_ip(), 21);
    assert_eq!(block.get_ip(1), "10.200.2.22");
}

#[test]
fn every_address_in_range_is_a_dotted_quad() {
    for index in 0..=MAX_NETWORK_START_BLOCK {
        let block = AddressBlock::from(index);
        assert!(block.starting_ip() <= LAST_STARTING_IP);
        for k in 0..4u64 {
            let ip = block.get_ip(k);
            let octets: Vec<&str> = ip.split('.').collect();
            assert_eq!(octets.len(), 4);
            for octet in octets {
                let value: u32 = octet.parse().unwrap();
                assert!(value < 256);
                assert_eq!(value.to_string(), octet);
            }
        }
    }
}

#[test]
fn blocks_do_not_share_addresses() {
    let mut seen = std::collections::HashSet::new();
    for index in 0..=MAX_NETWORK_START_BLOCK {
        let block = AddressBlock::from(index);
        for k in 0..4u64 {
            assert!(seen.insert(block.get_ip(k)));
        }
    }
    assert_eq!(seen.len(), 4 * 15300);
}

#[test]
fn neighbours_in_one_row_lie_four_apart() {
    for index in 0..MAX_NETWORK_START_BLOCK {
        let a = AddressBlock::from(index);
        let b = AddressBlock::from(index + 1);
        if index / 60 == (index + 1) / 60 {
            assert_eq!(a.base_address(), b.base_address());
            assert_eq!(b.starting_ip() - a.starting_ip(), 4);
        } else {
            assert_ne!(a.base_address(), b.base_address());
            assert_eq!(b.starting_ip(), 1);
        }
    }
}

#[test]
fn roles_have_their_offsets() {
    assert_eq!(IpAddressType::Veth.offset(), 0);
    assert_eq!(IpAddressType::Vpeer.offset(), 1);
    assert_eq!(IpAddressType::Microvm.offset(), 2);
}

#[test]
fn decimal_rendering() {
    assert_eq!(decimal_string(0), "0");
    assert_eq!(decimal_string(7), "7");
    assert_eq!(decimal_string(10), "10");
    assert_eq!(decimal_string(1000), "1000");
    assert_eq!(decimal_string(u64::MAX), "18446744073709551615");
}

#[test]
fn identifier_keeps_its_parts() {
    let id = VmIdentifier::new("network-1".to_string(), 61);
    assert_eq!(id.id(), "network-1");
    assert_eq!(id.address_block().get_ip(0), "10.200.1.5");
}

#[test]
fn generated_identifiers_are_short_and_alphanumeric() {
    let factory = VmIdentifierFactory;
    let mut ids = std::collections::HashSet::new();
    for _ in 0..200 {
        let id = factory.provide_identifier();
        assert_eq!(id.id().chars().count(), 9);
        assert!(id.id().chars().all(|c| c.is_ascii_alphanumeric()));
        let ip = id.address_block().get_ip(0);
        let third: u64 = ip.split('.').nth(2).unwrap().parse().unwrap();
        assert!(third <= 254);
        assert!(id.address_block().starting_ip() <= 237);
        ids.insert(id.id().to_string());
    }
    assert!(ids.len() > 190);
}

#[test]
fn generated_block_indices_vary() {
    let mut blocks = std::collections::HashSet::new();
    for _ in 0..200 {
        let id = VmIdentifier::default();
        blocks.insert(id.address_block().get_ip(0));
    }
    assert!(blocks.len() > 1);
}
