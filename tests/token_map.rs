use hyper_evm_sync::evm_map::{erc20_contract_to_system_address, system_address, Address, SpotToken};

fn contract(b: u8) -> Address {
    let mut a = [0u8; 20];
    a[0] = 0xaa;
    a[19] = b;
    a
}

#[test]
fn system_address_of_index_five() {
    let mut expected = [0u8; 20];
    expected[0] = 0x20;
    expected[19] = 5;
    assert_eq!(system_address(5), expected);
}

#[test]
fn system_address_is_big_endian() {
    let a = system_address(0x0102030405060708);
    assert_eq!(a[0], 0x20);
    assert!(a[1..12].iter().all(|b| *b == 0));
    assert_eq!(&a[12..20], &[1, 2, 3, 4, 5, 6, 7, 8]);
    assert_eq!(system_address(u64::MAX)[12..20], [0xff; 8]);
}

#[test]
fn tokens_without_contract_are_skipped() {
    let tokens = vec![
        SpotToken { index: 0, evm_contract: None },
        SpotToken { index: 7, evm_contract: Some(contract(1)) },
    ];
    let map = erc20_contract_to_system_address(&tokens);
    assert_eq!(map.len(), 1);
    assert_eq!(map.get(&contract(1)), Some(system_address(7)));
    assert_eq!(map.get(&contract(2)), None);
}

#[test]
fn later_token_wins_on_same_contract() {
    let tokens = vec![
        SpotToken { index: 3, evm_contract: Some(contract(1)) },
        SpotToken { index: 4, evm_contract: Some(contract(2)) },
        SpotToken { index: 9, evm_contract: Some(contract(1)) },
    ];
    let map = erc20_contract_to_system_address(&tokens);
    assert_eq!(map.len(), 2);
    assert_eq!(map.get(&contract(1)), Some(system_address(9)));
    assert_eq!(map.get(&contract(2)), Some(system_address(4)));
}

#[test]
fn resolving_twice_gives_same_map() {
    let tokens = vec![
        SpotToken { index: 1, evm_contract: Some(contract(1)) },
        SpotToken { index: 2, evm_contract: None },
        SpotToken { index: 5, evm_contract: Some(contract(5)) },
    ];
    let a = erc20_contract_to_system_address(&tokens);
    let b = erc20_contract_to_system_address(&tokens);
    assert_eq!(a.len(), b.len());
    for t in &tokens {
        if let Some(c) = t.evm_contract {
            assert_eq!(a.get(&c), b.get(&c));
        }
    }
}

#[test]
fn empty_token_list_gives_empty_map() {
    let map = erc20_contract_to_system_address(&Vec::new());
    assert_eq!(map.len(), 0);
}

#[test]
fn bridging_contract_is_substituted() {
    let tokens = vec![SpotToken { index: 12, evm_contract: Some(contract(1)) }];
    let map = erc20_contract_to_system_address(&tokens);
    assert_eq!(map.substitute(&contract(1)), system_address(12));
    assert_eq!(map.substitute(&contract(3)), contract(3));
}
