use headers_cache::check_system::{CheckSystem, SidevmQuery, CENTS};

#[test]
fn it_works() {
    let mut contract = CheckSystem::default();
    contract.set_flag("42".into());
    let flag = contract.flag();
    assert_eq!(flag, "42");
}

#[test]
fn contract_starts_blank() {
    let contract = CheckSystem::default();
    assert!(!contract.on_block_end_called());
    assert_eq!(contract.flag(), "");
    assert_eq!(contract.sidevm_callbak(), 42);
}

#[test]
fn hook_counts_only_when_the_contract_calls_itself() {
    let own = [7u8; 32];
    let mut stranger = own;
    stranger[31] = 8;
    let mut contract = CheckSystem::default();
    contract.set_flag(String::from("kept"));
    contract.on_block_end(&stranger, &own);
    assert!(!contract.on_block_end_called());
    contract.on_block_end(&own, &own);
    assert!(contract.on_block_end_called());
    contract.on_block_end(&stranger, &own);
    assert!(contract.on_block_end_called());
    assert_eq!(contract.flag(), "kept");
}

#[test]
fn side_program_is_asked_by_name() {
    let contract = CheckSystem::default();
    assert_eq!(contract.query_sidevm("ping"), Ok(SidevmQuery::Ping));
    assert_eq!(contract.query_sidevm("callback"), Ok(SidevmQuery::Callback));
    for action in ["", "Ping", "ping ", "call", "callbacks"] {
        assert_eq!(contract.query_sidevm(action), Err(String::from("Invalid action")));
    }
}

#[test]
fn deposit_buys_weight_by_the_cent() {
    assert_eq!(CENTS, 10_000_000_000);
    assert_eq!(CheckSystem::deposit_weight(0), 0);
    assert_eq!(CheckSystem::deposit_weight(CENTS - 1), 0);
    assert_eq!(CheckSystem::deposit_weight(CENTS), 1);
    assert_eq!(CheckSystem::deposit_weight(25 * CENTS + 3), 25);
    // The weight is cut to 32 bits.
    assert_eq!(CheckSystem::deposit_weight(CENTS << 32), 0);
    assert_eq!(CheckSystem::deposit_weight((CENTS << 32) + 5 * CENTS), 5);
    assert_eq!(CheckSystem::deposit_weight(u128::MAX), ((u128::MAX / CENTS) as u32));
}
