use etherscan::{EtherscanRequest, EtherscanSort, EtherscanTag, Uint256};

fn n(x: u64) -> Uint256 {
    Uint256::from_u64(x)
}

#[test]
fn account_balance_family() {
    assert_eq!(
        EtherscanRequest::account_balance(n(0x1F), None).build(),
        "?module=account&action=balance&address=0x1F"
    );
    assert_eq!(
        EtherscanRequest::account_balance(n(0x1F), Some(EtherscanTag::Latest)).build(),
        "?module=account&action=balance&address=0x1F&tag=latest"
    );
}

#[test]
fn account_balance_multi_family() {
    assert_eq!(
        EtherscanRequest::account_balance_multi(vec![n(0xA), n(0xB0), n(0)], None).build(),
        "?module=account&action=balancemulti&address=0xA,0xB0,0x0"
    );
    assert_eq!(
        EtherscanRequest::account_balance_multi(vec![n(0xA)], Some(EtherscanTag::Latest)).build(),
        "?module=account&action=balancemulti&address=0xA&tag=latest"
    );
}

#[test]
fn account_balance_multi_of_no_address() {
    assert_eq!(
        EtherscanRequest::account_balance_multi(Vec::new(), None).build(),
        "?module=account&action=balancemulti&address="
    );
}

#[test]
fn account_tx_list_family() {
    assert_eq!(
        EtherscanRequest::account_tx_list(n(0xC), None, None, None, None, None).build(),
        "?module=account&action=txlist&address=0xC"
    );
    assert_eq!(
        EtherscanRequest::account_tx_list(
            n(0xC),
            Some(n(100)),
            Some(n(200)),
            Some(n(1)),
            Some(n(50)),
            Some(EtherscanSort::Ascending)
        )
        .build(),
        "?module=account&action=txlist&address=0xC&page=1&offset=50&startblock=100&endblock=200&sort=asc"
    );
}

#[test]
fn account_tx_list_internal_family() {
    assert_eq!(
        EtherscanRequest::account_tx_list_internal(n(0xC), None, None, None, None, None).build(),
        "?module=account&action=txlistinternal&address=0xC"
    );
    assert_eq!(
        EtherscanRequest::account_tx_list_internal(
            n(0xC),
            Some(n(100)),
            Some(n(200)),
            Some(n(1)),
            Some(n(50)),
            Some(EtherscanSort::Descending)
        )
        .build(),
        "?module=account&action=txlistinternal&address=0xC&page=1&offset=50&startblock=100&endblock=200&sort=desc"
    );
}

#[test]
fn account_tx_list_internal_hash_family() {
    assert_eq!(
        EtherscanRequest::account_tx_list_internal_hash(n(0xDEAD)).build(),
        "?module=account&action=txlistinternal&txhash=0xDEAD"
    );
}

#[test]
fn account_token_tx_family() {
    assert_eq!(
        EtherscanRequest::account_token_tx(None, None, None, None, None, None, None).build(),
        "?module=account&action=tokentx"
    );
    assert_eq!(
        EtherscanRequest::account_token_tx(Some(n(0xC0)), None, None, None, None, None, None)
            .build(),
        "?module=account&action=tokentx&contractaddress=0xC0"
    );
    assert_eq!(
        EtherscanRequest::account_token_tx(None, Some(n(0xA0)), None, None, None, None, None)
            .build(),
        "?module=account&action=tokentx&address=0xA0"
    );
    assert_eq!(
        EtherscanRequest::account_token_tx(
            Some(n(0xC0)),
            Some(n(0xA0)),
            Some(n(5)),
            Some(n(6)),
            Some(n(7)),
            Some(n(8)),
            Some(EtherscanSort::Ascending)
        )
        .build(),
        "?module=account&action=tokentx&contractaddress=0xC0&address=0xA0&page=7&offset=8&startblock=5&endblock=6&sort=asc"
    );
}

#[test]
fn account_token_nft_tx_family() {
    assert_eq!(
        EtherscanRequest::account_token_nft_tx(n(0xC0), n(0xA0), None, None, None, None, None)
            .build(),
        "?module=account&action=tokennfttx&contractaddress=0xC0&address=0xA0"
    );
    assert_eq!(
        EtherscanRequest::account_token_nft_tx(
            n(0xC0),
            n(0xA0),
            Some(n(5)),
            Some(n(6)),
            Some(n(7)),
            Some(n(8)),
            Some(EtherscanSort::Descending)
        )
        .build(),
        "?module=account&action=tokennfttx&contractaddress=0xC0&address=0xA0&page=7&offset=8&startblock=5&endblock=6&sort=desc"
    );
}

#[test]
fn account_token_balance_family() {
    assert_eq!(
        EtherscanRequest::account_token_balance(n(0xA0), n(0xC0), None).build(),
        "?module=account&action=tokenbalance&contractaddress=0xC0&address=0xA0"
    );
    assert_eq!(
        EtherscanRequest::account_token_balance(n(0xA0), n(0xC0), Some(EtherscanTag::Latest))
            .build(),
        "?module=account&action=tokenbalance&contractaddress=0xC0&address=0xA0&tag=latest"
    );
}

#[test]
fn contract_get_abi_family() {
    assert_eq!(
        EtherscanRequest::contract_get_abi(n(0xC0)).build(),
        "?module=contract&action=getabi&contractaddress=0xC0"
    );
}

#[test]
fn contract_get_source_code_family() {
    assert_eq!(
        EtherscanRequest::contract_get_source_code(n(0xC0)).build(),
        "?module=contract&action=getsourcecode&contractaddress=0xC0"
    );
}

#[test]
fn transaction_get_status_family() {
    assert_eq!(
        EtherscanRequest::transaction_get_status(n(0xBEEF)).build(),
        "?module=transaction&action=getstatus&txhash=0xBEEF"
    );
}

#[test]
fn transaction_get_receipt_status_family() {
    assert_eq!(
        EtherscanRequest::transaction_get_receipt_status(n(0xBEEF)).build(),
        "?module=transaction&action=gettxreceiptstatus&txhash=0xBEEF"
    );
}

#[test]
fn block_get_countdown_family() {
    assert_eq!(
        EtherscanRequest::block_get_countdown(n(16701588)).build(),
        "?module=block&action=getblockcountdown&blockno=16701588"
    );
}

#[test]
fn block_get_number_by_timestamp_family() {
    assert_eq!(
        EtherscanRequest::block_get_number_by_timestamp(n(1578638524)).build(),
        "?module=block&action=getblocknobytime&timestamp=1578638524"
    );
}

#[test]
fn stats_token_supply_family() {
    assert_eq!(
        EtherscanRequest::stats_token_supply(n(0xC0)).build(),
        "?module=stats&action=tokensupply&contractaddress=0xC0"
    );
}

#[test]
fn stats_families_without_parameters() {
    assert_eq!(EtherscanRequest::stats_eth_supply().build(), "?module=stats&action=ethsupply");
    assert_eq!(EtherscanRequest::stats_eth2_supply().build(), "?module=stats&action=ethsupply2");
    assert_eq!(EtherscanRequest::stats_eth_price().build(), "?module=stats&action=ethprice");
    assert_eq!(EtherscanRequest::stats_node_count().build(), "?module=stats&action=nodecount");
}

#[test]
fn contract_families_leave_the_account_address_absent() {
    let abi = EtherscanRequest::contract_get_abi(n(0xC0)).into_parts();
    assert_eq!(abi.contractaddress, Some(n(0xC0)));
    assert!(abi.address.is_none());
    let source = EtherscanRequest::contract_get_source_code(n(0xC0)).into_parts();
    assert_eq!(source.contractaddress, Some(n(0xC0)));
    assert!(source.address.is_none());
}
