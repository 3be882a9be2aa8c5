use etherscan::{EtherscanAction, EtherscanFormat, EtherscanModule, EtherscanSort, EtherscanTag};

#[test]
fn module_names() {
    assert_eq!(EtherscanModule::Unknown.as_str(), "unknown");
    assert_eq!(EtherscanModule::Account.as_str(), "account");
    assert_eq!(EtherscanModule::Contract.as_str(), "contract");
    assert_eq!(EtherscanModule::Transaction.as_str(), "transaction");
    assert_eq!(EtherscanModule::Block.as_str(), "block");
    assert_eq!(EtherscanModule::Stats.as_str(), "stats");
}

#[test]
fn action_names() {
    let expected = [
        (EtherscanAction::Unknown, "unknown"),
        (EtherscanAction::Balance, "balance"),
        (EtherscanAction::BalanceMulti, "balancemulti"),
        (EtherscanAction::TxList, "txlist"),
        (EtherscanAction::TxListInternal, "txlistinternal"),
        (EtherscanAction::TokenTx, "tokentx"),
        (EtherscanAction::TokenNftTx, "tokennfttx"),
        (EtherscanAction::TokenBalance, "tokenbalance"),
        (EtherscanAction::GetABI, "getabi"),
        (EtherscanAction::GetSourceCode, "getsourcecode"),
        (EtherscanAction::GetStatus, "getstatus"),
        (EtherscanAction::GetTxReceiptStatus, "gettxreceiptstatus"),
        (EtherscanAction::GetBlockReward, "getblockreward"),
        (EtherscanAction::GetBlockCountdown, "getblockcountdown"),
        (EtherscanAction::GetBlockNoByTime, "getblocknobytime"),
        (EtherscanAction::TokenSupply, "tokensupply"),
        (EtherscanAction::EthSupply, "ethsupply"),
        (EtherscanAction::EthSupply2, "ethsupply2"),
        (EtherscanAction::EthPrice, "ethprice"),
        (EtherscanAction::NodeCount, "nodecount"),
    ];
    for (action, name) in expected {
        assert_eq!(action.as_str(), name);
    }
}

#[test]
fn action_names_are_the_variant_names_in_lower_case() {
    let all = [
        EtherscanAction::Unknown,
        EtherscanAction::Balance,
        EtherscanAction::BalanceMulti,
        EtherscanAction::TxList,
        EtherscanAction::TxListInternal,
        EtherscanAction::TokenTx,
        EtherscanAction::TokenNftTx,
        EtherscanAction::TokenBalance,
        EtherscanAction::GetABI,
        EtherscanAction::GetSourceCode,
        EtherscanAction::GetStatus,
        EtherscanAction::GetTxReceiptStatus,
        EtherscanAction::GetBlockReward,
        EtherscanAction::GetBlockCountdown,
        EtherscanAction::GetBlockNoByTime,
        EtherscanAction::TokenSupply,
        EtherscanAction::EthSupply,
        EtherscanAction::EthSupply2,
        EtherscanAction::EthPrice,
        EtherscanAction::NodeCount,
    ];
    for action in all {
        assert_eq!(action.as_str(), format!("{:?}", action).to_lowercase());
    }
}

#[test]
fn module_names_are_the_variant_names_in_lower_case() {
    let all = [
        EtherscanModule::Unknown,
        EtherscanModule::Account,
        EtherscanModule::Contract,
        EtherscanModule::Transaction,
        EtherscanModule::Block,
        EtherscanModule::Stats,
    ];
    for module in all {
        assert_eq!(module.as_str(), format!("{:?}", module).to_lowercase());
    }
}

#[test]
fn sort_names() {
    assert_eq!(EtherscanSort::Ascending.as_str(), "asc");
    assert_eq!(EtherscanSort::Descending.as_str(), "desc");
}

#[test]
fn tag_and_format_names() {
    assert_eq!(EtherscanTag::Latest.as_str(), "latest");
    assert_eq!(EtherscanFormat::Raw.as_str(), "raw");
}

#[test]
fn defaults_are_unknown() {
    assert_eq!(EtherscanModule::default(), EtherscanModule::Unknown);
    assert_eq!(EtherscanAction::default(), EtherscanAction::Unknown);
}
