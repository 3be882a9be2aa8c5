//! The closed sets of names that appear as values in a query: modules,
//! actions, block tags, sort directions and response formats, each with the
//! text it is written as.

use vstd::prelude::*;

verus! {

/// The API subsystem a request is sent to.
#[derive(Clone, Copy, Debug, PartialEq, Eq, Structural)]
pub enum EtherscanModule {
    Unknown,
    Account,
    Contract,
    Transaction,
    Block,
    Stats,
}

impl EtherscanModule {
    /// The text of this module in a query: its name in lower case.
    pub open spec fn tag(self) -> Seq<char> {
        match self {
            EtherscanModule::Unknown => "unknown"@,
            EtherscanModule::Account => "account"@,
            EtherscanModule::Contract => "contract"@,
            EtherscanModule::Transaction => "transaction"@,
            EtherscanModule::Block => "block"@,
            EtherscanModule::Stats => "stats"@,
        }
    }

    /// This module as a query writes it.
    pub fn as_str(self) -> (s: &'static str)
        ensures
            s@ == self.tag(),
    {
        match self {
            EtherscanModule::Unknown => "unknown",
            EtherscanModule::Account => "account",
            EtherscanModule::Contract => "contract",
            EtherscanModule::Transaction => "transaction",
            EtherscanModule::Block => "block",
            EtherscanModule::Stats => "stats",
        }
    }
}

impl Default for EtherscanModule {
    /// The module that stands for none.
    fn default() -> (m: Self)
        ensures
            m == EtherscanModule::Unknown,
    {
        EtherscanModule::Unknown
    }
}

/// The direction in which a list of results is ordered.
#[derive(Clone, Copy, Debug, PartialEq, Eq, Structural)]
pub enum EtherscanSort {
    Ascending,
    Descending,
}

impl EtherscanSort {
    /// The text of this direction in a query: `asc` or `desc`.
    pub open spec fn tag(self) -> Seq<char> {
        match self {
            EtherscanSort::Ascending => "asc"@,
            EtherscanSort::Descending => "desc"@,
        }
    }

    /// This direction as a query writes it.
    pub fn as_str(self) -> (s: &'static str)
        ensures
            s@ == self.tag(),
    {
        match self {
            EtherscanSort::Ascending => "asc",
            EtherscanSort::Descending => "desc",
        }
    }
}

/// The operation asked of a module.
#[derive(Clone, Copy, Debug, PartialEq, Eq, Structural)]
pub enum EtherscanAction {
    Unknown,
    Balance,
    BalanceMulti,
    TxList,
    TxListInternal,
    TokenTx,
    TokenNftTx,
    TokenBalance,
    GetABI,
    GetSourceCode,
    GetStatus,
    GetTxReceiptStatus,
    GetBlockReward,
    GetBlockCountdown,
    GetBlockNoByTime,
    TokenSupply,
    EthSupply,
    EthSupply2,
    EthPrice,
    NodeCount,
}

impl EtherscanAction {
    /// The text of this action in a query: its name in lower case.
    pub open spec fn tag(self) -> Seq<char> {
        match self {
            EtherscanAction::Unknown => "unknown"@,
            EtherscanAction::Balance => "balance"@,
            EtherscanAction::BalanceMulti => "balancemulti"@,
            EtherscanAction::TxList => "txlist"@,
            EtherscanAction::TxListInternal => "txlistinternal"@,
            EtherscanAction::TokenTx => "tokentx"@,
            EtherscanAction::TokenNftTx => "tokennfttx"@,
            EtherscanAction::TokenBalance => "tokenbalance"@,
            EtherscanAction::GetABI => "getabi"@,
            EtherscanAction::GetSourceCode => "getsourcecode"@,
            EtherscanAction::GetStatus => "getstatus"@,
            EtherscanAction::GetTxReceiptStatus => "gettxreceiptstatus"@,
            EtherscanAction::GetBlockReward => "getblockreward"@,
            EtherscanAction::GetBlockCountdown => "getblockcountdown"@,
            EtherscanAction::GetBlockNoByTime => "getblocknobytime"@,
            EtherscanAction::TokenSupply => "tokensupply"@,
            EtherscanAction::EthSupply => "ethsupply"@,
            EtherscanAction::EthSupply2 => "ethsupply2"@,
            EtherscanAction::EthPrice => "ethprice"@,
            EtherscanAction::NodeCount => "nodecount"@,
        }
    }

    /// This action as a query writes it.
    pub fn as_str(self) -> (s: &'static str)
        ensures
            s@ == self.tag(),
    {
        match self {
            EtherscanAction::Unknown => "unknown",
            EtherscanAction::Balance => "balance",
            EtherscanAction::BalanceMulti => "balancemulti",
            EtherscanAction::TxList => "txlist",
            EtherscanAction::TxListInternal => "txlistinternal",
            EtherscanAction::TokenTx => "tokentx",
            EtherscanAction::TokenNftTx => "tokennfttx",
            EtherscanAction::TokenBalance => "tokenbalance",
            EtherscanAction::GetABI => "getabi",
            EtherscanAction::GetSourceCode => "getsourcecode",
            EtherscanAction::GetStatus => "getstatus",
            EtherscanAction::GetTxReceiptStatus => "gettxreceiptstatus",
            EtherscanAction::GetBlockReward => "getblockreward",
            EtherscanAction::GetBlockCountdown => "getblockcountdown",
            EtherscanAction::GetBlockNoByTime => "getblocknobytime",
            EtherscanAction::TokenSupply => "tokensupply",
            EtherscanAction::EthSupply => "ethsupply",
            EtherscanAction::EthSupply2 => "ethsupply2",
            EtherscanAction::EthPrice => "ethprice",
            EtherscanAction::NodeCount => "nodecount",
        }
    }
}

impl Default for EtherscanAction {
    /// The action that stands for none.
    fn default() -> (a: Self)
        ensures
            a == EtherscanAction::Unknown,
    {
        EtherscanAction::Unknown
    }
}

/// A block named by its place in the chain instead of its number.
#[derive(Clone, Copy, Debug, PartialEq, Eq, Structural)]
pub enum EtherscanTag {
    Latest,
}

impl EtherscanTag {
    /// The text of this block tag in a query.
    pub open spec fn tag(self) -> Seq<char> {
        match self {
            EtherscanTag::Latest => "latest"@,
        }
    }

    /// This block tag as a query writes it.
    pub fn as_str(self) -> (s: &'static str)
        ensures
            s@ == self.tag(),
    {
        match self {
            EtherscanTag::Latest => "latest",
        }
    }
}

/// The form in which the response is asked for.
#[derive(Clone, Copy, Debug, PartialEq, Eq, Structural)]
pub enum EtherscanFormat {
    Raw,
}

impl EtherscanFormat {
    /// The text of this format in a query.
    pub open spec fn tag(self) -> Seq<char> {
        match self {
            EtherscanFormat::Raw => "raw"@,
        }
    }

    /// This format as a query writes it.
    pub fn as_str(self) -> (s: &'static str)
        ensures
            s@ == self.tag(),
    {
        match self {
            EtherscanFormat::Raw => "raw",
        }
    }
}

/// `c` is a lower-case letter or a digit.
pub open spec fn is_lower_alnum(c: char) -> bool {
    ('a' <= c && c <= 'z') || ('0' <= c && c <= '9')
}

/// A text of one or more lower-case letters and digits.
pub open spec fn is_name(s: Seq<char>) -> bool {
    s.len() > 0 && forall|i: int| 0 <= i < s.len() ==> is_lower_alnum(#[trigger] s[i])
}

/// Each module is written as a name in lower case, and no two modules are
/// written alike.
pub proof fn lemma_module_tags(a: EtherscanModule, b: EtherscanModule)
    ensures
        is_name(a.tag()),
        a.tag() == b.tag() ==> a == b,
{
    reveal_strlit("unknown");
    reveal_strlit("account");
    reveal_strlit("contract");
    reveal_strlit("transaction");
    reveal_strlit("block");
    reveal_strlit("stats");
    if a.tag() == b.tag() {
        assert(a.tag()[0] == b.tag()[0]);
    }
}

/// Each sort direction is written as a name in lower case, and the two are
/// not written alike.
pub proof fn lemma_sort_tags(a: EtherscanSort, b: EtherscanSort)
    ensures
        is_name(a.tag()),
        a.tag() == b.tag() ==> a == b,
{
    reveal_strlit("asc");
    reveal_strlit("desc");
    if a.tag() == b.tag() {
    }
}

/// The block tag and the response format are written as names in lower
/// case.
pub proof fn lemma_tag_and_format_tags(t: EtherscanTag, f: EtherscanFormat)
    ensures
        is_name(t.tag()),
        is_name(f.tag()),
{
    reveal_strlit("latest");
    reveal_strlit("raw");
}

/// Each action is written as a name in lower case.
pub proof fn lemma_action_tag_is_name(a: EtherscanAction)
    ensures
        is_name(a.tag()),
{
    reveal_strlit("unknown");
    reveal_strlit("balance");
    reveal_strlit("balancemulti");
    reveal_strlit("txlist");
    reveal_strlit("txlistinternal");
    reveal_strlit("tokentx");
    reveal_strlit("tokennfttx");
    reveal_strlit("tokenbalance");
    reveal_strlit("getabi");
    reveal_strlit("getsourcecode");
    reveal_strlit("getstatus");
    reveal_strlit("gettxreceiptstatus");
    reveal_strlit("getblockreward");
    reveal_strlit("getblockcountdown");
    reveal_strlit("getblocknobytime");
    reveal_strlit("tokensupply");
    reveal_strlit("ethsupply");
    reveal_strlit("ethsupply2");
    reveal_strlit("ethprice");
    reveal_strlit("nodecount");
}

/// What tells the tags of the actions apart: the length of a tag and three
/// of its characters.
spec fn action_mark(t: Seq<char>) -> (nat, char, char, char) {
    (t.len(), t[0], t[3], t[5])
}

/// No two actions are written alike.
pub proof fn lemma_action_tags_distinct(a: EtherscanAction, b: EtherscanAction)
    requires
        a.tag() == b.tag(),
    ensures
        a == b,
{
    reveal_strlit("unknown");
    reveal_strlit("balance");
    reveal_strlit("balancemulti");
    reveal_strlit("txlist");
    reveal_strlit("txlistinternal");
    reveal_strlit("tokentx");
    reveal_strlit("tokennfttx");
    reveal_strlit("tokenbalance");
    reveal_strlit("getabi");
    reveal_strlit("getsourcecode");
    reveal_strlit("getstatus");
    reveal_strlit("gettxreceiptstatus");
    reveal_strlit("getblockreward");
    reveal_strlit("getblockcountdown");
    reveal_strlit("getblocknobytime");
    reveal_strlit("tokensupply");
    reveal_strlit("ethsupply");
    reveal_strlit("ethsupply2");
    reveal_strlit("ethprice");
    reveal_strlit("nodecount");
    assert(action_mark(a.tag()) == action_mark(b.tag()));
}

} // verus!
