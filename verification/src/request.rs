//! The request: a record of optional fields, one constructor for each
//! endpoint family, and the rendering of the record into its URL.

use vstd::prelude::*;
use vstd::string::StringExecFns;
use crate::query::{
    head, hex_list_text, join_segments, lemma_join_step, lemma_query_unfold, opt_decimal, opt_hex,
    opt_hex_list, opt_sort, opt_tag, optional_head, optional_segment, segment, Param, RequestView,
};
use crate::tags::{EtherscanAction, EtherscanFormat, EtherscanModule, EtherscanSort, EtherscanTag};
use crate::uint256::{decimal_text, hex_text, Uint256};

verus! {

/// The values of a list of integers.
pub open spec fn values(list: Seq<Uint256>) -> Seq<nat> {
    list.map_values(|x: Uint256| x@)
}

/// The characters of a text, where there is one.
pub open spec fn opt_string_view(value: Option<String>) -> Option<Seq<char>> {
    match value {
        Some(s) => Some(s@),
        None => None,
    }
}

/// The value of an integer, where there is one.
pub open spec fn opt_value(value: Option<Uint256>) -> Option<nat> {
    match value {
        Some(x) => Some(x@),
        None => None,
    }
}

/// The list of the one value, where there is one.
pub open spec fn opt_single(value: Option<Uint256>) -> Option<Seq<nat>> {
    match value {
        Some(x) => Some(seq![x@]),
        None => None,
    }
}

/// The values of a list, where there is one.
pub open spec fn opt_values(value: Option<Vec<Uint256>>) -> Option<Seq<nat>> {
    match value {
        Some(list) => Some(values(list@)),
        None => None,
    }
}

/// One request to the API: the base URL, the module and the action, and the
/// parameters, each of which may be absent.
pub struct EtherscanRequest {
    url: Option<String>,
    module_action: Option<(EtherscanModule, EtherscanAction)>,
    contractaddress: Option<Uint256>,
    address: Option<Vec<Uint256>>,
    tag: Option<EtherscanTag>,
    startblock: Option<Uint256>,
    endblock: Option<Uint256>,
    page: Option<Uint256>,
    offset: Option<Uint256>,
    sort: Option<EtherscanSort>,
    txhash: Option<Uint256>,
    blockno: Option<Uint256>,
    timestamp: Option<Uint256>,
    format: Option<EtherscanFormat>,
    apikey: Option<String>,
}

impl View for EtherscanRequest {
    type V = RequestView;

    closed spec fn view(&self) -> RequestView {
        RequestView {
            url: opt_string_view(self.url),
            module_action: self.module_action,
            contractaddress: opt_value(self.contractaddress),
            address: opt_values(self.address),
            tag: self.tag,
            startblock: opt_value(self.startblock),
            endblock: opt_value(self.endblock),
            page: opt_value(self.page),
            offset: opt_value(self.offset),
            sort: self.sort,
            txhash: opt_value(self.txhash),
            blockno: opt_value(self.blockno),
            timestamp: opt_value(self.timestamp),
            format: self.format,
            apikey: opt_string_view(self.apikey),
        }
    }
}

/// The fields of a request laid open: what a request is put together from
/// and taken apart into where it passes to or from another representation.
pub struct RequestParts {
    pub url: Option<String>,
    pub module_action: Option<(EtherscanModule, EtherscanAction)>,
    pub contractaddress: Option<Uint256>,
    pub address: Option<Vec<Uint256>>,
    pub tag: Option<EtherscanTag>,
    pub startblock: Option<Uint256>,
    pub endblock: Option<Uint256>,
    pub page: Option<Uint256>,
    pub offset: Option<Uint256>,
    pub sort: Option<EtherscanSort>,
    pub txhash: Option<Uint256>,
    pub blockno: Option<Uint256>,
    pub timestamp: Option<Uint256>,
    pub format: Option<EtherscanFormat>,
    pub apikey: Option<String>,
}

impl View for RequestParts {
    type V = RequestView;

    open spec fn view(&self) -> RequestView {
        RequestView {
            url: opt_string_view(self.url),
            module_action: self.module_action,
            contractaddress: opt_value(self.contractaddress),
            address: opt_values(self.address),
            tag: self.tag,
            startblock: opt_value(self.startblock),
            endblock: opt_value(self.endblock),
            page: opt_value(self.page),
            offset: opt_value(self.offset),
            sort: self.sort,
            txhash: opt_value(self.txhash),
            blockno: opt_value(self.blockno),
            timestamp: opt_value(self.timestamp),
            format: self.format,
            apikey: opt_string_view(self.apikey),
        }
    }
}

/// Appends the segment of one parameter, where it has a value.
fn push_param(out: &mut String, key: &str, value: Option<String>)
    ensures
        final(out)@ == old(out)@ + optional_segment(key@, opt_string_view(value)),
{
    match value {
        Some(text) => {
            let ghost before = out@;
            out.append("&");
            out.append(key);
            out.append("=");
            out.append(text.as_str());
            assert(out@ =~= before + segment(key@, text@));
        },
        None => {
            assert(out@ =~= out@ + Seq::<char>::empty());
        },
    }
}

/// The text of an address or a hash, where there is one.
fn hex_param(value: Option<Uint256>) -> (text: Option<String>)
    ensures
        opt_string_view(text) == opt_hex(opt_value(value)),
{
    match value {
        Some(x) => Some(x.to_hex_text()),
        None => None,
    }
}

/// The text of a count, a block number or a timestamp, where there is one.
fn decimal_param(value: Option<Uint256>) -> (text: Option<String>)
    ensures
        opt_string_view(text) == opt_decimal(opt_value(value)),
{
    match value {
        Some(x) => Some(x.to_decimal_text()),
        None => None,
    }
}

/// The addresses of a list, each as `0x` and hexadecimal digits, with a
/// comma between two of them.
pub fn join_hex(list: &Vec<Uint256>) -> (text: String)
    ensures
        text@ == hex_list_text(values(list@)),
{
    let mut text = String::new();
    let mut i: usize = 0;
    while i < list.len()
        invariant
            i <= list.len(),
            text@ == hex_list_text(values(list@).take(i as int)),
        decreases list.len() - i,
    {
        let ghost all = values(list@);
        let ghost before = text@;
        if i > 0 {
            text.append(",");
        }
        let item = list[i].to_hex_text();
        text.append(item.as_str());
        proof {
            assert(all.take(i + 1).drop_last() =~= all.take(i as int));
            assert(all.take(i + 1).last() == list@[i as int]@);
            if i == 0 {
                assert(before =~= Seq::<char>::empty());
                assert(text@ =~= hex_text(all.take(1)[0]));
            } else {
                assert(text@ =~= before + ","@ + hex_text(list@[i as int]@));
            }
        }
        i += 1;
    }
    proof {
        assert(values(list@).take(list.len() as int) =~= values(list@));
    }
    text
}

/// The text of a list of addresses, where there is one.
fn hex_list_param(value: &Option<Vec<Uint256>>) -> (text: Option<String>)
    ensures
        opt_string_view(text) == opt_hex_list(opt_values(*value)),
{
    match value {
        Some(list) => Some(join_hex(list)),
        None => None,
    }
}

/// The text of a name, where there is one.
fn name_param(name: Option<&'static str>) -> (text: Option<String>)
    ensures
        opt_string_view(text) == match name {
            Some(s) => Some(s@),
            None => None,
        },
{
    match name {
        Some(s) => Some(String::from_str(s)),
        None => None,
    }
}

impl Default for EtherscanRequest {
    /// The request with every field absent.
    fn default() -> (r: Self)
        ensures
            r@ == RequestView::empty(),
    {
        EtherscanRequest {
            url: None,
            module_action: None,
            contractaddress: None,
            address: None,
            tag: None,
            startblock: None,
            endblock: None,
            page: None,
            offset: None,
            sort: None,
            txhash: None,
            blockno: None,
            timestamp: None,
            format: None,
            apikey: None,
        }
    }
}

/// A copy of a text, where there is one.
fn clone_text(value: &Option<String>) -> (copy: Option<String>)
    ensures
        opt_string_view(copy) == opt_string_view(*value),
{
    match value {
        Some(s) => Some(s.clone()),
        None => None,
    }
}

/// A copy of a list, item by item.
fn clone_list(list: &Vec<Uint256>) -> (copy: Vec<Uint256>)
    ensures
        copy@ == list@,
{
    let mut copy: Vec<Uint256> = Vec::new();
    let mut i: usize = 0;
    while i < list.len()
        invariant
            i <= list.len(),
            copy@ == list@.take(i as int),
        decreases list.len() - i,
    {
        copy.push(list[i]);
        assert(copy@ =~= list@.take(i + 1));
        i += 1;
    }
    assert(list@.take(list.len() as int) =~= list@);
    copy
}

impl Clone for EtherscanRequest {
    /// A request with the same fields.
    fn clone(&self) -> (r: Self)
        ensures
            r@ == self@,
    {
        let address = match &self.address {
            Some(list) => Some(clone_list(list)),
            None => None,
        };
        EtherscanRequest {
            url: clone_text(&self.url),
            module_action: self.module_action,
            contractaddress: self.contractaddress,
            address,
            tag: self.tag,
            startblock: self.startblock,
            endblock: self.endblock,
            page: self.page,
            offset: self.offset,
            sort: self.sort,
            txhash: self.txhash,
            blockno: self.blockno,
            timestamp: self.timestamp,
            format: self.format,
            apikey: clone_text(&self.apikey),
        }
    }
}

/// The list with one item.
fn single(x: Uint256) -> (list: Vec<Uint256>)
    ensures
        list@ == seq![x],
        values(list@) == seq![x@],
{
    let mut list = Vec::new();
    list.push(x);
    assert(list@ =~= seq![x]);
    assert(values(list@) =~= seq![x@]);
    list
}

impl EtherscanRequest {
    /// The request with the given fields.
    pub fn from_parts(parts: RequestParts) -> (r: Self)
        ensures
            r@ == parts@,
    {
        EtherscanRequest {
            url: parts.url,
            module_action: parts.module_action,
            contractaddress: parts.contractaddress,
            address: parts.address,
            tag: parts.tag,
            startblock: parts.startblock,
            endblock: parts.endblock,
            page: parts.page,
            offset: parts.offset,
            sort: parts.sort,
            txhash: parts.txhash,
            blockno: parts.blockno,
            timestamp: parts.timestamp,
            format: parts.format,
            apikey: parts.apikey,
        }
    }

    /// The fields of this request.
    pub fn into_parts(self) -> (parts: RequestParts)
        ensures
            parts@ == self@,
    {
        RequestParts {
            url: self.url,
            module_action: self.module_action,
            contractaddress: self.contractaddress,
            address: self.address,
            tag: self.tag,
            startblock: self.startblock,
            endblock: self.endblock,
            page: self.page,
            offset: self.offset,
            sort: self.sort,
            txhash: self.txhash,
            blockno: self.blockno,
            timestamp: self.timestamp,
            format: self.format,
            apikey: self.apikey,
        }
    }

    /// The same request with the base URL set.
    pub fn with_url(self, url: String) -> (r: Self)
        ensures
            r@ == (RequestView { url: Some(url@), ..self@ }),
            self@.url is None ==> r@.query() == url@ + self@.query(),
    {
        let mut r = self;
        r.url = Some(url);
        proof {
            assert(r@.params() == self@.params());
            assert(r@.query() =~= url@ + (optional_head(self@.module_action)
                + join_segments(self@.params())));
            if self@.url is None {
                assert(self@.query() =~= optional_head(self@.module_action)
                    + join_segments(self@.params()));
            }
        }
        r
    }

    /// The same request with the API key set.
    pub fn with_apikey(self, apikey: String) -> (r: Self)
        ensures
            r@ == (RequestView { apikey: Some(apikey@), ..self@ }),
            self@.apikey is None ==> r@.query() == self@.query() + segment("apikey"@, apikey@),
    {
        let mut r = self;
        r.apikey = Some(apikey);
        proof {
            if self@.apikey is None {
                lemma_query_unfold(self@);
                lemma_query_unfold(r@);
                assert(optional_segment("apikey"@, self@.apikey) == Seq::<char>::empty());
                assert(self@.query() + segment("apikey"@, apikey@) =~= r@.query());
            }
        }
        r
    }

    /// The same request with the response format set.
    pub fn with_format(self, format: EtherscanFormat) -> (r: Self)
        ensures
            r@ == (RequestView { format: Some(format), ..self@ }),
            self@.format is None && self@.apikey is None ==> r@.query() == self@.query() + segment(
                "format"@,
                format.tag(),
            ),
    {
        let mut r = self;
        r.format = Some(format);
        proof {
            if self@.format is None && self@.apikey is None {
                lemma_query_unfold(self@);
                lemma_query_unfold(r@);
                assert(self@.query() + segment("format"@, format.tag()) =~= r@.query());
            }
        }
        r
    }

    /// The balance of one account.
    pub fn account_balance(address: Uint256, tag: Option<EtherscanTag>) -> (r: Self)
        ensures
            r@ == (RequestView {
                module_action: Some((EtherscanModule::Account, EtherscanAction::Balance)),
                address: Some(seq![address@]),
                tag,
                ..RequestView::empty()
            }),
            r@.query() == head(EtherscanModule::Account, EtherscanAction::Balance) + segment(
                "address"@,
                hex_text(address@),
            ) + optional_segment("tag"@, opt_tag(tag)),
    {
        let r = EtherscanRequest {
            module_action: Some((EtherscanModule::Account, EtherscanAction::Balance)),
            address: Some(single(address)),
            tag,
            ..Default::default()
        };
        proof {
            lemma_query_unfold(r@);
            assert(hex_list_text(seq![address@]) == hex_text(address@));
            assert(r@.query() =~= head(EtherscanModule::Account, EtherscanAction::Balance)
                + segment("address"@, hex_text(address@)) + optional_segment("tag"@, opt_tag(tag)));
        }
        r
    }

    /// The balances of several accounts.
    pub fn account_balance_multi(addresses: Vec<Uint256>, tag: Option<EtherscanTag>) -> (r: Self)
        ensures
            r@ == (RequestView {
                module_action: Some((EtherscanModule::Account, EtherscanAction::BalanceMulti)),
                address: Some(values(addresses@)),
                tag,
                ..RequestView::empty()
            }),
            r@.query() == head(EtherscanModule::Account, EtherscanAction::BalanceMulti)
                + segment("address"@, hex_list_text(values(addresses@)))
                + optional_segment("tag"@, opt_tag(tag)),
    {
        let r = EtherscanRequest {
            module_action: Some((EtherscanModule::Account, EtherscanAction::BalanceMulti)),
            address: Some(addresses),
            tag,
            ..Default::default()
        };
        proof {
            lemma_query_unfold(r@);
            assert(r@.query() =~= head(EtherscanModule::Account, EtherscanAction::BalanceMulti)
                + segment("address"@, hex_list_text(values(addresses@)))
                + optional_segment("tag"@, opt_tag(tag)));
        }
        r
    }

    /// The transactions of one account.
    pub fn account_tx_list(
        address: Uint256,
        startblock: Option<Uint256>,
        endblock: Option<Uint256>,
        page: Option<Uint256>,
        offset: Option<Uint256>,
        sort: Option<EtherscanSort>,
    ) -> (r: Self)
        ensures
            r@ == (RequestView {
                module_action: Some((EtherscanModule::Account, EtherscanAction::TxList)),
                address: Some(seq![address@]),
                startblock: opt_value(startblock),
                endblock: opt_value(endblock),
                page: opt_value(page),
                offset: opt_value(offset),
                sort,
                ..RequestView::empty()
            }),
            r@.query() == head(EtherscanModule::Account, EtherscanAction::TxList)
                + segment("address"@, hex_text(address@))
                + optional_segment("page"@, opt_decimal(opt_value(page)))
                + optional_segment("offset"@, opt_decimal(opt_value(offset)))
                + optional_segment("startblock"@, opt_decimal(opt_value(startblock)))
                + optional_segment("endblock"@, opt_decimal(opt_value(endblock)))
                + optional_segment("sort"@, opt_sort(sort)),
    {
        let r = EtherscanRequest {
            module_action: Some((EtherscanModule::Account, EtherscanAction::TxList)),
            address: Some(single(address)),
            startblock,
            endblock,
            page,
            offset,
            sort,
            ..Default::default()
        };
        proof {
            lemma_query_unfold(r@);
            assert(hex_list_text(seq![address@]) == hex_text(address@));
            assert(r@.query() =~= head(EtherscanModule::Account, EtherscanAction::TxList)
                + segment("address"@, hex_text(address@))
                + optional_segment("page"@, opt_decimal(opt_value(page)))
                + optional_segment("offset"@, opt_decimal(opt_value(offset)))
                + optional_segment("startblock"@, opt_decimal(opt_value(startblock)))
                + optional_segment("endblock"@, opt_decimal(opt_value(endblock)))
                + optional_segment("sort"@, opt_sort(sort)));
        }
        r
    }

    /// The internal transactions of one account.
    pub fn account_tx_list_internal(
        address: Uint256,
        startblock: Option<Uint256>,
        endblock: Option<Uint256>,
        page: Option<Uint256>,
        offset: Option<Uint256>,
        sort: Option<EtherscanSort>,
    ) -> (r: Self)
        ensures
            r@ == (RequestView {
                module_action: Some((EtherscanModule::Account, EtherscanAction::TxListInternal)),
                address: Some(seq![address@]),
                startblock: opt_value(startblock),
                endblock: opt_value(endblock),
                page: opt_value(page),
                offset: opt_value(offset),
                sort,
                ..RequestView::empty()
            }),
            r@.query() == head(EtherscanModule::Account, EtherscanAction::TxListInternal)
                + segment("address"@, hex_text(address@))
                + optional_segment("page"@, opt_decimal(opt_value(page)))
                + optional_segment("offset"@, opt_decimal(opt_value(offset)))
                + optional_segment("startblock"@, opt_decimal(opt_value(startblock)))
                + optional_segment("endblock"@, opt_decimal(opt_value(endblock)))
                + optional_segment("sort"@, opt_sort(sort)),
    {
        let r = EtherscanRequest {
            module_action: Some((EtherscanModule::Account, EtherscanAction::TxListInternal)),
            address: Some(single(address)),
            startblock,
            endblock,
            page,
            offset,
            sort,
            ..Default::default()
        };
        proof {
            lemma_query_unfold(r@);
            assert(hex_list_text(seq![address@]) == hex_text(address@));
            assert(r@.query() =~= head(EtherscanModule::Account, EtherscanAction::TxListInternal)
                + segment("address"@, hex_text(address@))
                + optional_segment("page"@, opt_decimal(opt_value(page)))
                + optional_segment("offset"@, opt_decimal(opt_value(offset)))
                + optional_segment("startblock"@, opt_decimal(opt_value(startblock)))
                + optional_segment("endblock"@, opt_decimal(opt_value(endblock)))
                + optional_segment("sort"@, opt_sort(sort)));
        }
        r
    }

    /// The internal transactions of one transaction.
    pub fn account_tx_list_internal_hash(txhash: Uint256) -> (r: Self)
        ensures
            r@ == (RequestView {
                module_action: Some((EtherscanModule::Account, EtherscanAction::TxListInternal)),
                txhash: Some(txhash@),
                ..RequestView::empty()
            }),
            r@.query() == head(EtherscanModule::Account, EtherscanAction::TxListInternal)
                + segment("txhash"@, hex_text(txhash@)),
    {
        let r = EtherscanRequest {
            module_action: Some((EtherscanModule::Account, EtherscanAction::TxListInternal)),
            txhash: Some(txhash),
            ..Default::default()
        };
        proof {
            lemma_query_unfold(r@);
            assert(r@.query() =~= head(EtherscanModule::Account, EtherscanAction::TxListInternal)
                + segment("txhash"@, hex_text(txhash@)));
        }
        r
    }

    /// The token transfers of an account, of a token contract, or of both.
    pub fn account_token_tx(
        contract_address: Option<Uint256>,
        account_address: Option<Uint256>,
        startblock: Option<Uint256>,
        endblock: Option<Uint256>,
        page: Option<Uint256>,
        offset: Option<Uint256>,
        sort: Option<EtherscanSort>,
    ) -> (r: Self)
        ensures
            r@ == (RequestView {
                module_action: Some((EtherscanModule::Account, EtherscanAction::TokenTx)),
                contractaddress: opt_value(contract_address),
                address: opt_single(account_address),
                startblock: opt_value(startblock),
                endblock: opt_value(endblock),
                page: opt_value(page),
                offset: opt_value(offset),
                sort,
                ..RequestView::empty()
            }),
            r@.query() == head(EtherscanModule::Account, EtherscanAction::TokenTx)
                + optional_segment("contractaddress"@, opt_hex(opt_value(contract_address)))
                + optional_segment("address"@, opt_hex(opt_value(account_address)))
                + optional_segment("page"@, opt_decimal(opt_value(page)))
                + optional_segment("offset"@, opt_decimal(opt_value(offset)))
                + optional_segment("startblock"@, opt_decimal(opt_value(startblock)))
                + optional_segment("endblock"@, opt_decimal(opt_value(endblock)))
                + optional_segment("sort"@, opt_sort(sort)),
    {
        let account_address_list = match account_address {
            Some(x) => Some(single(x)),
            None => None,
        };
        let r = EtherscanRequest {
            module_action: Some((EtherscanModule::Account, EtherscanAction::TokenTx)),
            contractaddress: contract_address,
            address: account_address_list,
            startblock,
            endblock,
            page,
            offset,
            sort,
            ..Default::default()
        };
        proof {
            lemma_query_unfold(r@);
            if let Some(x) = account_address {
                assert(hex_list_text(seq![x@]) == hex_text(x@));
            }
            assert(r@.query() =~= head(EtherscanModule::Account, EtherscanAction::TokenTx)
                + optional_segment("contractaddress"@, opt_hex(opt_value(contract_address)))
                + optional_segment("address"@, opt_hex(opt_value(account_address)))
                + optional_segment("page"@, opt_decimal(opt_value(page)))
                + optional_segment("offset"@, opt_decimal(opt_value(offset)))
                + optional_segment("startblock"@, opt_decimal(opt_value(startblock)))
                + optional_segment("endblock"@, opt_decimal(opt_value(endblock)))
                + optional_segment("sort"@, opt_sort(sort)));
        }
        r
    }

    /// The NFT transfers between an account and a token contract.
    pub fn account_token_nft_tx(
        contract_address: Uint256,
        address: Uint256,
        startblock: Option<Uint256>,
        endblock: Option<Uint256>,
        page: Option<Uint256>,
        offset: Option<Uint256>,
        sort: Option<EtherscanSort>,
    ) -> (r: Self)
        ensures
            r@ == (RequestView {
                module_action: Some((EtherscanModule::Account, EtherscanAction::TokenNftTx)),
                contractaddress: Some(contract_address@),
                address: Some(seq![address@]),
                startblock: opt_value(startblock),
                endblock: opt_value(endblock),
                page: opt_value(page),
                offset: opt_value(offset),
                sort,
                ..RequestView::empty()
            }),
            r@.query() == head(EtherscanModule::Account, EtherscanAction::TokenNftTx)
                + segment("contractaddress"@, hex_text(contract_address@))
                + segment("address"@, hex_text(address@))
                + optional_segment("page"@, opt_decimal(opt_value(page)))
                + optional_segment("offset"@, opt_decimal(opt_value(offset)))
                + optional_segment("startblock"@, opt_decimal(opt_value(startblock)))
                + optional_segment("endblock"@, opt_decimal(opt_value(endblock)))
                + optional_segment("sort"@, opt_sort(sort)),
    {
        let r = EtherscanRequest {
            module_action: Some((EtherscanModule::Account, EtherscanAction::TokenNftTx)),
            contractaddress: Some(contract_address),
            address: Some(single(address)),
            startblock,
            endblock,
            page,
            offset,
            sort,
            ..Default::default()
        };
        proof {
            lemma_query_unfold(r@);
            assert(hex_list_text(seq![address@]) == hex_text(address@));
            assert(r@.query() =~= head(EtherscanModule::Account, EtherscanAction::TokenNftTx)
                + segment("contractaddress"@, hex_text(contract_address@))
                + segment("address"@, hex_text(address@))
                + optional_segment("page"@, opt_decimal(opt_value(page)))
                + optional_segment("offset"@, opt_decimal(opt_value(offset)))
                + optional_segment("startblock"@, opt_decimal(opt_value(startblock)))
                + optional_segment("endblock"@, opt_decimal(opt_value(endblock)))
                + optional_segment("sort"@, opt_sort(sort)));
        }
        r
    }

    /// The balance of one account in one token.
    pub fn account_token_balance(
        account_address: Uint256,
        contract_address: Uint256,
        tag: Option<EtherscanTag>,
    ) -> (r: Self)
        ensures
            r@ == (RequestView {
                module_action: Some((EtherscanModule::Account, EtherscanAction::TokenBalance)),
                contractaddress: Some(contract_address@),
                address: Some(seq![account_address@]),
                tag,
                ..RequestView::empty()
            }),
            r@.query() == head(EtherscanModule::Account, EtherscanAction::TokenBalance)
                + segment("contractaddress"@, hex_text(contract_address@))
                + segment("address"@, hex_text(account_address@))
                + optional_segment("tag"@, opt_tag(tag)),
    {
        let r = EtherscanRequest {
            module_action: Some((EtherscanModule::Account, EtherscanAction::TokenBalance)),
            contractaddress: Some(contract_address),
            address: Some(single(account_address)),
            tag,
            ..Default::default()
        };
        proof {
            lemma_query_unfold(r@);
            assert(hex_list_text(seq![account_address@]) == hex_text(account_address@));
            assert(r@.query() =~= head(EtherscanModule::Account, EtherscanAction::TokenBalance)
                + segment("contractaddress"@, hex_text(contract_address@))
                + segment("address"@, hex_text(account_address@))
                + optional_segment("tag"@, opt_tag(tag)));
        }
        r
    }

    /// The ABI of a verified contract.
    pub fn contract_get_abi(contract_address: Uint256) -> (r: Self)
        ensures
            r@ == (RequestView {
                module_action: Some((EtherscanModule::Contract, EtherscanAction::GetABI)),
                contractaddress: Some(contract_address@),
                ..RequestView::empty()
            }),
            r@.query() == head(EtherscanModule::Contract, EtherscanAction::GetABI)
                + segment("contractaddress"@, hex_text(contract_address@)),
    {
        let r = EtherscanRequest {
            module_action: Some((EtherscanModule::Contract, EtherscanAction::GetABI)),
            contractaddress: Some(contract_address),
            ..Default::default()
        };
        proof {
            lemma_query_unfold(r@);
            assert(r@.query() =~= head(EtherscanModule::Contract, EtherscanAction::GetABI)
                + segment("contractaddress"@, hex_text(contract_address@)));
        }
        r
    }

    /// The source code of a verified contract.
    pub fn contract_get_source_code(contract_address: Uint256) -> (r: Self)
        ensures
            r@ == (RequestView {
                module_action: Some((EtherscanModule::Contract, EtherscanAction::GetSourceCode)),
                contractaddress: Some(contract_address@),
                ..RequestView::empty()
            }),
            r@.query() == head(EtherscanModule::Contract, EtherscanAction::GetSourceCode)
                + segment("contractaddress"@, hex_text(contract_address@)),
    {
        let r = EtherscanRequest {
            module_action: Some((EtherscanModule::Contract, EtherscanAction::GetSourceCode)),
            contractaddress: Some(contract_address),
            ..Default::default()
        };
        proof {
            lemma_query_unfold(r@);
            assert(r@.query() =~= head(EtherscanModule::Contract, EtherscanAction::GetSourceCode)
                + segment("contractaddress"@, hex_text(contract_address@)));
        }
        r
    }

    /// The execution status of a transaction.
    pub fn transaction_get_status(transaction_hash: Uint256) -> (r: Self)
        ensures
            r@ == (RequestView {
                module_action: Some((EtherscanModule::Transaction, EtherscanAction::GetStatus)),
                txhash: Some(transaction_hash@),
                ..RequestView::empty()
            }),
            r@.query() == head(EtherscanModule::Transaction, EtherscanAction::GetStatus)
                + segment("txhash"@, hex_text(transaction_hash@)),
    {
        let r = EtherscanRequest {
            module_action: Some((EtherscanModule::Transaction, EtherscanAction::GetStatus)),
            txhash: Some(transaction_hash),
            ..Default::default()
        };
        proof {
            lemma_query_unfold(r@);
            assert(r@.query() =~= head(EtherscanModule::Transaction, EtherscanAction::GetStatus)
                + segment("txhash"@, hex_text(transaction_hash@)));
        }
        r
    }

    /// The receipt status of a transaction.
    pub fn transaction_get_receipt_status(transaction_hash: Uint256) -> (r: Self)
        ensures
            r@ == (RequestView {
                module_action: Some((EtherscanModule::Transaction, EtherscanAction::GetTxReceiptStatus)),
                txhash: Some(transaction_hash@),
                ..RequestView::empty()
            }),
            r@.query() == head(EtherscanModule::Transaction, EtherscanAction::GetTxReceiptStatus)
                + segment("txhash"@, hex_text(transaction_hash@)),
    {
        let r = EtherscanRequest {
            module_action: Some((EtherscanModule::Transaction, EtherscanAction::GetTxReceiptStatus)),
            txhash: Some(transaction_hash),
            ..Default::default()
        };
        proof {
            lemma_query_unfold(r@);
            assert(r@.query() =~= head(EtherscanModule::Transaction, EtherscanAction::GetTxReceiptStatus)
                + segment("txhash"@, hex_text(transaction_hash@)));
        }
        r
    }

    /// The time that is left until a block is mined.
    pub fn block_get_countdown(block_number: Uint256) -> (r: Self)
        ensures
            r@ == (RequestView {
                module_action: Some((EtherscanModule::Block, EtherscanAction::GetBlockCountdown)),
                blockno: Some(block_number@),
                ..RequestView::empty()
            }),
            r@.query() == head(EtherscanModule::Block, EtherscanAction::GetBlockCountdown)
                + segment("blockno"@, decimal_text(block_number@)),
    {
        let r = EtherscanRequest {
            module_action: Some((EtherscanModule::Block, EtherscanAction::GetBlockCountdown)),
            blockno: Some(block_number),
            ..Default::default()
        };
        proof {
            lemma_query_unfold(r@);
            assert(r@.query() =~= head(EtherscanModule::Block, EtherscanAction::GetBlockCountdown)
                + segment("blockno"@, decimal_text(block_number@)));
        }
        r
    }

    /// The block that was mined at a time.
    pub fn block_get_number_by_timestamp(timestamp: Uint256) -> (r: Self)
        ensures
            r@ == (RequestView {
                module_action: Some((EtherscanModule::Block, EtherscanAction::GetBlockNoByTime)),
                timestamp: Some(timestamp@),
                ..RequestView::empty()
            }),
            r@.query() == head(EtherscanModule::Block, EtherscanAction::GetBlockNoByTime)
                + segment("timestamp"@, decimal_text(timestamp@)),
    {
        let r = EtherscanRequest {
            module_action: Some((EtherscanModule::Block, EtherscanAction::GetBlockNoByTime)),
            timestamp: Some(timestamp),
            ..Default::default()
        };
        proof {
            lemma_query_unfold(r@);
            assert(r@.query() =~= head(EtherscanModule::Block, EtherscanAction::GetBlockNoByTime)
                + segment("timestamp"@, decimal_text(timestamp@)));
        }
        r
    }

    /// The supply of a token.
    pub fn stats_token_supply(contract_address: Uint256) -> (r: Self)
        ensures
            r@ == (RequestView {
                module_action: Some((EtherscanModule::Stats, EtherscanAction::TokenSupply)),
                contractaddress: Some(contract_address@),
                ..RequestView::empty()
            }),
            r@.query() == head(EtherscanModule::Stats, EtherscanAction::TokenSupply)
                + segment("contractaddress"@, hex_text(contract_address@)),
    {
        let r = EtherscanRequest {
            module_action: Some((EtherscanModule::Stats, EtherscanAction::TokenSupply)),
            contractaddress: Some(contract_address),
            ..Default::default()
        };
        proof {
            lemma_query_unfold(r@);
            assert(r@.query() =~= head(EtherscanModule::Stats, EtherscanAction::TokenSupply)
                + segment("contractaddress"@, hex_text(contract_address@)));
        }
        r
    }

    /// The supply of ether.
    pub fn stats_eth_supply() -> (r: Self)
        ensures
            r@ == (RequestView {
                module_action: Some((EtherscanModule::Stats, EtherscanAction::EthSupply)),
                ..RequestView::empty()
            }),
            r@.query() == head(EtherscanModule::Stats, EtherscanAction::EthSupply),
    {
        let r = EtherscanRequest {
            module_action: Some((EtherscanModule::Stats, EtherscanAction::EthSupply)),
            ..Default::default()
        };
        proof {
            lemma_query_unfold(r@);
            assert(r@.query() =~= head(EtherscanModule::Stats, EtherscanAction::EthSupply));
        }
        r
    }

    /// The supply of ether, with staking rewards and burnt fees.
    pub fn stats_eth2_supply() -> (r: Self)
        ensures
            r@ == (RequestView {
                module_action: Some((EtherscanModule::Stats, EtherscanAction::EthSupply2)),
                ..RequestView::empty()
            }),
            r@.query() == head(EtherscanModule::Stats, EtherscanAction::EthSupply2),
    {
        let r = EtherscanRequest {
            module_action: Some((EtherscanModule::Stats, EtherscanAction::EthSupply2)),
            ..Default::default()
        };
        proof {
            lemma_query_unfold(r@);
            assert(r@.query() =~= head(EtherscanModule::Stats, EtherscanAction::EthSupply2));
        }
        r
    }

    /// The price of ether.
    pub fn stats_eth_price() -> (r: Self)
        ensures
            r@ == (RequestView {
                module_action: Some((EtherscanModule::Stats, EtherscanAction::EthPrice)),
                ..RequestView::empty()
            }),
            r@.query() == head(EtherscanModule::Stats, EtherscanAction::EthPrice),
    {
        let r = EtherscanRequest {
            module_action: Some((EtherscanModule::Stats, EtherscanAction::EthPrice)),
            ..Default::default()
        };
        proof {
            lemma_query_unfold(r@);
            assert(r@.query() =~= head(EtherscanModule::Stats, EtherscanAction::EthPrice));
        }
        r
    }

    /// The number of nodes in the network.
    pub fn stats_node_count() -> (r: Self)
        ensures
            r@ == (RequestView {
                module_action: Some((EtherscanModule::Stats, EtherscanAction::NodeCount)),
                ..RequestView::empty()
            }),
            r@.query() == head(EtherscanModule::Stats, EtherscanAction::NodeCount),
    {
        let r = EtherscanRequest {
            module_action: Some((EtherscanModule::Stats, EtherscanAction::NodeCount)),
            ..Default::default()
        };
        proof {
            lemma_query_unfold(r@);
            assert(r@.query() =~= head(EtherscanModule::Stats, EtherscanAction::NodeCount));
        }
        r
    }

    /// Renders the request into its URL: the base URL as it was given, the
    /// module and the action where they are present, then one `&key=value`
    /// segment for each parameter that is present, in the fixed order of
    /// `RequestView::params`.
    pub fn build(self) -> (url: String)
        ensures
            url@ == self@.query(),
    {
        let ghost ps = self@.params();
        let EtherscanRequest {
            url,
            module_action,
            contractaddress,
            address,
            tag,
            startblock,
            endblock,
            page,
            offset,
            sort,
            txhash,
            blockno,
            timestamp,
            format,
            apikey,
        } = self;
        let mut out = match url {
            Some(base) => base,
            None => String::new(),
        };
        match module_action {
            Some((module, action)) => {
                let ghost before = out@;
                out.append("?module=");
                out.append(module.as_str());
                out.append("&");
                out.append("action");
                out.append("=");
                out.append(action.as_str());
                assert(out@ =~= before + head(module, action));
            },
            None => {
                assert(out@ =~= out@ + Seq::<char>::empty());
            },
        }
        let ghost prefix = out@;
        proof {
            assert(ps.take(0) =~= Seq::<Param>::empty());
            assert(prefix + join_segments(ps.take(0)) =~= prefix);
        }
        push_param(&mut out, "contractaddress", hex_param(contractaddress));
        proof {
            lemma_join_step(prefix, ps, 0);
        }
        push_param(&mut out, "address", hex_list_param(&address));
        proof {
            lemma_join_step(prefix, ps, 1);
        }
        let tag_name = match tag {
            Some(t) => Some(t.as_str()),
            None => None,
        };
        push_param(&mut out, "tag", name_param(tag_name));
        proof {
            lemma_join_step(prefix, ps, 2);
        }
        push_param(&mut out, "page", decimal_param(page));
        proof {
            lemma_join_step(prefix, ps, 3);
        }
        push_param(&mut out, "offset", decimal_param(offset));
        proof {
            lemma_join_step(prefix, ps, 4);
        }
        push_param(&mut out, "startblock", decimal_param(startblock));
        proof {
            lemma_join_step(prefix, ps, 5);
        }
        push_param(&mut out, "endblock", decimal_param(endblock));
        proof {
            lemma_join_step(prefix, ps, 6);
        }
        let sort_name = match sort {
            Some(s) => Some(s.as_str()),
            None => None,
        };
        push_param(&mut out, "sort", name_param(sort_name));
        proof {
            lemma_join_step(prefix, ps, 7);
        }
        push_param(&mut out, "txhash", hex_param(txhash));
        proof {
            lemma_join_step(prefix, ps, 8);
        }
        push_param(&mut out, "blockno", decimal_param(blockno));
        proof {
            lemma_join_step(prefix, ps, 9);
        }
        push_param(&mut out, "timestamp", decimal_param(timestamp));
        proof {
            lemma_join_step(prefix, ps, 10);
        }
        let format_name = match format {
            Some(f) => Some(f.as_str()),
            None => None,
        };
        push_param(&mut out, "format", name_param(format_name));
        proof {
            lemma_join_step(prefix, ps, 11);
        }
        push_param(&mut out, "apikey", apikey);
        proof {
            lemma_join_step(prefix, ps, 12);
            assert(ps.take(13) =~= ps);
        }
        out
    }
}

} // verus!
