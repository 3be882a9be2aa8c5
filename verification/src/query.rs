//! The text of a query: what a request is as a mathematical record, and the
//! string that this record is written as.

use vstd::prelude::*;
use crate::tags::{EtherscanAction, EtherscanFormat, EtherscanModule, EtherscanSort, EtherscanTag};
use crate::uint256::{decimal_text, hex_text};

verus! {

/// One parameter of a query: `&`, the key, `=`, the value.
pub open spec fn segment(key: Seq<char>, value: Seq<char>) -> Seq<char> {
    "&"@ + key + "="@ + value
}

/// What a parameter adds to a query: its segment where it has a value,
/// nothing where it has none.
pub open spec fn optional_segment(key: Seq<char>, value: Option<Seq<char>>) -> Seq<char> {
    match value {
        Some(v) => segment(key, v),
        None => Seq::empty(),
    }
}

/// The start of a query: the module and the action.
pub open spec fn head(module: EtherscanModule, action: EtherscanAction) -> Seq<char> {
    "?module="@ + module.tag() + segment("action"@, action.tag())
}

/// The start of a query where the pair is present, nothing where it is not.
pub open spec fn optional_head(pair: Option<(EtherscanModule, EtherscanAction)>) -> Seq<char> {
    match pair {
        Some((module, action)) => head(module, action),
        None => Seq::empty(),
    }
}

/// A list of addresses as a query writes it: each as `0x` and hexadecimal
/// digits, with a comma between two of them.
pub open spec fn hex_list_text(list: Seq<nat>) -> Seq<char>
    decreases list.len(),
{
    if list.len() == 0 {
        Seq::empty()
    } else if list.len() == 1 {
        hex_text(list[0])
    } else {
        hex_list_text(list.drop_last()) + ","@ + hex_text(list.last())
    }
}

/// A text that may be absent: nothing where it is.
pub open spec fn opt_text(value: Option<Seq<char>>) -> Seq<char> {
    match value {
        Some(s) => s,
        None => Seq::empty(),
    }
}

/// The text of an address or a hash, where there is one.
pub open spec fn opt_hex(value: Option<nat>) -> Option<Seq<char>> {
    match value {
        Some(n) => Some(hex_text(n)),
        None => None,
    }
}

/// The text of a list of addresses, where there is one.
pub open spec fn opt_hex_list(value: Option<Seq<nat>>) -> Option<Seq<char>> {
    match value {
        Some(list) => Some(hex_list_text(list)),
        None => None,
    }
}

/// The text of a count, a block number or a timestamp, where there is
/// one.
pub open spec fn opt_decimal(value: Option<nat>) -> Option<Seq<char>> {
    match value {
        Some(n) => Some(decimal_text(n)),
        None => None,
    }
}

/// The text of a block tag, where there is one.
pub open spec fn opt_tag(value: Option<EtherscanTag>) -> Option<Seq<char>> {
    match value {
        Some(t) => Some(t.tag()),
        None => None,
    }
}

/// The text of a sort direction, where there is one.
pub open spec fn opt_sort(value: Option<EtherscanSort>) -> Option<Seq<char>> {
    match value {
        Some(s) => Some(s.tag()),
        None => None,
    }
}

/// The text of a response format, where there is one.
pub open spec fn opt_format(value: Option<EtherscanFormat>) -> Option<Seq<char>> {
    match value {
        Some(f) => Some(f.tag()),
        None => None,
    }
}

/// A request as a record of values: every field may be absent.
pub struct RequestView {
    pub url: Option<Seq<char>>,
    pub module_action: Option<(EtherscanModule, EtherscanAction)>,
    pub contractaddress: Option<nat>,
    pub address: Option<Seq<nat>>,
    pub tag: Option<EtherscanTag>,
    pub startblock: Option<nat>,
    pub endblock: Option<nat>,
    pub page: Option<nat>,
    pub offset: Option<nat>,
    pub sort: Option<EtherscanSort>,
    pub txhash: Option<nat>,
    pub blockno: Option<nat>,
    pub timestamp: Option<nat>,
    pub format: Option<EtherscanFormat>,
    pub apikey: Option<Seq<char>>,
}

/// A key of a query with the text of its value, where it has one.
pub type Param = (Seq<char>, Option<Seq<char>>);

/// The segments of a list of parameters, one after the other in the order
/// of the list.
pub open spec fn join_segments(params: Seq<Param>) -> Seq<char>
    decreases params.len(),
{
    if params.len() == 0 {
        Seq::empty()
    } else {
        join_segments(params.drop_last()) + optional_segment(params.last().0, params.last().1)
    }
}

impl RequestView {
    /// The record with every field absent.
    pub open spec fn empty() -> RequestView {
        RequestView {
            url: None,
            module_action: None,
            contractaddress: None,
            address: None,
            tag: None,
            startblock: None,
            endblock: None,
            page: None,
            offset: None,
            sort: None,
            txhash: None,
            blockno: None,
            timestamp: None,
            format: None,
            apikey: None,
        }
    }

    /// The thirteen parameters in the order in which a query holds them,
    /// each with the text of its value.
    pub open spec fn params(self) -> Seq<Param> {
        seq![
            ("contractaddress"@, opt_hex(self.contractaddress)),
            ("address"@, opt_hex_list(self.address)),
            ("tag"@, opt_tag(self.tag)),
            ("page"@, opt_decimal(self.page)),
            ("offset"@, opt_decimal(self.offset)),
            ("startblock"@, opt_decimal(self.startblock)),
            ("endblock"@, opt_decimal(self.endblock)),
            ("sort"@, opt_sort(self.sort)),
            ("txhash"@, opt_hex(self.txhash)),
            ("blockno"@, opt_decimal(self.blockno)),
            ("timestamp"@, opt_decimal(self.timestamp)),
            ("format"@, opt_format(self.format)),
            ("apikey"@, self.apikey),
        ]
    }

    /// The URL of the request: the base URL as it is, the module and the
    /// action, then one segment for each parameter that is present.
    pub open spec fn query(self) -> Seq<char> {
        opt_text(self.url) + optional_head(self.module_action) + join_segments(self.params())
    }
}

/// Behind any prefix, the segments of the first `k + 1` parameters are
/// those of the first `k` followed by the segment of parameter `k`.
pub proof fn lemma_join_step(prefix: Seq<char>, params: Seq<Param>, k: int)
    requires
        0 <= k < params.len(),
    ensures
        prefix + join_segments(params.take(k + 1)) == prefix + join_segments(params.take(k))
            + optional_segment(params[k].0, params[k].1),
{
    assert(params.take(k + 1).drop_last() =~= params.take(k));
}

/// The query of a record, written out parameter by parameter.
pub proof fn lemma_query_unfold(v: RequestView)
    ensures
        v.query() == opt_text(v.url) + optional_head(v.module_action)
            + optional_segment("contractaddress"@, opt_hex(v.contractaddress))
            + optional_segment("address"@, opt_hex_list(v.address))
            + optional_segment("tag"@, opt_tag(v.tag))
            + optional_segment("page"@, opt_decimal(v.page))
            + optional_segment("offset"@, opt_decimal(v.offset))
            + optional_segment("startblock"@, opt_decimal(v.startblock))
            + optional_segment("endblock"@, opt_decimal(v.endblock))
            + optional_segment("sort"@, opt_sort(v.sort))
            + optional_segment("txhash"@, opt_hex(v.txhash))
            + optional_segment("blockno"@, opt_decimal(v.blockno))
            + optional_segment("timestamp"@, opt_decimal(v.timestamp))
            + optional_segment("format"@, opt_format(v.format))
            + optional_segment("apikey"@, v.apikey),
{
    let ps = v.params();
    let prefix = opt_text(v.url) + optional_head(v.module_action);
    lemma_join_step(prefix, ps, 0);
    lemma_join_step(prefix, ps, 1);
    lemma_join_step(prefix, ps, 2);
    lemma_join_step(prefix, ps, 3);
    lemma_join_step(prefix, ps, 4);
    lemma_join_step(prefix, ps, 5);
    lemma_join_step(prefix, ps, 6);
    lemma_join_step(prefix, ps, 7);
    lemma_join_step(prefix, ps, 8);
    lemma_join_step(prefix, ps, 9);
    lemma_join_step(prefix, ps, 10);
    lemma_join_step(prefix, ps, 11);
    lemma_join_step(prefix, ps, 12);
}

/// The segments of two lists, one after the other, are the segments of the
/// first list followed by those of the second.
pub proof fn lemma_join_concat(a: Seq<Param>, b: Seq<Param>)
    ensures
        join_segments(a + b) == join_segments(a) + join_segments(b),
    decreases b.len(),
{
    if b.len() > 0 {
        lemma_join_concat(a, b.drop_last());
        assert((a + b).drop_last() =~= a + b.drop_last());
    }
}

/// What parameter `k` of a record adds to its query.
pub open spec fn param_segment(v: RequestView, k: int) -> Seq<char> {
    optional_segment(v.params()[k].0, v.params()[k].1)
}

/// The place in the query of a record where parameter `k` starts: behind the
/// base URL, the module and the action, and the parameters before `k`.
pub open spec fn param_start(v: RequestView, k: int) -> int {
    (opt_text(v.url) + optional_head(v.module_action) + join_segments(v.params().take(k))).len() as int
}

/// Each parameter stands in the query at its place: the query holds, from
/// `param_start` on, exactly the segment of that parameter.
pub proof fn lemma_param_position(v: RequestView, k: int)
    requires
        0 <= k < 13,
    ensures
        0 <= param_start(v, k),
        param_start(v, k) + param_segment(v, k).len() <= v.query().len(),
        v.query().subrange(param_start(v, k), param_start(v, k) + param_segment(v, k).len())
            == param_segment(v, k),
{
    let ps = v.params();
    let prefix = opt_text(v.url) + optional_head(v.module_action);
    let before = join_segments(ps.take(k));
    let this = param_segment(v, k);
    let after = join_segments(ps.skip(k + 1));
    assert(ps =~= ps.take(k + 1) + ps.skip(k + 1));
    lemma_join_concat(ps.take(k + 1), ps.skip(k + 1));
    lemma_join_step(prefix, ps, k);
    assert(v.query() == prefix + before + this + after);
}

/// The parameters stand in the query in the order of `RequestView::params`,
/// whichever of them are present: an earlier one ends before a later one
/// starts.
pub proof fn lemma_param_order(v: RequestView, i: int, j: int)
    requires
        0 <= i < j < 13,
    ensures
        param_start(v, i) + param_segment(v, i).len() <= param_start(v, j),
{
    let ps = v.params();
    let prefix = opt_text(v.url) + optional_head(v.module_action);
    lemma_join_step(prefix, ps, i);
    assert(ps.take(j) =~= ps.take(i + 1) + ps.subrange(i + 1, j));
    lemma_join_concat(ps.take(i + 1), ps.subrange(i + 1, j));
    assert(prefix + (join_segments(ps.take(i + 1)) + join_segments(ps.subrange(i + 1, j)))
        =~= prefix + join_segments(ps.take(i + 1)) + join_segments(ps.subrange(i + 1, j)));
}

/// A parameter without a value adds nothing: the segments of a list are
/// those of the list without that parameter.
pub proof fn lemma_absent_param(params: Seq<Param>, k: int)
    requires
        0 <= k < params.len(),
        params[k].1 is None,
    ensures
        optional_segment(params[k].0, params[k].1).len() == 0,
        join_segments(params) == join_segments(params.remove(k)),
{
    let before = params.take(k);
    let after = params.skip(k + 1);
    assert(params =~= before.push(params[k]) + after);
    lemma_join_concat(before.push(params[k]), after);
    lemma_join_concat(before, after);
    assert(before.push(params[k]).drop_last() =~= before);
}

} // verus!
