//! What holds of every query: which characters its parts are made of, that
//! it holds one `&` for each parameter that is present, that a parameter
//! that is absent is not written at all, and that one that is present is
//! written once.

use vstd::prelude::*;
use crate::digits::{digit_value, digits, lemma_digits_shape};
use crate::query::{
    head, hex_list_text, join_segments, lemma_param_position, opt_text, optional_head,
    optional_segment, param_segment, param_start, segment, Param, RequestView,
};
use crate::tags::{
    is_lower_alnum, is_name, lemma_action_tag_is_name, lemma_module_tags, lemma_sort_tags,
    lemma_tag_and_format_tags, EtherscanAction, EtherscanFormat, EtherscanModule, EtherscanTag,
};
use crate::text::{
    contains, count, free_of, lemma_count_concat, lemma_count_free, lemma_free_concat,
    lemma_free_no_occurrence, lemma_occurs_chars, lemma_occurs_concat, occurs_at,
};
use crate::uint256::hex_text;

verus! {

/// The digits of a number hold no character that is not a digit.
pub proof fn lemma_digits_free(n: nat, base: nat, c: char)
    requires
        2 <= base <= 16,
        digit_value(c) == 16,
    ensures
        free_of(digits(n, base), c),
{
    lemma_digits_shape(n, base);
}

/// An address or a hash holds no character but `0`-`9`, `A`-`F` and `x`.
pub proof fn lemma_hex_text_free(n: nat, c: char)
    requires
        digit_value(c) == 16,
        c != 'x',
    ensures
        free_of(hex_text(n), c),
{
    reveal_strlit("0x");
    lemma_digits_free(n, 16, c);
    lemma_free_concat("0x"@, digits(n, 16), c);
}

/// A list of addresses holds no character but `0`-`9`, `A`-`F`, `x` and
/// the comma.
pub proof fn lemma_hex_list_text_free(list: Seq<nat>, c: char)
    requires
        digit_value(c) == 16,
        c != 'x',
        c != ',',
    ensures
        free_of(hex_list_text(list), c),
    decreases list.len(),
{
    reveal_strlit(",");
    if list.len() == 1 {
        lemma_hex_text_free(list[0], c);
    } else if list.len() > 1 {
        lemma_hex_list_text_free(list.drop_last(), c);
        lemma_hex_text_free(list.last(), c);
        lemma_free_concat(hex_list_text(list.drop_last()), ","@, c);
        lemma_free_concat(hex_list_text(list.drop_last()) + ","@, hex_text(list.last()), c);
    }
}

/// A name in lower case holds no other character.
pub proof fn lemma_name_free(s: Seq<char>, c: char)
    requires
        is_name(s),
        !is_lower_alnum(c),
    ensures
        free_of(s, c),
{
}

/// The keys of the thirteen parameters are names in lower case.
pub proof fn lemma_keys_are_names(v: RequestView)
    ensures
        v.params().len() == 13,
        forall|k: int| 0 <= k < 13 ==> is_name(#[trigger] v.params()[k].0),
{
    reveal_strlit("contractaddress");
    reveal_strlit("address");
    reveal_strlit("tag");
    reveal_strlit("page");
    reveal_strlit("offset");
    reveal_strlit("startblock");
    reveal_strlit("endblock");
    reveal_strlit("sort");
    reveal_strlit("txhash");
    reveal_strlit("blockno");
    reveal_strlit("timestamp");
    reveal_strlit("format");
    reveal_strlit("apikey");
}

/// How many parameters of a list have a value.
pub open spec fn present(params: Seq<Param>) -> nat
    decreases params.len(),
{
    if params.len() == 0 {
        0
    } else {
        present(params.drop_last()) + if params.last().1 is Some {
            1nat
        } else {
            0nat
        }
    }
}

/// No key and no value of the list holds `c`.
pub open spec fn params_free_of(params: Seq<Param>, c: char) -> bool {
    forall|k: int|
        0 <= k < params.len() ==> free_of(#[trigger] params[k].0, c) && (params[k].1 matches Some(
            t,
        ) ==> free_of(t, c))
}

/// One segment holds one `&`, where neither its key nor its value holds
/// one.
pub proof fn lemma_segment_ampersand(key: Seq<char>, value: Seq<char>)
    requires
        free_of(key, '&'),
        free_of(value, '&'),
    ensures
        count(segment(key, value), '&') == 1,
{
    reveal_strlit("&");
    reveal_strlit("=");
    lemma_count_free(key, '&');
    lemma_count_free(value, '&');
    lemma_count_free("="@, '&');
    assert(count("&"@, '&') == 1) by {
        assert("&"@.drop_last() =~= Seq::<char>::empty());
        assert(count(Seq::<char>::empty(), '&') == 0);
        assert("&"@.last() == '&');
    }
    lemma_count_concat("&"@, key, '&');
    lemma_count_concat("&"@ + key, "="@, '&');
    lemma_count_concat("&"@ + key + "="@, value, '&');
}

/// The segments of a list hold one `&` for each parameter that has a
/// value, where no key and no value holds one.
pub proof fn lemma_join_ampersands(params: Seq<Param>)
    requires
        params_free_of(params, '&'),
    ensures
        count(join_segments(params), '&') == present(params),
    decreases params.len(),
{
    if params.len() > 0 {
        let rest = params.drop_last();
        let last = params.last();
        assert forall|k: int| 0 <= k < rest.len() implies free_of(#[trigger] rest[k].0, '&') && (
        rest[k].1 matches Some(t) ==> free_of(t, '&')) by {
            assert(rest[k] == params[k]);
        }
        lemma_join_ampersands(rest);
        assert(last == params[params.len() - 1]);
        lemma_count_concat(join_segments(rest), optional_segment(last.0, last.1), '&');
        match last.1 {
            Some(t) => {
                lemma_segment_ampersand(last.0, t);
            },
            None => {},
        }
    }
}

/// The values that the library writes itself hold no `&`: those of all
/// parameters but the API key, which is written as it was given.
pub proof fn lemma_values_free_of_ampersand(v: RequestView)
    ensures
        forall|k: int|
            0 <= k < 12 ==> (#[trigger] v.params()[k].1 matches Some(t) ==> free_of(t, '&')),
{
    let ps = v.params();
    assert forall|k: int| 0 <= k < 12 implies (#[trigger] ps[k].1 matches Some(t) ==> free_of(
        t,
        '&',
    )) by {
        if ps[k].1 is Some {
            if k == 0 {
                lemma_hex_text_free(v.contractaddress->0, '&');
            } else if k == 1 {
                lemma_hex_list_text_free(v.address->0, '&');
            } else if k == 2 {
                lemma_tag_and_format_tags(v.tag->0, EtherscanFormat::Raw);
            } else if k == 3 {
                lemma_digits_free(v.page->0, 10, '&');
            } else if k == 4 {
                lemma_digits_free(v.offset->0, 10, '&');
            } else if k == 5 {
                lemma_digits_free(v.startblock->0, 10, '&');
            } else if k == 6 {
                lemma_digits_free(v.endblock->0, 10, '&');
            } else if k == 7 {
                lemma_sort_tags(v.sort->0, v.sort->0);
            } else if k == 8 {
                lemma_hex_text_free(v.txhash->0, '&');
            } else if k == 9 {
                lemma_digits_free(v.blockno->0, 10, '&');
            } else if k == 10 {
                lemma_digits_free(v.timestamp->0, 10, '&');
            } else {
                lemma_tag_and_format_tags(EtherscanTag::Latest, v.format->0);
            }
        }
    }
}

/// The parameters of a record hold no `&`, where its API key holds none.
pub proof fn lemma_params_free_of_ampersand(v: RequestView)
    requires
        v.apikey matches Some(k) ==> free_of(k, '&'),
    ensures
        params_free_of(v.params(), '&'),
{
    let ps = v.params();
    lemma_keys_are_names(v);
    lemma_values_free_of_ampersand(v);
    assert forall|k: int| 0 <= k < ps.len() implies free_of(#[trigger] ps[k].0, '&') && (
    ps[k].1 matches Some(t) ==> free_of(t, '&')) by {
        lemma_name_free(ps[k].0, '&');
    }
}

/// The start of a query holds one `&`, the one before `action`.
pub proof fn lemma_head_ampersand(module: EtherscanModule, action: EtherscanAction)
    ensures
        count(head(module, action), '&') == 1,
{
    reveal_strlit("?module=");
    reveal_strlit("action");
    lemma_module_tags(module, module);
    lemma_action_tag_is_name(action);
    lemma_name_free(module.tag(), '&');
    lemma_name_free(action.tag(), '&');
    lemma_count_free("?module="@, '&');
    lemma_count_free(module.tag(), '&');
    lemma_segment_ampersand("action"@, action.tag());
    lemma_count_concat("?module="@, module.tag(), '&');
    lemma_count_concat("?module="@ + module.tag(), segment("action"@, action.tag()), '&');
}

/// A query holds one `&` for the action and one for each parameter that
/// is present, and no other: an absent parameter leaves no `&key=`
/// behind, and none is written twice. This holds where the base URL and
/// the API key, which are written as they were given, hold no `&`.
pub proof fn lemma_query_ampersands(v: RequestView)
    requires
        v.url matches Some(u) ==> free_of(u, '&'),
        v.apikey matches Some(k) ==> free_of(k, '&'),
    ensures
        count(v.query(), '&') == present(v.params()) + if v.module_action is Some {
            1nat
        } else {
            0nat
        },
{
    lemma_params_free_of_ampersand(v);
    lemma_join_ampersands(v.params());
    lemma_count_free(opt_text(v.url), '&');
    match v.module_action {
        Some((module, action)) => {
            lemma_head_ampersand(module, action);
        },
        None => {},
    }
    lemma_count_concat(opt_text(v.url), optional_head(v.module_action), '&');
    lemma_count_concat(
        opt_text(v.url) + optional_head(v.module_action),
        join_segments(v.params()),
        '&',
    );
}

/// The text that opens the segment of a key: `&`, the key, `=`.
pub open spec fn key_pattern(key: Seq<char>) -> Seq<char> {
    "&"@ + key + "="@
}

/// The opening of a name's segment is `&`, the characters of the name, and
/// `=`.
proof fn lemma_key_pattern_chars(key: Seq<char>)
    requires
        is_name(key),
    ensures
        key_pattern(key).len() == key.len() + 2,
        key_pattern(key)[0] == '&',
        key_pattern(key)[key.len() as int + 1] == '=',
        forall|i: int| 1 <= i <= key.len() ==> #[trigger] key_pattern(key)[i] == key[i - 1],
        forall|i: int| 1 <= i <= key.len() ==> is_lower_alnum(#[trigger] key_pattern(key)[i]),
{
    reveal_strlit("&");
    reveal_strlit("=");
}

/// The opening of a key stands in a segment at its start, and then the
/// segment is that of the key, or inside the value.
proof fn lemma_occurs_in_segment(key: Seq<char>, value: Seq<char>, k: Seq<char>, p: int)
    requires
        is_name(key),
        is_name(k),
        occurs_at(segment(key, value), key_pattern(k), p),
    ensures
        (p == 0 && key == k) || contains(value, key_pattern(k)),
{
    let seg = segment(key, value);
    let pat = key_pattern(k);
    let open = key_pattern(key);
    lemma_key_pattern_chars(key);
    lemma_key_pattern_chars(k);
    assert(seg =~= open + value);
    lemma_occurs_chars(seg, pat, p, 0);
    if p == 0 {
        let n = k.len() as int;
        let m = key.len() as int;
        if n < m {
            lemma_occurs_chars(seg, pat, p, n + 1);
            assert(seg[n + 1] == open[n + 1]);
        } else if n > m {
            lemma_occurs_chars(seg, pat, p, m + 1);
            assert(seg[m + 1] == open[m + 1]);
        } else {
            assert forall|i: int| 0 <= i < m implies key[i] == k[i] by {
                lemma_occurs_chars(seg, pat, p, i + 1);
                assert(seg[i + 1] == open[i + 1]);
            }
            assert(key =~= k);
        }
    } else if p < open.len() {
        assert(seg[p] == open[p]);
    } else {
        lemma_occurs_concat(open, value, pat, p);
        assert(occurs_at(value, pat, p - open.len()));
    }
}

/// The segments of a list, where there are any, begin with `&`.
proof fn lemma_join_first(params: Seq<Param>)
    ensures
        join_segments(params).len() > 0 ==> join_segments(params)[0] == '&',
    decreases params.len(),
{
    reveal_strlit("&");
    if params.len() > 0 {
        lemma_join_first(params.drop_last());
    }
}

/// The opening of a key does not stand across the place where a text meets
/// one that begins with `&` or `?`.
proof fn lemma_no_straddle(a: Seq<char>, b: Seq<char>, k: Seq<char>, p: int)
    requires
        is_name(k),
        occurs_at(a + b, key_pattern(k), p),
        b.len() > 0 ==> b[0] == '&' || b[0] == '?',
    ensures
        p + key_pattern(k).len() <= a.len() || p >= a.len(),
{
    let pat = key_pattern(k);
    lemma_key_pattern_chars(k);
    if p < a.len() && a.len() < p + pat.len() {
        let i = a.len() - p;
        lemma_occurs_chars(a + b, pat, p, i);
        assert((a + b)[a.len() as int] == b[0]);
        if i <= k.len() {
            assert(is_lower_alnum(pat[i]));
        }
    }
}

/// Where the opening of a key stands in the segments of a list, a
/// parameter of the list has a value and either is that key, with the
/// opening at the start of its segment, or holds the opening inside its
/// value.
proof fn lemma_occurs_in_join(params: Seq<Param>, k: Seq<char>, p: int)
    requires
        is_name(k),
        forall|j: int| 0 <= j < params.len() ==> is_name(#[trigger] params[j].0),
        occurs_at(join_segments(params), key_pattern(k), p),
    ensures
        exists|j: int|
            0 <= j < params.len() && (#[trigger] params[j]).1 is Some && ((params[j].0 == k && p
                == join_segments(params.take(j)).len()) || contains(
                params[j].1->0,
                key_pattern(k),
            )),
    decreases params.len(),
{
    let pat = key_pattern(k);
    lemma_key_pattern_chars(k);
    if params.len() > 0 {
        let rest = params.drop_last();
        let last = params.last();
        let seg = optional_segment(last.0, last.1);
        reveal_strlit("&");
        lemma_no_straddle(join_segments(rest), seg, k, p);
        lemma_occurs_concat(join_segments(rest), seg, pat, p);
        if p + pat.len() <= join_segments(rest).len() {
            assert forall|j: int| 0 <= j < rest.len() implies is_name(#[trigger] rest[j].0) by {
                assert(rest[j] == params[j]);
            }
            lemma_occurs_in_join(rest, k, p);
            let j = choose|j: int|
                0 <= j < rest.len() && (#[trigger] rest[j]).1 is Some && ((rest[j].0 == k && p
                    == join_segments(rest.take(j)).len()) || contains(rest[j].1->0, pat));
            assert(params[j] == rest[j]);
            assert(params.take(j) =~= rest.take(j));
        } else {
            let j = params.len() - 1;
            assert(params[j] == last);
            assert(params.take(j) =~= rest);
            lemma_occurs_in_segment(last.0, last.1->0, k, p - join_segments(rest).len());
        }
    }
}

/// The opening of a key other than `action` does not stand in the start
/// of a query.
proof fn lemma_not_in_head(module: EtherscanModule, action: EtherscanAction, k: Seq<char>)
    requires
        is_name(k),
        k != "action"@,
    ensures
        !contains(head(module, action), key_pattern(k)),
{
    let pat = key_pattern(k);
    let front = "?module="@ + module.tag();
    let seg = segment("action"@, action.tag());
    lemma_key_pattern_chars(k);
    reveal_strlit("?module=");
    reveal_strlit("action");
    reveal_strlit("&");
    lemma_module_tags(module, module);
    lemma_action_tag_is_name(action);
    lemma_name_free(module.tag(), '&');
    lemma_name_free(action.tag(), '&');
    lemma_free_concat("?module="@, module.tag(), '&');
    lemma_free_no_occurrence(front, pat, '&');
    lemma_free_no_occurrence(action.tag(), pat, '&');
    assert forall|p: int| !occurs_at(head(module, action), pat, p) by {
        if occurs_at(front + seg, pat, p) {
            lemma_no_straddle(front, seg, k, p);
            lemma_occurs_concat(front, seg, pat, p);
            if p >= front.len() {
                lemma_occurs_in_segment("action"@, action.tag(), k, p - front.len());
            }
        }
    }
}

/// No two of the thirteen keys are alike, and none is `action`.
pub proof fn lemma_keys_distinct(v: RequestView)
    ensures
        forall|i: int, j: int|
            0 <= i < 13 && 0 <= j < 13 && i != j ==> #[trigger] v.params()[i].0
                != #[trigger] v.params()[j].0,
        forall|i: int| 0 <= i < 13 ==> #[trigger] v.params()[i].0 != "action"@,
{
    reveal_strlit("contractaddress");
    reveal_strlit("address");
    reveal_strlit("tag");
    reveal_strlit("page");
    reveal_strlit("offset");
    reveal_strlit("startblock");
    reveal_strlit("endblock");
    reveal_strlit("sort");
    reveal_strlit("txhash");
    reveal_strlit("blockno");
    reveal_strlit("timestamp");
    reveal_strlit("format");
    reveal_strlit("apikey");
    reveal_strlit("action");
    let ps = v.params();
    assert forall|i: int, j: int| 0 <= i < 13 && 0 <= j < 13 && i != j implies #[trigger] ps[i].0
        != #[trigger] ps[j].0 by {
        if ps[i].0 == ps[j].0 {
            assert(ps[i].0.len() == ps[j].0.len());
            assert(ps[i].0[0] == ps[j].0[0]);
            assert(ps[i].0[1] == ps[j].0[1]);
        }
    }
    assert forall|i: int| 0 <= i < 13 implies #[trigger] ps[i].0 != "action"@ by {
        if ps[i].0 == "action"@ {
            assert(ps[i].0.len() == "action"@.len());
            assert(ps[i].0[0] == "action"@[0]);
            assert(ps[i].0[1] == "action"@[1]);
        }
    }
}

/// Where the opening of a key stands in a query, the parameter of that
/// key is present and the opening stands at the start of its segment. The
/// base URL and the API key are written as they were given, so this holds
/// where neither of them holds that text itself.
pub proof fn lemma_key_written_at_its_place(v: RequestView, k: int, p: int)
    requires
        0 <= k < 13,
        !contains(opt_text(v.url), key_pattern(v.params()[k].0)),
        v.apikey matches Some(a) ==> !contains(a, key_pattern(v.params()[k].0)),
        occurs_at(v.query(), key_pattern(v.params()[k].0), p),
    ensures
        v.params()[k].1 is Some,
        p == param_start(v, k),
{
    let ps = v.params();
    let key = ps[k].0;
    let pat = key_pattern(key);
    let url = opt_text(v.url);
    let start = optional_head(v.module_action);
    let rest = join_segments(ps);
    lemma_keys_are_names(v);
    lemma_keys_distinct(v);
    lemma_values_free_of_ampersand(v);
    lemma_key_pattern_chars(key);
    lemma_join_first(ps);
    reveal_strlit("?module=");
    lemma_no_straddle(url + start, rest, key, p);
    lemma_occurs_concat(url + start, rest, pat, p);
    if p >= (url + start).len() {
        let q = p - (url + start).len();
        lemma_occurs_in_join(ps, key, q);
        let j = choose|j: int|
            0 <= j < ps.len() && (#[trigger] ps[j]).1 is Some && ((ps[j].0 == key && q
                == join_segments(ps.take(j)).len()) || contains(ps[j].1->0, pat));
        if j < 12 {
            lemma_free_no_occurrence(ps[j].1->0, pat, '&');
        }
        assert(j == k);
    } else {
        if let Some((module, action)) = v.module_action {
            assert(start[0] == '?');
            lemma_not_in_head(module, action, key);
        }
        lemma_no_straddle(url, start, key, p);
        lemma_occurs_concat(url, start, pat, p);
    }
}

/// A parameter that is absent is not written: `&`, its key and `=` stand
/// nowhere in the query. The base URL and the API key are written as they
/// were given, so this holds where neither of them holds that text itself.
pub proof fn lemma_absent_key_not_written(v: RequestView, k: int)
    requires
        0 <= k < 13,
        v.params()[k].1 is None,
        !contains(opt_text(v.url), key_pattern(v.params()[k].0)),
        v.apikey matches Some(a) ==> !contains(a, key_pattern(v.params()[k].0)),
    ensures
        !contains(v.query(), key_pattern(v.params()[k].0)),
{
    let pat = key_pattern(v.params()[k].0);
    assert forall|p: int| !occurs_at(v.query(), pat, p) by {
        if occurs_at(v.query(), pat, p) {
            lemma_key_written_at_its_place(v, k, p);
        }
    }
}

/// A parameter that is present is written once: `&`, its key and `=` stand
/// at the start of its segment and nowhere else in the query. As for an
/// absent parameter, this holds where neither the base URL nor the API key
/// holds that text itself.
pub proof fn lemma_present_key_written_once(v: RequestView, k: int)
    requires
        0 <= k < 13,
        v.params()[k].1 is Some,
        !contains(opt_text(v.url), key_pattern(v.params()[k].0)),
        v.apikey matches Some(a) ==> !contains(a, key_pattern(v.params()[k].0)),
    ensures
        occurs_at(v.query(), key_pattern(v.params()[k].0), param_start(v, k)),
        forall|p: int| #[trigger]
            occurs_at(v.query(), key_pattern(v.params()[k].0), p) ==> p == param_start(v, k),
{
    let pat = key_pattern(v.params()[k].0);
    let seg = param_segment(v, k);
    let at = param_start(v, k);
    lemma_param_position(v, k);
    assert(seg =~= pat + v.params()[k].1->0);
    assert(v.query().subrange(at, at + pat.len()) =~= seg.subrange(0, pat.len() as int)) by {
        assert(v.query().subrange(at, at + seg.len()) == seg);
        assert forall|i: int| 0 <= i < pat.len() implies v.query().subrange(at, at + pat.len())[i]
            == seg[i] by {
            assert(v.query().subrange(at, at + seg.len())[i] == v.query()[at + i]);
        }
    }
    assert(seg.subrange(0, pat.len() as int) =~= pat);
    assert forall|p: int| #[trigger] occurs_at(v.query(), pat, p) implies p == at by {
        lemma_key_written_at_its_place(v, k, p);
    }
}

} // verus!
