use etherscan::{EtherscanFormat, EtherscanRequest, EtherscanSort, EtherscanTag, Uint256};

fn n(x: u64) -> Uint256 {
    Uint256::from_u64(x)
}

#[test]
fn balance_of_one_account_with_tag() {
    let url = EtherscanRequest::account_balance(n(0xAB), Some(EtherscanTag::Latest))
        .with_url(String::from("http://x"))
        .build();
    assert_eq!(url, "http://x?module=account&action=balance&address=0xAB&tag=latest");
}

#[test]
fn eth_price_with_url_and_key() {
    let url = EtherscanRequest::stats_eth_price()
        .with_url(String::from("http://x"))
        .with_apikey(String::from("K"))
        .build();
    assert_eq!(url, "http://x?module=stats&action=ethprice&apikey=K");
}

#[test]
fn tx_list_keeps_its_order() {
    let url = EtherscanRequest::account_tx_list(
        n(0xAB),
        Some(n(1)),
        Some(n(2)),
        None,
        None,
        Some(EtherscanSort::Descending),
    )
    .build();
    assert_eq!(
        url,
        "?module=account&action=txlist&address=0xAB&startblock=1&endblock=2&sort=desc"
    );
}

#[test]
fn tx_list_order_does_not_depend_on_what_is_given() {
    let all = EtherscanRequest::account_tx_list(
        n(0xAB),
        Some(n(1)),
        Some(n(2)),
        Some(n(3)),
        Some(n(4)),
        Some(EtherscanSort::Descending),
    )
    .build();
    assert_eq!(
        all,
        "?module=account&action=txlist&address=0xAB&page=3&offset=4&startblock=1&endblock=2&sort=desc"
    );
    let some = EtherscanRequest::account_tx_list(n(0xAB), None, Some(n(2)), Some(n(3)), None, None)
        .build();
    assert_eq!(some, "?module=account&action=txlist&address=0xAB&page=3&endblock=2");
    let address = all.find("&address=").unwrap();
    let startblock = all.find("&startblock=").unwrap();
    let endblock = all.find("&endblock=").unwrap();
    let sort = all.find("&sort=").unwrap();
    assert!(address < startblock && startblock < endblock && endblock < sort);
}

#[test]
fn empty_request_renders_nothing() {
    assert_eq!(EtherscanRequest::default().build(), "");
}

#[test]
fn url_alone_is_rendered_as_given() {
    let url = EtherscanRequest::default().with_url(String::from("https://api.example/api")).build();
    assert_eq!(url, "https://api.example/api");
}

#[test]
fn url_is_not_escaped() {
    let url = EtherscanRequest::stats_node_count()
        .with_url(String::from("http://x/a b?c=d&e"))
        .with_apikey(String::from("k&y=1 2"))
        .build();
    assert_eq!(url, "http://x/a b?c=d&e?module=stats&action=nodecount&apikey=k&y=1 2");
}

#[test]
fn key_without_module_has_no_question_mark() {
    let url = EtherscanRequest::default().with_apikey(String::from("K")).build();
    assert_eq!(url, "&apikey=K");
}

#[test]
fn format_comes_before_the_key() {
    let url = EtherscanRequest::stats_eth_supply()
        .with_apikey(String::from("K"))
        .with_format(EtherscanFormat::Raw)
        .build();
    assert_eq!(url, "?module=stats&action=ethsupply&format=raw&apikey=K");
}

#[test]
fn later_setter_replaces_earlier_value() {
    let url = EtherscanRequest::stats_eth_supply()
        .with_url(String::from("http://a"))
        .with_url(String::from("http://b"))
        .with_apikey(String::from("K1"))
        .with_apikey(String::from("K2"))
        .build();
    assert_eq!(url, "http://b?module=stats&action=ethsupply&apikey=K2");
}

#[test]
fn absent_fields_leave_no_trace() {
    let url = EtherscanRequest::account_balance(n(1), None).build();
    assert_eq!(url, "?module=account&action=balance&address=0x1");
    for key in [
        "contractaddress", "tag", "page", "offset", "startblock", "endblock", "sort", "txhash",
        "blockno", "timestamp", "format", "apikey",
    ] {
        assert!(!url.contains(&format!("&{}=", key)), "{}", key);
    }
    assert_eq!(url.matches('&').count(), 2);
}

#[test]
fn clone_renders_the_same() {
    let request = EtherscanRequest::account_balance_multi(vec![n(1), n(2)], Some(EtherscanTag::Latest))
        .with_url(String::from("http://x"))
        .with_apikey(String::from("K"));
    let copy = request.clone();
    let first = request.build();
    assert_eq!(first, copy.build());
    assert_eq!(first, "http://x?module=account&action=balancemulti&address=0x1,0x2&tag=latest&apikey=K");
}

#[test]
fn rendering_is_repeatable() {
    let make = || {
        EtherscanRequest::account_token_tx(Some(n(7)), None, None, Some(n(9)), None, None, None)
            .with_url(String::from("u"))
    };
    assert_eq!(make().build(), make().build());
}

#[test]
fn parts_round_trip() {
    let request = EtherscanRequest::account_token_balance(n(0xA0), n(0xC0), Some(EtherscanTag::Latest))
        .with_url(String::from("http://x"))
        .with_format(EtherscanFormat::Raw);
    let expected = request.clone().build();
    let parts = request.into_parts();
    assert_eq!(parts.url.as_deref(), Some("http://x"));
    assert_eq!(parts.contractaddress, Some(n(0xC0)));
    assert_eq!(parts.address, Some(vec![n(0xA0)]));
    assert_eq!(parts.tag, Some(EtherscanTag::Latest));
    assert_eq!(parts.format, Some(EtherscanFormat::Raw));
    assert!(parts.apikey.is_none() && parts.txhash.is_none() && parts.sort.is_none());
    assert_eq!(EtherscanRequest::from_parts(parts).build(), expected);
}

#[test]
fn parts_can_hold_any_field() {
    let parts = etherscan::RequestParts {
        url: Some(String::from("u")),
        module_action: None,
        contractaddress: Some(n(1)),
        address: Some(vec![n(2), n(3)]),
        tag: Some(EtherscanTag::Latest),
        startblock: Some(n(6)),
        endblock: Some(n(7)),
        page: Some(n(4)),
        offset: Some(n(5)),
        sort: Some(EtherscanSort::Ascending),
        txhash: Some(n(8)),
        blockno: Some(n(9)),
        timestamp: Some(n(10)),
        format: Some(EtherscanFormat::Raw),
        apikey: Some(String::from("K")),
    };
    assert_eq!(
        EtherscanRequest::from_parts(parts).build(),
        "u&contractaddress=0x1&address=0x2,0x3&tag=latest&page=4&offset=5&startblock=6&endblock=7&sort=asc&txhash=0x8&blockno=9&timestamp=10&format=raw&apikey=K"
    );
}

#[test]
fn text_of_the_url_is_kept_even_where_it_names_a_parameter() {
    let url = EtherscanRequest::account_balance(n(1), None)
        .with_url(String::from("http://x/api?old=1&tag=earliest"))
        .build();
    assert_eq!(url, "http://x/api?old=1&tag=earliest?module=account&action=balance&address=0x1");
    assert_eq!(url.matches("&tag=").count(), 1);
    assert!(url.find("&tag=").unwrap() < "http://x/api?old=1&tag=earliest".len());
}

#[test]
fn present_keys_are_written_once() {
    let url = EtherscanRequest::account_token_tx(
        Some(n(0xC0)),
        Some(n(0xA0)),
        Some(n(5)),
        Some(n(6)),
        Some(n(7)),
        Some(n(8)),
        Some(EtherscanSort::Ascending),
    )
    .with_url(String::from("http://x"))
    .with_format(EtherscanFormat::Raw)
    .with_apikey(String::from("K"))
    .build();
    for key in [
        "contractaddress", "address", "page", "offset", "startblock", "endblock", "sort", "format",
        "apikey",
    ] {
        assert_eq!(url.matches(&format!("&{}=", key)).count(), 1, "{}", key);
    }
    assert_eq!(url.matches('&').count(), 10);
}
