use token_prices::error::{Fault, PriceError, Upstream};
use token_prices::exchange::{Reply, Request};
use token_prices::json::Json;
use token_prices::uniswap::{
    create_uniswap_request, frame_query, write_pair_query, Data, InnerData, Pair, PairQuery,
    Token0, Token1, UniswapPairPrice, UniswapResponse, UniswapVersion,
};

fn text(s: &str) -> Json {
    Json::Text(s.to_string())
}

fn object(members: Vec<(&str, Json)>) -> Json {
    Json::Object(members.into_iter().map(|(k, v)| (k.to_string(), v)).collect())
}

fn body(price0: &str, price1: &str) -> Json {
    object(vec![
        ("id", text("0xpair")),
        ("token0", object(vec![("id", text("0xaaa"))])),
        ("token1", object(vec![("id", text("0xbbb"))])),
        ("token0Price", text(price0)),
        ("token1Price", text(price1)),
    ])
}

fn answer(root: &str, price0: &str, price1: &str) -> Json {
    object(vec![("data", object(vec![(root, body(price0, price1))]))])
}

fn ok(document: Json) -> Reply {
    Reply::Answer { status: 200, document: Some(document) }
}

fn pair(price0: &str, price1: &str) -> Pair {
    Pair {
        id: "0xpair".to_string(),
        token0: Token0 { id: "0xaaa".to_string() },
        token1: Token1 { id: "0xbbb".to_string() },
        token0_price: price0.to_string(),
        token1_price: price1.to_string(),
    }
}

const QUERY_V2: &str = "{ pair(id: \"0xb4e1\") {\n            id\n            token0 {\n              id\n            }\n            token1 {\n              id\n            }\n            token0Price\n            token1Price\n          } }";

#[test]
fn query_text_names_the_root_of_the_version() {
    assert_eq!(write_pair_query(&UniswapVersion::V2, "0xb4e1"), QUERY_V2);
    assert_eq!(
        write_pair_query(&UniswapVersion::V3, "0xb4e1"),
        QUERY_V2.replacen("pair", "pool", 1)
    );
}

#[test]
fn request_is_a_post_of_the_encoded_query() {
    let (query, request) = create_uniswap_request("0xb4e1", UniswapVersion::V2).unwrap();
    assert_eq!(
        query,
        PairQuery { pair_address: "0xb4e1".to_string(), version: UniswapVersion::V2 }
    );
    assert_eq!(
        request,
        Request::Post {
            url: "https://api.thegraph.com/subgraphs/name/uniswap/uniswap-v2".to_string(),
            content_type: "application/json".to_string(),
            body: "{\"query\":\"{ pair(id: \\\"0xb4e1\\\") {\\n            id\\n            token0 {\\n              id\\n            }\\n            token1 {\\n              id\\n            }\\n            token0Price\\n            token1Price\\n          } }\"}".to_string(),
        }
    );
}

#[test]
fn request_body_parses_back_to_the_query() {
    for (version, url) in [
        (UniswapVersion::V2, "https://api.thegraph.com/subgraphs/name/uniswap/uniswap-v2"),
        (UniswapVersion::V3, "https://api.thegraph.com/subgraphs/name/uniswap/uniswap-v3"),
    ] {
        let address = "0x\"quoted\\ \u{e9}\n";
        let (_, request) = create_uniswap_request(address, version).unwrap();
        match request {
            Request::Post { url: to, content_type, body } => {
                assert_eq!(to, url);
                assert_eq!(content_type, "application/json");
                let parsed: serde_json::Value = serde_json::from_str(&body).unwrap();
                let members = parsed.as_object().unwrap();
                assert_eq!(members.len(), 1);
                assert_eq!(
                    members.get("query").and_then(|q| q.as_str()),
                    Some(write_pair_query(&version, address).as_str())
                );
            }
            other => panic!("{:?}", other),
        }
    }
}

#[test]
fn frame_without_a_literal_is_unencodable() {
    assert_eq!(
        frame_query(&UniswapVersion::V3, "0xb4e1", None),
        Err(PriceError::Source {
            upstream: Upstream::Subgraph,
            id: "0xb4e1".to_string(),
            fault: Fault::Unencodable,
        })
    );
    assert_eq!(
        frame_query(&UniswapVersion::V3, "0xb4e1", Some("\"q\"".to_string())),
        Ok(Request::Post {
            url: "https://api.thegraph.com/subgraphs/name/uniswap/uniswap-v3".to_string(),
            content_type: "application/json".to_string(),
            body: "{\"query\":\"q\"}".to_string(),
        })
    );
}

#[test]
fn both_shapes_read_as_the_same_pair() {
    let v2 = UniswapResponse::from_json(&answer("pair", "0.5", "2.0"), &UniswapVersion::V2);
    let v3 = UniswapResponse::from_json(&answer("pool", "0.5", "2.0"), &UniswapVersion::V3);
    assert_eq!(
        v2,
        Some(UniswapResponse { data: Data { inner: InnerData::V2 { pair: pair("0.5", "2.0") } } })
    );
    assert_eq!(
        v3,
        Some(UniswapResponse { data: Data { inner: InnerData::V3 { pool: pair("0.5", "2.0") } } })
    );
    assert_eq!(v2.unwrap().into_pair(), pair("0.5", "2.0"));
    assert_eq!(v3.unwrap().into_pair(), pair("0.5", "2.0"));
}

#[test]
fn query_ends_alike_for_either_version() {
    let q2 = PairQuery { pair_address: "0xpair".to_string(), version: UniswapVersion::V2 };
    let q3 = PairQuery { pair_address: "0xpair".to_string(), version: UniswapVersion::V3 };
    assert_eq!(q2.finish(ok(answer("pair", "0.5", "2.0"))), Ok(pair("0.5", "2.0")));
    assert_eq!(q3.finish(ok(answer("pool", "0.5", "2.0"))), Ok(pair("0.5", "2.0")));
}

#[test]
fn shape_is_read_by_the_version_alone() {
    let both = object(vec![(
        "data",
        object(vec![("pair", body("1", "1")), ("pool", body("3", "4"))]),
    )]);
    assert_eq!(
        UniswapResponse::from_json(&both, &UniswapVersion::V2).map(|r| r.into_pair()),
        Some(pair("1", "1"))
    );
    assert_eq!(
        UniswapResponse::from_json(&both, &UniswapVersion::V3).map(|r| r.into_pair()),
        Some(pair("3", "4"))
    );
    assert_eq!(
        UniswapResponse::from_json(&answer("pair", "1", "1"), &UniswapVersion::V3),
        None
    );
    assert_eq!(
        UniswapResponse::from_json(&answer("pool", "1", "1"), &UniswapVersion::V2),
        None
    );
}

#[test]
fn pair_wants_all_five_strings() {
    assert_eq!(Pair::from_json(&body("0.5", "2.0")), Some(pair("0.5", "2.0")));
    for missing in ["id", "token0", "token1", "token0Price", "token1Price"] {
        let members = match body("0.5", "2.0") {
            Json::Object(members) => members,
            _ => unreachable!(),
        };
        let without = Json::Object(members.into_iter().filter(|(k, _)| k != missing).collect());
        assert_eq!(Pair::from_json(&without), None);
    }
    let numeric = object(vec![
        ("id", text("0xpair")),
        ("token0", object(vec![("id", text("0xaaa"))])),
        ("token1", object(vec![("id", text("0xbbb"))])),
        ("token0Price", Json::Number("0.5".to_string())),
        ("token1Price", text("2.0")),
    ]);
    assert_eq!(Pair::from_json(&numeric), None);
    assert_eq!(Pair::from_json(&Json::Null), None);
    assert_eq!(Token0::from_json(&object(vec![("id", text("0xaaa"))])), Some(Token0 { id: "0xaaa".to_string() }));
    assert_eq!(Token1::from_json(&object(vec![("id", Json::Null)])), None);
}

#[test]
fn answers_that_are_no_documents_leave_the_query_unanswered() {
    for reply in [Reply::Failed, Reply::File(vec![1]), Reply::Number("1".to_string())] {
        let query = PairQuery { pair_address: "0xpair".to_string(), version: UniswapVersion::V2 };
        assert_eq!(
            query.finish(reply),
            Err(PriceError::Source {
                upstream: Upstream::Subgraph,
                id: "0xpair".to_string(),
                fault: Fault::Unanswered,
            })
        );
    }
}

#[test]
fn assemble_takes_the_pair_over_as_it_stands() {
    assert_eq!(
        UniswapPairPrice::assemble(pair("0.50", "2.0"), "2".to_string(), "0.5".to_string()),
        UniswapPairPrice {
            pair: "0xpair".to_string(),
            token0: "0xaaa".to_string(),
            token0_price: "0.50".to_string(),
            token0_per_dollar: "2".to_string(),
            token1: "0xbbb".to_string(),
            token1_price: "2.0".to_string(),
            token1_per_dollar: "0.5".to_string(),
        }
    );
}

#[test]
fn defaults_are_empty_and_second_version() {
    let empty = Pair {
        id: String::new(),
        token0: Token0 { id: String::new() },
        token1: Token1 { id: String::new() },
        token0_price: String::new(),
        token1_price: String::new(),
    };
    assert_eq!(Token0::default(), Token0 { id: String::new() });
    assert_eq!(Token1::default(), Token1 { id: String::new() });
    assert_eq!(Pair::default(), empty);
    assert_eq!(InnerData::default(), InnerData::V2 { pair: empty.clone() });
    assert_eq!(Data::default(), Data { inner: InnerData::V2 { pair: empty.clone() } });
    assert_eq!(
        UniswapResponse::default(),
        UniswapResponse { data: Data { inner: InnerData::V2 { pair: empty } } }
    );
}
