use token_prices::currency::Currency;
use token_prices::json::Json;
use token_prices::text::{eq_ignoring_case, to_lower};
use token_prices::uniswap::UniswapVersion;

fn text(s: &str) -> Json {
    Json::Text(s.to_string())
}

fn object(members: Vec<(&str, Json)>) -> Json {
    Json::Object(members.into_iter().map(|(k, v)| (k.to_string(), v)).collect())
}

#[test]
fn currency_codes_are_lower_case() {
    assert_eq!(Currency::USD.to_string(), "usd");
    assert_eq!(Currency::EUR.to_string(), "eur");
    assert_eq!(Currency::ETH.to_string(), "eth");
    assert_eq!(Currency::BTC.to_string(), "btc");
}

#[test]
fn default_currency_is_usd() {
    assert_eq!(Currency::new(), Currency::USD);
    assert_eq!(Currency::default(), Currency::USD);
}

#[test]
fn currency_codes_are_pairwise_different() {
    let all = [Currency::USD, Currency::EUR, Currency::ETH, Currency::BTC];
    for a in all {
        for b in all {
            assert_eq!(a.to_string() == b.to_string(), a == b);
        }
    }
}

#[test]
fn version_numbers_and_endpoints() {
    assert_eq!(UniswapVersion::V2.get_version(), 2);
    assert_eq!(UniswapVersion::V3.get_version(), 3);
    assert_eq!(
        UniswapVersion::V2.to_string(),
        "https://api.thegraph.com/subgraphs/name/uniswap/uniswap-v2"
    );
    assert_eq!(
        UniswapVersion::V3.to_string(),
        "https://api.thegraph.com/subgraphs/name/uniswap/uniswap-v3"
    );
    assert_eq!(UniswapVersion::V2.root_name(), "pair");
    assert_eq!(UniswapVersion::V3.root_name(), "pool");
    assert_eq!(UniswapVersion::default(), UniswapVersion::V2);
}

#[test]
fn lower_touches_ascii_capitals_only() {
    assert_eq!(to_lower('A'), 'a');
    assert_eq!(to_lower('Z'), 'z');
    assert_eq!(to_lower('a'), 'a');
    assert_eq!(to_lower('@'), '@');
    assert_eq!(to_lower('['), '[');
    assert_eq!(to_lower('0'), '0');
    assert_eq!(to_lower('\u{c4}'), '\u{c4}');
}

#[test]
fn comparison_ignores_ascii_case_only() {
    assert!(eq_ignoring_case("Id", "id"));
    assert!(eq_ignoring_case("SYMBOL", "symbol"));
    assert!(eq_ignoring_case("", ""));
    assert!(!eq_ignoring_case("id", "ids"));
    assert!(!eq_ignoring_case("id", "i"));
    assert!(!eq_ignoring_case("name", "nome"));
    assert!(!eq_ignoring_case("\u{c4}", "\u{e4}"));
    assert!(eq_ignoring_case("n\u{e4}me", "N\u{e4}ME"));
}

#[test]
fn get_finds_the_first_member_with_the_key() {
    let doc = object(vec![("a", text("1")), ("b", text("2")), ("a", text("3"))]);
    assert_eq!(doc.get("a"), Some(&text("1")));
    assert_eq!(doc.get("b"), Some(&text("2")));
    assert_eq!(doc.get("c"), None);
    assert_eq!(doc.get("A"), None);
}

#[test]
fn get_on_what_is_no_object_finds_nothing() {
    assert_eq!(Json::Null.get("a"), None);
    assert_eq!(Json::Bool(true).get("a"), None);
    assert_eq!(text("a").get("a"), None);
    assert_eq!(Json::Number("1".to_string()).get("a"), None);
    assert_eq!(Json::Array(vec![object(vec![("a", Json::Null)])]).get("a"), None);
}

#[test]
fn text_and_number_are_told_apart() {
    assert_eq!(text("0.5").as_text(), Some(&"0.5".to_string()));
    assert_eq!(text("0.5").as_number(), None);
    assert_eq!(Json::Number("0.5".to_string()).as_number(), Some(&"0.5".to_string()));
    assert_eq!(Json::Number("0.5".to_string()).as_text(), None);
    assert_eq!(Json::Null.as_text(), None);
    assert_eq!(Json::Null.as_number(), None);
}

#[test]
fn get_text_wants_a_string_under_the_key() {
    let doc = object(vec![("id", text("0xabc")), ("n", Json::Number("1".to_string()))]);
    assert_eq!(doc.get_text("id"), Some("0xabc".to_string()));
    assert_eq!(doc.get_text("n"), None);
    assert_eq!(doc.get_text("missing"), None);
}
