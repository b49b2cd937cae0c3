//! The pair source: what is asked of the subgraph and how its answer is read.

use vstd::prelude::*;
use vstd::string::*;
use crate::error::{maybe, outcome, Fault, PriceError, PriceErrorView, Upstream};
use crate::exchange::{answer_with, answered, Reply, ReplyView, Request, RequestView};
use crate::json::{encode_text, json_literal, Json};

verus! {

/// The versions of the exchange whose subgraph can be asked.
#[derive(Debug, Clone, Copy, PartialEq, Eq, Structural)]
pub enum UniswapVersion {
    V2,
    V3,
}

/// What the query asks of a pair, from the closing quote of its address on.
pub const PAIR_FIELDS: &'static str =
    "\") {\n            id\n            token0 {\n              id\n            }\n            token1 {\n              id\n            }\n            token0Price\n            token1Price\n          } }";

impl UniswapVersion {
    /// The version as a number.
    pub open spec fn number(self) -> nat {
        match self {
            UniswapVersion::V2 => 2,
            UniswapVersion::V3 => 3,
        }
    }

    /// The address of the version's subgraph.
    pub open spec fn endpoint(self) -> Seq<char> {
        match self {
            UniswapVersion::V2 => "https://api.thegraph.com/subgraphs/name/uniswap/uniswap-v2"@,
            UniswapVersion::V3 => "https://api.thegraph.com/subgraphs/name/uniswap/uniswap-v3"@,
        }
    }

    /// The name under which the version's subgraph knows a pair: the root
    /// field of the query and the key of the answer.
    pub open spec fn root(self) -> Seq<char> {
        match self {
            UniswapVersion::V2 => "pair"@,
            UniswapVersion::V3 => "pool"@,
        }
    }

    /// The version as a number.
    pub fn get_version(&self) -> (n: usize)
        ensures
            n == self.number(),
    {
        match self {
            UniswapVersion::V2 => 2,
            UniswapVersion::V3 => 3,
        }
    }

    /// The address of the version's subgraph.
    pub fn to_string(&self) -> (s: String)
        ensures
            s@ == self.endpoint(),
    {
        match self {
            UniswapVersion::V2 => String::from_str(
                "https://api.thegraph.com/subgraphs/name/uniswap/uniswap-v2",
            ),
            UniswapVersion::V3 => String::from_str(
                "https://api.thegraph.com/subgraphs/name/uniswap/uniswap-v3",
            ),
        }
    }

    /// The name under which the version's subgraph knows a pair.
    pub fn root_name(&self) -> (s: &'static str)
        ensures
            s@ == self.root(),
    {
        match self {
            UniswapVersion::V2 => "pair",
            UniswapVersion::V3 => "pool",
        }
    }
}

impl Default for UniswapVersion {
    fn default() -> (v: Self)
        ensures
            v == UniswapVersion::V2,
    {
        UniswapVersion::V2
    }
}

/// The GraphQL text that asks `version`'s subgraph for the pair at `address`.
pub open spec fn pair_query(version: UniswapVersion, address: Seq<char>) -> Seq<char> {
    "{ "@ + version.root() + "(id: \""@ + address + PAIR_FIELDS@
}

/// The body of the POST that carries a query whose JSON literal is `literal`.
pub open spec fn query_body(literal: Seq<char>) -> Seq<char> {
    "{\"query\":"@ + literal + "}"@
}

/// The request for the pair at `address`, given what the encoder made of the
/// query text.
pub open spec fn framed(
    version: UniswapVersion,
    address: Seq<char>,
    literal: Option<Seq<char>>,
) -> Result<RequestView, PriceErrorView> {
    match literal {
        Some(text) => Ok(
            RequestView::Post {
                url: version.endpoint(),
                content_type: "application/json"@,
                body: query_body(text),
            },
        ),
        None => Err(
            PriceErrorView::Source {
                upstream: Upstream::Subgraph,
                id: address,
                fault: Fault::Unencodable,
            },
        ),
    }
}

/// Writes the GraphQL text that asks for the pair at `pair_address`.
pub fn write_pair_query(version: &UniswapVersion, pair_address: &str) -> (query: String)
    ensures
        query@ == pair_query(*version, pair_address@),
{
    let mut query = String::from_str("{ ");
    query.append(version.root_name());
    query.append("(id: \"");
    query.append(pair_address);
    query.append(PAIR_FIELDS);
    query
}

/// Frames the POST for the pair at `pair_address` around the JSON literal of
/// its query; without a literal there is nothing to send.
pub fn frame_query(version: &UniswapVersion, pair_address: &str, literal: Option<String>) -> (r:
    Result<Request, PriceError>)
    ensures
        outcome(r) == framed(*version, pair_address@, literal.deep_view()),
{
    match literal {
        Some(text) => {
            let mut body = String::from_str("{\"query\":");
            body.append(text.as_str());
            body.append("}");
            Ok(
                Request::Post {
                    url: version.to_string(),
                    content_type: String::from_str("application/json"),
                    body,
                },
            )
        },
        None => Err(
            PriceError::Source {
                upstream: Upstream::Subgraph,
                id: String::from_str(pair_address),
                fault: Fault::Unencodable,
            },
        ),
    }
}

/// The first token of a pair.
#[derive(Debug, Clone, PartialEq, Eq)]
pub struct Token0 {
    pub id: String,
}

/// The second token of a pair.
#[derive(Debug, Clone, PartialEq, Eq)]
pub struct Token1 {
    pub id: String,
}

/// A pair as either version of the subgraph describes it. The two prices are
/// the decimal strings of the answer, untouched.
#[derive(Debug, Clone, PartialEq, Eq)]
pub struct Pair {
    pub id: String,
    pub token0: Token0,
    pub token1: Token1,
    pub token0_price: String,
    pub token1_price: String,
}

/// The mathematical value of a [`Pair`]; a token stands for its id.
pub struct PairView {
    pub id: Seq<char>,
    pub token0: Seq<char>,
    pub token1: Seq<char>,
    pub token0_price: Seq<char>,
    pub token1_price: Seq<char>,
}

/// The payload of an answer, under the key of the version that gave it.
#[derive(Debug, Clone, PartialEq, Eq)]
pub enum InnerData {
    V2 { pair: Pair },
    V3 { pool: Pair },
}

/// The mathematical value of an [`InnerData`].
pub enum InnerDataView {
    V2 { pair: PairView },
    V3 { pool: PairView },
}

/// The `data` member of an answer.
#[derive(Debug, Clone, PartialEq, Eq)]
pub struct Data {
    pub inner: InnerData,
}

/// An answer of the subgraph.
#[derive(Debug, Clone, PartialEq, Eq)]
pub struct UniswapResponse {
    pub data: Data,
}

impl View for Token0 {
    type V = Seq<char>;

    open spec fn view(&self) -> Seq<char> {
        self.id@
    }
}

impl View for Token1 {
    type V = Seq<char>;

    open spec fn view(&self) -> Seq<char> {
        self.id@
    }
}

impl View for Pair {
    type V = PairView;

    open spec fn view(&self) -> PairView {
        PairView {
            id: self.id@,
            token0: self.token0@,
            token1: self.token1@,
            token0_price: self.token0_price@,
            token1_price: self.token1_price@,
        }
    }
}

impl View for InnerData {
    type V = InnerDataView;

    open spec fn view(&self) -> InnerDataView {
        match *self {
            InnerData::V2 { pair } => InnerDataView::V2 { pair: pair@ },
            InnerData::V3 { pool } => InnerDataView::V3 { pool: pool@ },
        }
    }
}

impl View for Data {
    type V = InnerDataView;

    open spec fn view(&self) -> InnerDataView {
        self.inner@
    }
}

impl View for UniswapResponse {
    type V = InnerDataView;

    open spec fn view(&self) -> InnerDataView {
        self.data@
    }
}

impl InnerDataView {
    /// The pair inside, whichever key it came under.
    pub open spec fn pair(self) -> PairView {
        match self {
            InnerDataView::V2 { pair } => pair,
            InnerDataView::V3 { pool } => pool,
        }
    }

    /// The payload that carries `pair` under the key of `version`.
    pub open spec fn of(version: UniswapVersion, pair: PairView) -> InnerDataView {
        match version {
            UniswapVersion::V2 => InnerDataView::V2 { pair },
            UniswapVersion::V3 => InnerDataView::V3 { pool: pair },
        }
    }
}

/// The id of the token that `body` describes under `key`.
pub open spec fn token_id(body: Json, key: Seq<char>) -> Option<Seq<char>> {
    match body.field(key) {
        Some(token) => token.text_at("id"@),
        None => None,
    }
}

/// The pair that the JSON object `body` describes: its id, the ids of its two
/// tokens and its two prices, each a string. Nothing where one is missing or
/// is no string.
pub open spec fn pair_of(body: Json) -> Option<PairView> {
    if body.text_at("id"@) is Some && token_id(body, "token0"@) is Some && token_id(
        body,
        "token1"@,
    ) is Some && body.text_at("token0Price"@) is Some && body.text_at("token1Price"@) is Some {
        Some(
            PairView {
                id: body.text_at("id"@)->0,
                token0: token_id(body, "token0"@)->0,
                token1: token_id(body, "token1"@)->0,
                token0_price: body.text_at("token0Price"@)->0,
                token1_price: body.text_at("token1Price"@)->0,
            },
        )
    } else {
        None
    }
}

/// What `document` holds for `version`: the pair under `data`, under the key
/// of that version and no other.
pub open spec fn response_of(document: Json, version: UniswapVersion) -> Option<InnerDataView> {
    match document.field("data"@) {
        Some(data) => match data.field(version.root()) {
            Some(body) => match pair_of(body) {
                Some(pair) => Some(InnerDataView::of(version, pair)),
                None => None,
            },
            None => None,
        },
        None => None,
    }
}

impl Token0 {
    /// Reads the token from the JSON object that describes it.
    pub fn from_json(token: &Json) -> (r: Option<Token0>)
        ensures
            maybe(r) == token.text_at("id"@),
    {
        match token.get_text("id") {
            Some(id) => Some(Token0 { id }),
            None => None,
        }
    }
}

impl Token1 {
    /// Reads the token from the JSON object that describes it.
    pub fn from_json(token: &Json) -> (r: Option<Token1>)
        ensures
            maybe(r) == token.text_at("id"@),
    {
        match token.get_text("id") {
            Some(id) => Some(Token1 { id }),
            None => None,
        }
    }
}

impl Pair {
    /// Reads a pair from the JSON object that describes it.
    pub fn from_json(body: &Json) -> (r: Option<Pair>)
        ensures
            maybe(r) == pair_of(*body),
    {
        let id = match body.get_text("id") {
            Some(id) => id,
            None => { return None; },
        };
        let token0 = match body.get("token0") {
            Some(token) => match Token0::from_json(token) {
                Some(token0) => token0,
                None => { return None; },
            },
            None => { return None; },
        };
        let token1 = match body.get("token1") {
            Some(token) => match Token1::from_json(token) {
                Some(token1) => token1,
                None => { return None; },
            },
            None => { return None; },
        };
        let token0_price = match body.get_text("token0Price") {
            Some(price) => price,
            None => { return None; },
        };
        let token1_price = match body.get_text("token1Price") {
            Some(price) => price,
            None => { return None; },
        };
        Some(Pair { id, token0, token1, token0_price, token1_price })
    }
}

impl InnerData {
    /// The pair inside, whichever key it came under.
    pub fn into_pair(self) -> (pair: Pair)
        ensures
            pair@ == self@.pair(),
    {
        match self {
            InnerData::V2 { pair } => pair,
            InnerData::V3 { pool } => pool,
        }
    }
}

impl UniswapResponse {
    /// Reads the answer to a query that was put to `version`'s subgraph.
    pub fn from_json(document: &Json, version: &UniswapVersion) -> (r: Option<UniswapResponse>)
        ensures
            maybe(r) == response_of(*document, *version),
    {
        let data = match document.get("data") {
            Some(data) => data,
            None => { return None; },
        };
        let body = match data.get(version.root_name()) {
            Some(body) => body,
            None => { return None; },
        };
        match Pair::from_json(body) {
            Some(pair) => {
                let inner = match version {
                    UniswapVersion::V2 => InnerData::V2 { pair },
                    UniswapVersion::V3 => InnerData::V3 { pool: pair },
                };
                Some(UniswapResponse { data: Data { inner } })
            },
            None => None,
        }
    }

    /// The pair of the answer, in the one form that callers see.
    pub fn into_pair(self) -> (pair: Pair)
        ensures
            pair@ == self@.pair(),
    {
        self.data.inner.into_pair()
    }
}

/// A query that was put to the subgraph and waits for its answer.
#[derive(Debug, PartialEq, Eq)]
pub struct PairQuery {
    pub pair_address: String,
    pub version: UniswapVersion,
}

/// The mathematical value of a [`PairQuery`].
pub struct PairQueryView {
    pub pair_address: Seq<char>,
    pub version: UniswapVersion,
}

impl View for PairQuery {
    type V = PairQueryView;

    open spec fn view(&self) -> PairQueryView {
        PairQueryView { pair_address: self.pair_address@, version: self.version }
    }
}

/// The error of a query about `pair_address` that ended with `fault`.
pub open spec fn subgraph_error(pair_address: Seq<char>, fault: Fault) -> PriceErrorView {
    PriceErrorView::Source { upstream: Upstream::Subgraph, id: pair_address, fault }
}

/// How a query for the pair at `address` begins: with the POST that
/// [`framed`] makes of the encoded query text, or with that function's error.
pub open spec fn pair_query_start(address: Seq<char>, version: UniswapVersion) -> Result<
    (PairQueryView, RequestView),
    PriceErrorView,
> {
    match framed(version, address, json_literal(pair_query(version, address))) {
        Ok(request) => Ok((PairQueryView { pair_address: address, version }, request)),
        Err(error) => Err(error),
    }
}

impl PairQueryView {
    /// How the query ends on `reply`: with the pair, where the reply is a
    /// successful answer whose document holds one under the version's key;
    /// as malformed on any other document; on any other reply with the fault
    /// that [`answered`] finds.
    pub open spec fn end(self, reply: ReplyView) -> Result<PairView, PriceErrorView> {
        match answered(reply) {
            Ok(document) => match response_of(document, self.version) {
                Some(response) => Ok(response.pair()),
                None => Err(subgraph_error(self.pair_address, Fault::Malformed)),
            },
            Err(fault) => Err(subgraph_error(self.pair_address, fault)),
        }
    }
}

/// Begins the query for the pair at `pair_address`: asks for one POST to the
/// subgraph of `version_provider`.
pub fn create_uniswap_request(pair_address: &str, version_provider: UniswapVersion) -> (r: Result<
    (PairQuery, Request),
    PriceError,
>)
    ensures
        outcome(r) == pair_query_start(pair_address@, version_provider),
{
    let query = write_pair_query(&version_provider, pair_address);
    let literal = encode_text(query.as_str());
    match frame_query(&version_provider, pair_address, literal) {
        Ok(request) => Ok(
            (
                PairQuery {
                    pair_address: String::from_str(pair_address),
                    version: version_provider,
                },
                request,
            ),
        ),
        Err(error) => Err(error),
    }
}

impl PairQuery {
    /// Takes the reply to the POST and ends the query.
    pub fn finish(self, reply: Reply) -> (r: Result<Pair, PriceError>)
        ensures
            outcome(r) == self@.end(reply@),
    {
        match reply.into_document() {
            Ok(document) => match UniswapResponse::from_json(&document, &self.version) {
                Some(response) => Ok(response.into_pair()),
                None => Err(
                    PriceError::Source {
                        upstream: Upstream::Subgraph,
                        id: self.pair_address,
                        fault: Fault::Malformed,
                    },
                ),
            },
            Err(fault) => Err(
                PriceError::Source { upstream: Upstream::Subgraph, id: self.pair_address, fault },
            ),
        }
    }
}

/// A pair reads the same whichever version's key it came under: two answers
/// that hold one description, the first under `pair` and the second under
/// `pool`, give the same pair, or neither gives one.
pub proof fn law_pair_reads_the_same_under_either_key(
    answer2: Json,
    data2: Json,
    answer3: Json,
    data3: Json,
    body: Json,
)
    requires
        answer2.field("data"@) == Some(data2),
        data2.field("pair"@) == Some(body),
        answer3.field("data"@) == Some(data3),
        data3.field("pool"@) == Some(body),
    ensures
        response_of(answer2, UniswapVersion::V2) is Some <==> pair_of(body) is Some,
        response_of(answer3, UniswapVersion::V3) is Some <==> pair_of(body) is Some,
        pair_of(body) is Some ==> response_of(answer2, UniswapVersion::V2)->0.pair() == pair_of(
            body,
        )->0 && response_of(answer3, UniswapVersion::V3)->0.pair() == pair_of(body)->0,
{
}

/// A finished query does not tell which version answered: for one address,
/// answers that hold one description under the two keys end the two queries
/// alike.
pub proof fn law_query_ends_alike_for_either_version(
    address: Seq<char>,
    status: u16,
    answer2: Json,
    data2: Json,
    answer3: Json,
    data3: Json,
    body: Json,
)
    requires
        answer2.field("data"@) == Some(data2),
        data2.field("pair"@) == Some(body),
        answer3.field("data"@) == Some(data3),
        data3.field("pool"@) == Some(body),
    ensures
        (PairQueryView { pair_address: address, version: UniswapVersion::V2 }).end(
            answer_with(status, answer2),
        ) == (PairQueryView { pair_address: address, version: UniswapVersion::V3 }).end(
            answer_with(status, answer3),
        ),
{
    law_pair_reads_the_same_under_either_key(answer2, data2, answer3, data3, body);
}

/// The prices of a pair: the pair's own description, and beside each of its
/// two prices what the conversion made of it.
#[derive(Debug, PartialEq, Eq)]
pub struct UniswapPairPrice {
    pub pair: String,
    pub token0: String,
    pub token0_price: String,
    pub token0_per_dollar: String,
    pub token1: String,
    pub token1_price: String,
    pub token1_per_dollar: String,
}

/// The mathematical value of a [`UniswapPairPrice`].
pub struct UniswapPairPriceView {
    pub pair: Seq<char>,
    pub token0: Seq<char>,
    pub token0_price: Seq<char>,
    pub token0_per_dollar: Seq<char>,
    pub token1: Seq<char>,
    pub token1_price: Seq<char>,
    pub token1_per_dollar: Seq<char>,
}

impl View for UniswapPairPrice {
    type V = UniswapPairPriceView;

    open spec fn view(&self) -> UniswapPairPriceView {
        UniswapPairPriceView {
            pair: self.pair@,
            token0: self.token0@,
            token0_price: self.token0_price@,
            token0_per_dollar: self.token0_per_dollar@,
            token1: self.token1@,
            token1_price: self.token1_price@,
            token1_per_dollar: self.token1_per_dollar@,
        }
    }
}

/// The result for `pair` with the two converted prices beside it. Everything
/// that the pair says of itself is taken over as it stands.
pub open spec fn priced(pair: PairView, per0: Seq<char>, per1: Seq<char>) -> UniswapPairPriceView {
    UniswapPairPriceView {
        pair: pair.id,
        token0: pair.token0,
        token0_price: pair.token0_price,
        token0_per_dollar: per0,
        token1: pair.token1,
        token1_price: pair.token1_price,
        token1_per_dollar: per1,
    }
}

impl UniswapPairPrice {
    /// Puts the two converted prices beside the pair's own description.
    pub fn assemble(pair: Pair, token0_per_dollar: String, token1_per_dollar: String) -> (r:
        UniswapPairPrice)
        ensures
            r@ == priced(pair@, token0_per_dollar@, token1_per_dollar@),
    {
        UniswapPairPrice {
            pair: pair.id,
            token0: pair.token0.id,
            token0_price: pair.token0_price,
            token0_per_dollar,
            token1: pair.token1.id,
            token1_price: pair.token1_price,
            token1_per_dollar,
        }
    }
}

impl PairView {
    /// The pair whose every part is the empty string.
    pub open spec fn empty() -> PairView {
        PairView {
            id: Seq::empty(),
            token0: Seq::empty(),
            token1: Seq::empty(),
            token0_price: Seq::empty(),
            token1_price: Seq::empty(),
        }
    }
}

impl Default for Token0 {
    fn default() -> (token: Self)
        ensures
            token@ == Seq::<char>::empty(),
    {
        Token0 { id: String::new() }
    }
}

impl Default for Token1 {
    fn default() -> (token: Self)
        ensures
            token@ == Seq::<char>::empty(),
    {
        Token1 { id: String::new() }
    }
}

impl Default for Pair {
    fn default() -> (pair: Self)
        ensures
            pair@ == PairView::empty(),
    {
        Pair {
            id: String::new(),
            token0: Token0::default(),
            token1: Token1::default(),
            token0_price: String::new(),
            token1_price: String::new(),
        }
    }
}

impl Default for InnerData {
    fn default() -> (inner: Self)
        ensures
            inner@ == (InnerDataView::V2 { pair: PairView::empty() }),
    {
        InnerData::V2 { pair: Pair::default() }
    }
}

impl Default for Data {
    fn default() -> (data: Self)
        ensures
            data@ == (InnerDataView::V2 { pair: PairView::empty() }),
    {
        Data { inner: InnerData::default() }
    }
}

impl Default for UniswapResponse {
    fn default() -> (response: Self)
        ensures
            response@ == (InnerDataView::V2 { pair: PairView::empty() }),
    {
        UniswapResponse { data: Data::default() }
    }
}

} // verus!
