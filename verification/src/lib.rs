//! Price resolution for crypto assets, without the transport.
//!
//! The crate decides what to fetch, how to read what came back and which
//! arithmetic turns a quote into the requested currency. The caller performs
//! the requests it is asked for and hands the replies back: see
//! [`exchange`]. [`get_prices_for`] prices a single asset through the spot
//! source of [`coingecko`]; [`get_uniswap_prices_for`] prices the two tokens
//! of a pair through the subgraph of [`uniswap`].

use vstd::prelude::*;
use vstd::string::*;
use crate::coingecko::{
    ask_for_registry, conversion_start, create_request, csv_records, price_url, quote_of,
    reference_coin, registry_request, resolve, spot_start, token_price_per_currency, tokens_of,
    CoinGeckoPrice, CoinGeckoPriceView, Conversion, ConversionView, SpotQuery, SpotQueryView,
    TokenList, TokenView,
};
use crate::currency::Currency;
use crate::error::{outcome, PriceError, PriceErrorView};
use crate::exchange::{
    answer_with, is_success, run, Reply, ReplyView, Request, RequestView, Turn, TurnView,
};
use crate::json::Json;
use crate::uniswap::{
    create_uniswap_request, pair_query_start, priced, response_of, Pair, PairQuery,
    PairQueryView, PairView, UniswapPairPrice, UniswapPairPriceView, UniswapVersion,
};

pub mod coingecko;
pub mod currency;
pub mod error;
pub mod exchange;
pub mod json;
pub mod text;
pub mod uniswap;

verus! {

/// The resolution of a single asset's price, under way.
#[derive(Debug, PartialEq, Eq)]
pub enum PriceLookup {
    /// The registry file was asked for, to find the asset named `token`.
    Registry { token: String, currency: Currency },
    /// The asset's dollar price is being quoted, to be converted into
    /// `currency`; `tokens` is the registry.
    Quote { query: SpotQuery, currency: Currency, tokens: TokenList },
    /// The dollar price `price` is being converted.
    Convert { price: String, conversion: Conversion },
}

/// The mathematical value of a [`PriceLookup`].
pub enum PriceLookupView {
    Registry { token: Seq<char>, currency: Currency },
    Quote { query: SpotQueryView, currency: Currency, tokens: Seq<TokenView> },
    Convert { price: Seq<char>, conversion: ConversionView },
}

impl View for PriceLookup {
    type V = PriceLookupView;

    open spec fn view(&self) -> PriceLookupView {
        match *self {
            PriceLookup::Registry { token, currency } => PriceLookupView::Registry {
                token: token@,
                currency,
            },
            PriceLookup::Quote { query, currency, tokens } => PriceLookupView::Quote {
                query: query@,
                currency,
                tokens: tokens@,
            },
            PriceLookup::Convert { price, conversion } => PriceLookupView::Convert {
                price: price@,
                conversion: conversion@,
            },
        }
    }
}

/// How the resolution of the price of `token` in `currency` begins: by
/// asking for the registry file.
pub open spec fn price_lookup_start(token: Seq<char>, currency: Currency) -> (
    PriceLookupView,
    RequestView,
) {
    (PriceLookupView::Registry { token, currency }, registry_request())
}

/// The resolution's turn once the registry is loaded: the asset is quoted in
/// dollars, whatever the currency; an asset that the registry does not name
/// ends the resolution.
pub open spec fn price_lookup_quote(
    token: Seq<char>,
    currency: Currency,
    tokens: Seq<TokenView>,
) -> TurnView<PriceLookupView, CoinGeckoPriceView> {
    match spot_start(None, token, Currency::USD, tokens) {
        Ok((query, request)) => TurnView::Ask(
            PriceLookupView::Quote { query, currency, tokens },
            request,
        ),
        Err(error) => TurnView::Failed(error),
    }
}

/// The resolution's turn once the asset's dollar price is known: the
/// conversion begins, with the registry at hand, or there is none to begin.
pub open spec fn price_lookup_convert(
    price: Seq<char>,
    currency: Currency,
    tokens: Seq<TokenView>,
) -> TurnView<PriceLookupView, CoinGeckoPriceView> {
    match conversion_start(price, currency, Some(tokens)) {
        Ok((conversion, request)) => TurnView::Ask(
            PriceLookupView::Convert { price, conversion },
            request,
        ),
        Err(error) => TurnView::Failed(error),
    }
}

impl PriceLookupView {
    /// The currency the price is wanted in.
    pub open spec fn currency(self) -> Currency {
        match self {
            PriceLookupView::Registry { currency, .. } => currency,
            PriceLookupView::Quote { currency, .. } => currency,
            PriceLookupView::Convert { conversion, .. } => conversion.currency,
        }
    }

    /// The resolution's next turn on `reply`: the registry is loaded, the
    /// asset is quoted, the quoted price is converted; the result holds the
    /// quoted price and what the conversion made of it. The first failure
    /// ends the resolution; a reply to the request for the registry that is
    /// no file is a registry that could not be loaded.
    pub open spec fn step(self, reply: ReplyView) -> TurnView<PriceLookupView, CoinGeckoPriceView> {
        match self {
            PriceLookupView::Registry { token, currency } => match reply {
                ReplyView::File(bytes) => price_lookup_quote(
                    token,
                    currency,
                    tokens_of(csv_records(bytes)),
                ),
                _ => TurnView::Failed(PriceErrorView::RegistryLoad),
            },
            PriceLookupView::Quote { query, currency, tokens } => match query.end(reply) {
                Ok(price) => price_lookup_convert(price, currency, tokens),
                Err(error) => TurnView::Failed(error),
            },
            PriceLookupView::Convert { price, conversion } => match conversion.step(reply) {
                TurnView::Ask(next, request) => TurnView::Ask(
                    PriceLookupView::Convert { price, conversion: next },
                    request,
                ),
                TurnView::Done(converted) => TurnView::Done(
                    CoinGeckoPriceView { currency_price: price, coin_per_dollar: converted.ratio },
                ),
                TurnView::Failed(error) => TurnView::Failed(error),
            },
        }
    }
}

/// Begins the resolution of the price of the asset with display name `token`
/// in `currency`.
pub fn get_prices_for(token: &str, currency: &Currency) -> (t: (PriceLookup, Request))
    ensures
        t@ == price_lookup_start(token@, *currency),
{
    (
        PriceLookup::Registry { token: String::from_str(token), currency: *currency },
        ask_for_registry(),
    )
}

impl PriceLookup {
    /// Goes on with the resolution once the registry is loaded: asks for the
    /// asset's dollar price.
    pub fn quote(token: &str, currency: &Currency, tokens: TokenList) -> (t: Turn<
        PriceLookup,
        CoinGeckoPrice,
    >)
        ensures
            t@ == price_lookup_quote(token@, *currency, tokens@),
    {
        match create_request(None, token, &Currency::USD, &tokens) {
            Ok((query, request)) => Turn::Ask(
                PriceLookup::Quote { query, currency: *currency, tokens },
                request,
            ),
            Err(error) => Turn::Failed(error),
        }
    }

    /// Takes the reply to the request that is out and makes the next turn.
    pub fn advance(self, reply: Reply) -> (t: Turn<PriceLookup, CoinGeckoPrice>)
        ensures
            t@ == self@.step(reply@),
    {
        match self {
            PriceLookup::Registry { token, currency } => match reply {
                Reply::File(bytes) => PriceLookup::quote(
                    token.as_str(),
                    &currency,
                    TokenList::new(bytes.as_slice()),
                ),
                _ => Turn::Failed(PriceError::RegistryLoad),
            },
            PriceLookup::Quote { query, currency, tokens } => match query.finish(reply) {
                Ok(price) => match token_price_per_currency(
                    price.as_str(),
                    &currency,
                    Some(tokens),
                ) {
                    Ok((conversion, request)) => Turn::Ask(
                        PriceLookup::Convert { price, conversion },
                        request,
                    ),
                    Err(error) => Turn::Failed(error),
                },
                Err(error) => Turn::Failed(error),
            },
            PriceLookup::Convert { price, conversion } => match conversion.advance(reply) {
                Turn::Ask(next, request) => Turn::Ask(
                    PriceLookup::Convert { price, conversion: next },
                    request,
                ),
                Turn::Done(converted) => Turn::Done(
                    CoinGeckoPrice { currency_price: price, coin_per_dollar: converted.ratio },
                ),
                Turn::Failed(error) => Turn::Failed(error),
            },
        }
    }
}

/// The resolution of a pair's prices, under way.
#[derive(Debug, PartialEq, Eq)]
pub enum PairLookup {
    /// The subgraph was asked for the pair.
    Query { query: PairQuery, currency: Currency },
    /// The first token's price is being read as a number.
    First { pair: Pair, currency: Currency },
    /// The second token's price is being read as a number; the first read as
    /// `price0`.
    Second { pair: Pair, currency: Currency, price0: String },
    /// The first token's price is being converted; the second read as
    /// `price1`.
    ConvertFirst { pair: Pair, price1: String, conversion: Conversion },
    /// The second token's price is being converted; the first came to
    /// `per0`.
    ConvertSecond { pair: Pair, per0: String, conversion: Conversion },
}

/// The mathematical value of a [`PairLookup`].
pub enum PairLookupView {
    Query { query: PairQueryView, currency: Currency },
    First { pair: PairView, currency: Currency },
    Second { pair: PairView, currency: Currency, price0: Seq<char> },
    ConvertFirst { pair: PairView, price1: Seq<char>, conversion: ConversionView },
    ConvertSecond { pair: PairView, per0: Seq<char>, conversion: ConversionView },
}

impl View for PairLookup {
    type V = PairLookupView;

    open spec fn view(&self) -> PairLookupView {
        match *self {
            PairLookup::Query { query, currency } => PairLookupView::Query {
                query: query@,
                currency,
            },
            PairLookup::First { pair, currency } => PairLookupView::First { pair: pair@, currency },
            PairLookup::Second { pair, currency, price0 } => PairLookupView::Second {
                pair: pair@,
                currency,
                price0: price0@,
            },
            PairLookup::ConvertFirst { pair, price1, conversion } => PairLookupView::ConvertFirst {
                pair: pair@,
                price1: price1@,
                conversion: conversion@,
            },
            PairLookup::ConvertSecond { pair, per0, conversion } => PairLookupView::ConvertSecond {
                pair: pair@,
                per0: per0@,
                conversion: conversion@,
            },
        }
    }
}

/// How the resolution of the prices of the pair at `address` begins: with
/// the query to the subgraph of `version`.
pub open spec fn pair_lookup_start(
    address: Seq<char>,
    version: UniswapVersion,
    currency: Currency,
) -> Result<(PairLookupView, RequestView), PriceErrorView> {
    match pair_query_start(address, version) {
        Ok((query, request)) => Ok((PairLookupView::Query { query, currency }, request)),
        Err(error) => Err(error),
    }
}

/// The resolution's turn once both prices are read as numbers: the
/// conversion of the first begins, with no registry at hand.
pub open spec fn pair_lookup_convert_first(
    pair: PairView,
    price0: Seq<char>,
    price1: Seq<char>,
    currency: Currency,
) -> TurnView<PairLookupView, UniswapPairPriceView> {
    match conversion_start(price0, currency, None) {
        Ok((conversion, request)) => TurnView::Ask(
            PairLookupView::ConvertFirst { pair, price1, conversion },
            request,
        ),
        Err(error) => TurnView::Failed(error),
    }
}

/// The resolution's turn once the first price is converted: the conversion of
/// the second begins, with the registry that the first left, if it left one.
pub open spec fn pair_lookup_convert_second(
    pair: PairView,
    per0: Seq<char>,
    price1: Seq<char>,
    currency: Currency,
    tokens: Option<Seq<TokenView>>,
) -> TurnView<PairLookupView, UniswapPairPriceView> {
    match conversion_start(price1, currency, tokens) {
        Ok((conversion, request)) => TurnView::Ask(
            PairLookupView::ConvertSecond { pair, per0, conversion },
            request,
        ),
        Err(error) => TurnView::Failed(error),
    }
}

impl PairLookupView {
    /// The currency the prices are wanted in.
    pub open spec fn currency(self) -> Currency {
        match self {
            PairLookupView::Query { currency, .. } => currency,
            PairLookupView::First { currency, .. } => currency,
            PairLookupView::Second { currency, .. } => currency,
            PairLookupView::ConvertFirst { conversion, .. } => conversion.currency,
            PairLookupView::ConvertSecond { conversion, .. } => conversion.currency,
        }
    }

    /// The pair the resolution holds, once the subgraph has answered.
    pub open spec fn pair(self) -> Option<PairView> {
        match self {
            PairLookupView::Query { .. } => None,
            PairLookupView::First { pair, .. } => Some(pair),
            PairLookupView::Second { pair, .. } => Some(pair),
            PairLookupView::ConvertFirst { pair, .. } => Some(pair),
            PairLookupView::ConvertSecond { pair, .. } => Some(pair),
        }
    }

    /// The resolution's next turn on `reply`: the query runs to its end;
    /// the pair's two prices are read as numbers, the first one first; the
    /// two numbers are converted, the first one first; the result is
    /// [`priced`]. A price that does not read as a number, and any failure
    /// of the query or of a conversion, ends the resolution.
    pub open spec fn step(self, reply: ReplyView) -> TurnView<
        PairLookupView,
        UniswapPairPriceView,
    > {
        match self {
            PairLookupView::Query { query, currency } => match query.end(reply) {
                Ok(pair) => TurnView::Ask(
                    PairLookupView::First { pair, currency },
                    RequestView::Parse { text: pair.token0_price },
                ),
                Err(error) => TurnView::Failed(error),
            },
            PairLookupView::First { pair, currency } => match reply {
                ReplyView::Number(price0) => TurnView::Ask(
                    PairLookupView::Second { pair, currency, price0 },
                    RequestView::Parse { text: pair.token1_price },
                ),
                _ => TurnView::Failed(PriceErrorView::NumericParse { text: pair.token0_price }),
            },
            PairLookupView::Second { pair, currency, price0 } => match reply {
                ReplyView::Number(price1) => pair_lookup_convert_first(
                    pair,
                    price0,
                    price1,
                    currency,
                ),
                _ => TurnView::Failed(PriceErrorView::NumericParse { text: pair.token1_price }),
            },
            PairLookupView::ConvertFirst { pair, price1, conversion } => match conversion.step(
                reply,
            ) {
                TurnView::Ask(next, request) => TurnView::Ask(
                    PairLookupView::ConvertFirst { pair, price1, conversion: next },
                    request,
                ),
                TurnView::Done(converted) => pair_lookup_convert_second(
                    pair,
                    converted.ratio,
                    price1,
                    conversion.currency,
                    converted.tokens,
                ),
                TurnView::Failed(error) => TurnView::Failed(error),
            },
            PairLookupView::ConvertSecond { pair, per0, conversion } => match conversion.step(
                reply,
            ) {
                TurnView::Ask(next, request) => TurnView::Ask(
                    PairLookupView::ConvertSecond { pair, per0, conversion: next },
                    request,
                ),
                TurnView::Done(converted) => TurnView::Done(priced(pair, per0, converted.ratio)),
                TurnView::Failed(error) => TurnView::Failed(error),
            },
        }
    }
}

/// Begins the resolution of the prices of the pair at `pair_address`, as
/// the subgraph of `version_provider` knows it, in `currency`.
pub fn get_uniswap_prices_for(
    pair_address: &str,
    version_provider: UniswapVersion,
    currency: &Currency,
) -> (r: Result<(PairLookup, Request), PriceError>)
    ensures
        outcome(r) == pair_lookup_start(pair_address@, version_provider, *currency),
{
    match create_uniswap_request(pair_address, version_provider) {
        Ok((query, request)) => Ok((PairLookup::Query { query, currency: *currency }, request)),
        Err(error) => Err(error),
    }
}

impl PairLookup {
    /// Takes the reply to the request that is out and makes the next turn.
    pub fn advance(self, reply: Reply) -> (t: Turn<PairLookup, UniswapPairPrice>)
        ensures
            t@ == self@.step(reply@),
    {
        match self {
            PairLookup::Query { query, currency } => match query.finish(reply) {
                Ok(pair) => {
                    let text = pair.token0_price.clone();
                    Turn::Ask(PairLookup::First { pair, currency }, Request::Parse { text })
                },
                Err(error) => Turn::Failed(error),
            },
            PairLookup::First { pair, currency } => match reply {
                Reply::Number(price0) => {
                    let text = pair.token1_price.clone();
                    Turn::Ask(
                        PairLookup::Second { pair, currency, price0 },
                        Request::Parse { text },
                    )
                },
                _ => Turn::Failed(PriceError::NumericParse { text: pair.token0_price }),
            },
            PairLookup::Second { pair, currency, price0 } => match reply {
                Reply::Number(price1) => match token_price_per_currency(
                    price0.as_str(),
                    &currency,
                    None,
                ) {
                    Ok((conversion, request)) => Turn::Ask(
                        PairLookup::ConvertFirst { pair, price1, conversion },
                        request,
                    ),
                    Err(error) => Turn::Failed(error),
                },
                _ => Turn::Failed(PriceError::NumericParse { text: pair.token1_price }),
            },
            PairLookup::ConvertFirst { pair, price1, conversion } => {
                let currency = conversion.currency;
                match conversion.advance(reply) {
                    Turn::Ask(next, request) => Turn::Ask(
                        PairLookup::ConvertFirst { pair, price1, conversion: next },
                        request,
                    ),
                    Turn::Done(converted) => match token_price_per_currency(
                        price1.as_str(),
                        &currency,
                        converted.tokens,
                    ) {
                        Ok((conversion, request)) => Turn::Ask(
                            PairLookup::ConvertSecond { pair, per0: converted.ratio, conversion },
                            request,
                        ),
                        Err(error) => Turn::Failed(error),
                    },
                    Turn::Failed(error) => Turn::Failed(error),
                }
            },
            PairLookup::ConvertSecond { pair, per0, conversion } => match conversion.advance(
                reply,
            ) {
                Turn::Ask(next, request) => Turn::Ask(
                    PairLookup::ConvertSecond { pair, per0, conversion: next },
                    request,
                ),
                Turn::Done(converted) => Turn::Done(
                    UniswapPairPrice::assemble(pair, per0, converted.ratio),
                ),
                Turn::Failed(error) => Turn::Failed(error),
            },
        }
    }
}

/// The step of a single asset's resolution, as a function.
pub open spec fn price_steps() -> spec_fn(PriceLookupView, ReplyView) -> TurnView<
    PriceLookupView,
    CoinGeckoPriceView,
> {
    |state: PriceLookupView, reply: ReplyView| state.step(reply)
}

/// The step of a pair's resolution, as a function.
pub open spec fn pair_steps() -> spec_fn(PairLookupView, ReplyView) -> TurnView<
    PairLookupView,
    UniswapPairPriceView,
> {
    |state: PairLookupView, reply: ReplyView| state.step(reply)
}

/// A resolution in `EUR` stays one and gives no value at any step.
pub proof fn law_eur_step_gives_no_price(state: PriceLookupView, reply: ReplyView)
    requires
        state.currency() == Currency::EUR,
    ensures
        !(state.step(reply) is Done),
        state.step(reply) matches TurnView::Ask(next, _) ==> next.currency() == Currency::EUR,
{
}

/// The price of an asset in `EUR` is never resolved: whatever the asset and
/// whatever replies are handed in, the resolution does not end with a value.
pub proof fn law_no_price_in_eur(token: Seq<char>, replies: Seq<ReplyView>)
    ensures
        !(run(
            price_steps(),
            TurnView::Ask(
                price_lookup_start(token, Currency::EUR).0,
                price_lookup_start(token, Currency::EUR).1,
            ),
            replies,
        ) is Done),
{
    let (state, request) = price_lookup_start(token, Currency::EUR);
    lemma_eur_run_gives_no_price(state, request, replies);
}

/// From any state of a resolution in `EUR`, no replies lead to a value.
pub proof fn lemma_eur_run_gives_no_price(
    state: PriceLookupView,
    request: RequestView,
    replies: Seq<ReplyView>,
)
    requires
        state.currency() == Currency::EUR,
    ensures
        !(run(price_steps(), TurnView::Ask(state, request), replies) is Done),
    decreases replies.len(),
{
    if replies.len() > 0 {
        law_eur_step_gives_no_price(state, replies[0]);
        match state.step(replies[0]) {
            TurnView::Ask(next, asked) => {
                lemma_eur_run_gives_no_price(next, asked, replies.drop_first());
            },
            TurnView::Done(_) => {},
            TurnView::Failed(error) => {
                lemma_failed_run_stays_failed(price_steps(), error, replies.drop_first());
            },
        }
    }
}

/// A pair's resolution in `EUR` stays one and gives no value at any step.
pub proof fn law_eur_step_gives_no_pair_price(state: PairLookupView, reply: ReplyView)
    requires
        state.currency() == Currency::EUR,
    ensures
        !(state.step(reply) is Done),
        state.step(reply) matches TurnView::Ask(next, _) ==> next.currency() == Currency::EUR,
{
}

/// The prices of a pair in `EUR` are never resolved: from any state of such
/// a resolution, no replies lead to a value.
pub proof fn law_no_pair_price_in_eur(
    state: PairLookupView,
    request: RequestView,
    replies: Seq<ReplyView>,
)
    requires
        state.currency() == Currency::EUR,
    ensures
        !(run(pair_steps(), TurnView::Ask(state, request), replies) is Done),
    decreases replies.len(),
{
    if replies.len() > 0 {
        law_eur_step_gives_no_pair_price(state, replies[0]);
        match state.step(replies[0]) {
            TurnView::Ask(next, asked) => {
                law_no_pair_price_in_eur(next, asked, replies.drop_first());
            },
            TurnView::Done(_) => {},
            TurnView::Failed(error) => {
                lemma_failed_run_stays_failed(pair_steps(), error, replies.drop_first());
            },
        }
    }
}

/// A resolution that has failed stays failed, whatever is handed in.
pub proof fn lemma_failed_run_stays_failed<S, T>(
    step: spec_fn(S, ReplyView) -> TurnView<S, T>,
    error: PriceErrorView,
    replies: Seq<ReplyView>,
)
    ensures
        run(step, TurnView::Failed(error), replies) == TurnView::<S, T>::Failed(error),
{
}

/// Where the asset is known and its dollar price is quoted, a resolution in
/// `EUR` ends as unimplemented, and does so before any arithmetic is asked
/// for.
pub proof fn law_known_asset_in_eur_is_unimplemented(
    token: Seq<char>,
    registry: Seq<u8>,
    id: Seq<char>,
    status: u16,
    answer: Json,
    price: Seq<char>,
)
    requires
        is_success(status),
        resolve(tokens_of(csv_records(registry)), token) == Ok::<Seq<char>, PriceErrorView>(id),
        quote_of(answer, id, Currency::USD) == Ok::<Seq<char>, PriceErrorView>(price),
    ensures
        ({
            let (s0, r0) = price_lookup_start(token, Currency::EUR);
            &&& r0 == registry_request()
            &&& s0.step(ReplyView::File(registry)) matches TurnView::Ask(s1, r1)
            &&& r1 == RequestView::Get { url: price_url(id, Currency::USD.code()) }
            &&& s1.step(answer_with(status, answer)) == TurnView::<
                PriceLookupView,
                CoinGeckoPriceView,
            >::Failed(PriceErrorView::UnimplementedCurrency)
        }),
{
}

/// A price in `USD` is the quoted price beside its reciprocal: where the
/// asset is known and its dollar price is quoted, the resolution asks for
/// the registry, for the quote and for one divided by the quoted price, in
/// this order, and its result holds the quoted price and the number that
/// came back for the reciprocal.
pub proof fn law_price_in_usd_is_inverted(
    token: Seq<char>,
    registry: Seq<u8>,
    id: Seq<char>,
    status: u16,
    answer: Json,
    price: Seq<char>,
    ratio: Seq<char>,
)
    requires
        is_success(status),
        resolve(tokens_of(csv_records(registry)), token) == Ok::<Seq<char>, PriceErrorView>(id),
        quote_of(answer, id, Currency::USD) == Ok::<Seq<char>, PriceErrorView>(price),
    ensures
        ({
            let (s0, r0) = price_lookup_start(token, Currency::USD);
            &&& r0 == registry_request()
            &&& s0.step(ReplyView::File(registry)) matches TurnView::Ask(s1, r1)
            &&& r1 == RequestView::Get { url: price_url(id, Currency::USD.code()) }
            &&& s1.step(answer_with(status, answer)) matches TurnView::Ask(s2, r2)
            &&& r2 == RequestView::Reciprocal { price }
            &&& s2.step(ReplyView::Number(ratio)) == TurnView::<
                PriceLookupView,
                CoinGeckoPriceView,
            >::Done(CoinGeckoPriceView { currency_price: price, coin_per_dollar: ratio })
        }),
{
}

/// A price in `ETH` or `BTC` is the quoted price beside its quotient by the
/// reference coin's: after the asset's quote the resolution has the coin
/// quoted in dollars, with one more request and no other, found in the
/// registry that is loaded already; it asks for the asset's price divided by
/// the coin's, and its result holds the asset's quoted price and the number
/// that came back for the quotient.
pub proof fn law_price_in_coin_is_divided(
    token: Seq<char>,
    currency: Currency,
    registry: Seq<u8>,
    id: Seq<char>,
    status: u16,
    answer: Json,
    price: Seq<char>,
    coin_id: Seq<char>,
    coin_status: u16,
    coin_answer: Json,
    by: Seq<char>,
    ratio: Seq<char>,
)
    requires
        is_success(status),
        is_success(coin_status),
        currency == Currency::ETH || currency == Currency::BTC,
        resolve(tokens_of(csv_records(registry)), token) == Ok::<Seq<char>, PriceErrorView>(id),
        quote_of(answer, id, Currency::USD) == Ok::<Seq<char>, PriceErrorView>(price),
        resolve(tokens_of(csv_records(registry)), reference_coin(currency)->0) == Ok::<
            Seq<char>,
            PriceErrorView,
        >(coin_id),
        quote_of(coin_answer, coin_id, Currency::USD) == Ok::<Seq<char>, PriceErrorView>(by),
    ensures
        ({
            let (s0, r0) = price_lookup_start(token, currency);
            &&& r0 == registry_request()
            &&& s0.step(ReplyView::File(registry)) matches TurnView::Ask(s1, r1)
            &&& r1 == RequestView::Get { url: price_url(id, Currency::USD.code()) }
            &&& s1.step(answer_with(status, answer)) matches TurnView::Ask(s2, r2)
            &&& r2 == RequestView::Get { url: price_url(coin_id, Currency::USD.code()) }
            &&& s2.step(answer_with(coin_status, coin_answer)) matches TurnView::Ask(s3, r3)
            &&& r3 == RequestView::Divide { price, by }
            &&& s3.step(ReplyView::Number(ratio)) == TurnView::<
                PriceLookupView,
                CoinGeckoPriceView,
            >::Done(CoinGeckoPriceView { currency_price: price, coin_per_dollar: ratio })
        }),
{
}

/// A resolution that holds a pair keeps it, and a result is that pair's: its
/// id, its tokens and its two price strings stand in the result as the
/// subgraph gave them, whatever was handed in for the numbers.
pub proof fn law_pair_step_keeps_the_pair(state: PairLookupView, reply: ReplyView)
    requires
        state.pair() is Some,
    ensures
        state.step(reply) matches TurnView::Ask(next, _) ==> next.pair() == state.pair(),
        state.step(reply) matches TurnView::Done(result) ==> {
            &&& result.pair == state.pair()->0.id
            &&& result.token0 == state.pair()->0.token0
            &&& result.token1 == state.pair()->0.token1
            &&& result.token0_price == state.pair()->0.token0_price
            &&& result.token1_price == state.pair()->0.token1_price
        },
{
}

/// The price strings of a result are those of the pair, however the
/// resolution went on from the subgraph's answer: no reply to a request for
/// a number reaches them.
pub proof fn law_pair_prices_are_kept(
    state: PairLookupView,
    request: RequestView,
    replies: Seq<ReplyView>,
)
    requires
        state.pair() is Some,
    ensures
        run(pair_steps(), TurnView::Ask(state, request), replies) matches TurnView::Done(result)
            ==> result.token0_price == state.pair()->0.token0_price && result.token1_price
            == state.pair()->0.token1_price,
    decreases replies.len(),
{
    if replies.len() > 0 {
        law_pair_step_keeps_the_pair(state, replies[0]);
        match state.step(replies[0]) {
            TurnView::Ask(next, asked) => {
                law_pair_prices_are_kept(next, asked, replies.drop_first());
            },
            TurnView::Done(result) => {
                lemma_done_run_stays_done(pair_steps(), result, replies.drop_first());
            },
            TurnView::Failed(error) => {
                lemma_failed_run_stays_failed(pair_steps(), error, replies.drop_first());
            },
        }
    }
}

/// A resolution that has ended with a value keeps it, whatever is handed in.
pub proof fn lemma_done_run_stays_done<S, T>(
    step: spec_fn(S, ReplyView) -> TurnView<S, T>,
    value: T,
    replies: Seq<ReplyView>,
)
    ensures
        run(step, TurnView::Done(value), replies) == TurnView::<S, T>::Done(value),
{
}

/// The pair a resolution holds is the one the subgraph's answer describes.
pub proof fn law_pair_is_the_answered_one(
    address: Seq<char>,
    version: UniswapVersion,
    currency: Currency,
    status: u16,
    answer: Json,
)
    requires
        is_success(status),
        response_of(answer, version) is Some,
    ensures
        ({
            let state = PairLookupView::Query {
                query: PairQueryView { pair_address: address, version },
                currency,
            };
            &&& state.step(answer_with(status, answer)) matches TurnView::Ask(next, asked)
            &&& next.pair() == Some(response_of(answer, version)->0.pair())
            &&& asked == RequestView::Parse {
                text: response_of(answer, version)->0.pair().token0_price,
            }
        }),
{
}

/// The price strings of a result are those of the subgraph's answer: however
/// the resolution goes on from a query that was answered, whatever is handed
/// in for the numbers and for the reference coin, a result holds the two
/// strings as the answer gave them.
pub proof fn law_answered_prices_reach_the_result(
    address: Seq<char>,
    version: UniswapVersion,
    currency: Currency,
    request: RequestView,
    status: u16,
    answer: Json,
    replies: Seq<ReplyView>,
)
    requires
        is_success(status),
        response_of(answer, version) is Some,
    ensures
        ({
            let pair = response_of(answer, version)->0.pair();
            let state = PairLookupView::Query {
                query: PairQueryView { pair_address: address, version },
                currency,
            };
            run(
                pair_steps(),
                TurnView::Ask(state, request),
                seq![answer_with(status, answer)] + replies,
            ) matches TurnView::Done(result) ==> result.token0_price == pair.token0_price
                && result.token1_price == pair.token1_price
        }),
{
    let state = PairLookupView::Query {
        query: PairQueryView { pair_address: address, version },
        currency,
    };
    let all = seq![answer_with(status, answer)] + replies;
    assert(all.drop_first() =~= replies);
    law_pair_is_the_answered_one(address, version, currency, status, answer);
    match state.step(answer_with(status, answer)) {
        TurnView::Ask(next, asked) => {
            law_pair_prices_are_kept(next, asked, replies);
        },
        _ => {},
    }
}

/// A pair's prices in `USD` are each beside its reciprocal: once the
/// subgraph has answered, the resolution has the two price strings read as
/// numbers, asks for one divided by each number, the first token's first,
/// and its result is the pair with the two numbers that came back.
pub proof fn law_pair_in_usd_is_inverted(
    address: Seq<char>,
    version: UniswapVersion,
    status: u16,
    answer: Json,
    number0: Seq<char>,
    number1: Seq<char>,
    per0: Seq<char>,
    per1: Seq<char>,
)
    requires
        is_success(status),
        response_of(answer, version) is Some,
    ensures
        ({
            let pair = response_of(answer, version)->0.pair();
            let s0 = PairLookupView::Query {
                query: PairQueryView { pair_address: address, version },
                currency: Currency::USD,
            };
            &&& s0.step(answer_with(status, answer)) matches TurnView::Ask(s1, r1)
            &&& r1 == RequestView::Parse { text: pair.token0_price }
            &&& s1.step(ReplyView::Number(number0)) matches TurnView::Ask(s2, r2)
            &&& r2 == RequestView::Parse { text: pair.token1_price }
            &&& s2.step(ReplyView::Number(number1)) matches TurnView::Ask(s3, r3)
            &&& r3 == RequestView::Reciprocal { price: number0 }
            &&& s3.step(ReplyView::Number(per0)) matches TurnView::Ask(s4, r4)
            &&& r4 == RequestView::Reciprocal { price: number1 }
            &&& s4.step(ReplyView::Number(per1)) == TurnView::<
                PairLookupView,
                UniswapPairPriceView,
            >::Done(priced(pair, per0, per1))
        }),
{
}

/// A pair's prices in `ETH` or `BTC` are each beside its quotient by the
/// reference coin's price: once both price strings are read as numbers, the
/// resolution loads the registry, once; for each token, the first one first,
/// it has the coin quoted in dollars anew and asks for the token's number
/// divided by that quote; its result is the pair with the two numbers that
/// came back.
pub proof fn law_pair_in_coin_is_divided(
    address: Seq<char>,
    version: UniswapVersion,
    currency: Currency,
    status: u16,
    answer: Json,
    number0: Seq<char>,
    number1: Seq<char>,
    registry: Seq<u8>,
    coin_id: Seq<char>,
    status0: u16,
    answer0: Json,
    by0: Seq<char>,
    per0: Seq<char>,
    status1: u16,
    answer1: Json,
    by1: Seq<char>,
    per1: Seq<char>,
)
    requires
        is_success(status),
        is_success(status0),
        is_success(status1),
        currency == Currency::ETH || currency == Currency::BTC,
        response_of(answer, version) is Some,
        resolve(tokens_of(csv_records(registry)), reference_coin(currency)->0) == Ok::<
            Seq<char>,
            PriceErrorView,
        >(coin_id),
        quote_of(answer0, coin_id, Currency::USD) == Ok::<Seq<char>, PriceErrorView>(by0),
        quote_of(answer1, coin_id, Currency::USD) == Ok::<Seq<char>, PriceErrorView>(by1),
    ensures
        ({
            let pair = response_of(answer, version)->0.pair();
            let coin_url = price_url(coin_id, Currency::USD.code());
            let s0 = PairLookupView::Query {
                query: PairQueryView { pair_address: address, version },
                currency,
            };
            &&& s0.step(answer_with(status, answer)) matches TurnView::Ask(s1, r1)
            &&& r1 == RequestView::Parse { text: pair.token0_price }
            &&& s1.step(ReplyView::Number(number0)) matches TurnView::Ask(s2, r2)
            &&& r2 == RequestView::Parse { text: pair.token1_price }
            &&& s2.step(ReplyView::Number(number1)) matches TurnView::Ask(s3, r3)
            &&& r3 == registry_request()
            &&& s3.step(ReplyView::File(registry)) matches TurnView::Ask(s4, r4)
            &&& r4 == RequestView::Get { url: coin_url }
            &&& s4.step(answer_with(status0, answer0)) matches TurnView::Ask(s5, r5)
            &&& r5 == RequestView::Divide { price: number0, by: by0 }
            &&& s5.step(ReplyView::Number(per0)) matches TurnView::Ask(s6, r6)
            &&& r6 == RequestView::Get { url: coin_url }
            &&& s6.step(answer_with(status1, answer1)) matches TurnView::Ask(s7, r7)
            &&& r7 == RequestView::Divide { price: number1, by: by1 }
            &&& s7.step(ReplyView::Number(per1)) == TurnView::<
                PairLookupView,
                UniswapPairPriceView,
            >::Done(priced(pair, per0, per1))
        }),
{
}

} // verus!
