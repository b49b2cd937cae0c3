//! The spot-price source: the registry of assets, what is asked of the
//! endpoint, how its answer is read, and how a dollar price is converted.

use vstd::prelude::*;
use vstd::string::*;
use crate::currency::Currency;
use crate::error::{maybe, outcome, Fault, PriceError, PriceErrorView, Upstream};
use crate::exchange::{
    answered, begun, Reply, ReplyView, Request, RequestView, Turn, TurnView,
};
use crate::json::Json;
use crate::text::{
    eq_ignoring_case, first_at, lemma_first_at_absent, lemma_first_at_found, same_ignoring_case,
};

verus! {

/// One asset of the registry: the id under which the price source knows it,
/// its ticker symbol and its display name.
#[derive(Debug, PartialEq, Eq)]
pub struct Token {
    pub id: String,
    pub symbol: String,
    pub name: String,
}

/// The mathematical value of a [`Token`].
pub struct TokenView {
    pub id: Seq<char>,
    pub symbol: Seq<char>,
    pub name: Seq<char>,
}

impl View for Token {
    type V = TokenView;

    open spec fn view(&self) -> TokenView {
        TokenView { id: self.id@, symbol: self.symbol@, name: self.name@ }
    }
}

/// The registry: the assets in the order of the file they were loaded from.
#[derive(Debug, PartialEq, Eq)]
pub struct TokenList(pub Vec<Token>);

/// The mathematical values of a run of assets.
pub open spec fn views_of(tokens: Seq<Token>) -> Seq<TokenView> {
    Seq::new(tokens.len(), |i: int| tokens[i]@)
}

impl View for TokenList {
    type V = Seq<TokenView>;

    open spec fn view(&self) -> Seq<TokenView> {
        views_of(self.0@)
    }
}

/// The records that csv's reader yields for `data`, the first line included,
/// in order; `None` stands for a record that the reader gave as an error.
pub uninterp spec fn csv_records(data: Seq<u8>) -> Seq<Option<Seq<Seq<char>>>>;

/// Reads `data` as comma-separated records with `csv::ReaderBuilder`
/// (`has_headers(false)`, `from_reader`) and `csv::Reader::records`.
///
/// The contract only gives the outcome its name: the same bytes always give
/// the same records. Each record comes back as its fields, copied one for
/// one; a record for which the reader returns an error (text that is not
/// UTF-8, or a number of fields other than the first record's) comes back as
/// `None`, and reading goes on behind it.
#[verifier::external_body]
pub(crate) fn read_records(data: &[u8]) -> (rows: Vec<Option<Vec<String>>>)
    ensures
        rows.deep_view() == csv_records(data@),
{
    let mut reader = csv::ReaderBuilder::new().has_headers(false).from_reader(data);
    reader
        .records()
        .map(|row| row.ok().map(|cells| cells.iter().map(String::from).collect()))
        .collect()
}

/// Whether column `i` of `header` is titled `title`, the case of ASCII
/// letters aside.
pub open spec fn titled(header: Seq<Seq<char>>, title: Seq<char>, i: int) -> bool {
    0 <= i < header.len() && same_ignoring_case(header[i], title)
}

/// Whether `i` is the one column of `header` titled `title`.
pub open spec fn is_column(header: Seq<Seq<char>>, title: Seq<char>, i: int) -> bool {
    titled(header, title, i) && forall|j: int| #[trigger] titled(header, title, j) ==> j == i
}

/// The column of `header` titled `title`, where exactly one is.
pub open spec fn column(header: Seq<Seq<char>>, title: Seq<char>) -> Option<int> {
    if exists|i: int| is_column(header, title, i) {
        Some(choose|i: int| is_column(header, title, i))
    } else {
        None
    }
}

/// The cell of a row in column `at`, where the row reaches that far.
pub open spec fn cell(cells: Seq<Seq<char>>, at: Option<int>) -> Option<Seq<char>> {
    match at {
        Some(i) => if 0 <= i < cells.len() {
            Some(cells[i])
        } else {
            None
        },
        None => None,
    }
}

/// The asset whose id, symbol and name are the cells of a row in the three
/// given columns. Nothing where the row lacks one of them.
pub open spec fn token_at(
    cells: Seq<Seq<char>>,
    id_at: Option<int>,
    symbol_at: Option<int>,
    name_at: Option<int>,
) -> Option<TokenView> {
    let id = cell(cells, id_at);
    let symbol = cell(cells, symbol_at);
    let name = cell(cells, name_at);
    if id is Some && symbol is Some && name is Some {
        Some(TokenView { id: id->0, symbol: symbol->0, name: name->0 })
    } else {
        None
    }
}

/// The asset that a row describes under `header`: its cells in the columns
/// titled `id`, `symbol` and `name`. Nothing for a row that the reader
/// rejected or that lacks one of the three.
pub open spec fn token_of(header: Seq<Seq<char>>, row: Option<Seq<Seq<char>>>) -> Option<
    TokenView,
> {
    match row {
        Some(cells) => token_at(
            cells,
            column(header, "id"@),
            column(header, "symbol"@),
            column(header, "name"@),
        ),
        None => None,
    }
}

/// The index of a column as a mathematical integer.
pub open spec fn place(column: Option<usize>) -> Option<int> {
    match column {
        Some(i) => Some(i as int),
        None => None,
    }
}

/// [`token_of`] under a fixed header, as a function of the row.
pub open spec fn row_reader(header: Seq<Seq<char>>) -> spec_fn(Option<Seq<Seq<char>>>) -> Option<
    TokenView,
> {
    |row: Option<Seq<Seq<char>>>| token_of(header, row)
}

/// The assets of a table whose first record is the header: one for each
/// later record that describes one, in order. A table without a readable
/// header holds none.
pub open spec fn tokens_of(rows: Seq<Option<Seq<Seq<char>>>>) -> Seq<TokenView> {
    if rows.len() == 0 {
        Seq::empty()
    } else {
        match rows[0] {
            Some(header) => rows.subrange(1, rows.len() as int).filter_map(row_reader(header)),
            None => Seq::empty(),
        }
    }
}

/// The display names of the assets, in order.
pub open spec fn names_of(tokens: Seq<TokenView>) -> Seq<Seq<char>> {
    Seq::new(tokens.len(), |i: int| tokens[i].name)
}

/// The id of the first asset whose display name is exactly `name`, or the
/// error that names what was not found.
pub open spec fn resolve(tokens: Seq<TokenView>, name: Seq<char>) -> Result<
    Seq<char>,
    PriceErrorView,
> {
    match first_at(names_of(tokens), name) {
        Some(i) => Ok(tokens[i].id),
        None => Err(PriceErrorView::AssetNotFound { name }),
    }
}

/// Finds the one column of `header` titled `title`.
pub fn find_column(header: &Vec<String>, title: &str) -> (r: Option<usize>)
    ensures
        place(r) == column(header.deep_view(), title@),
{
    let ghost titles = header.deep_view();
    let n: usize = header.len();
    let mut found: Option<usize> = None;
    let mut i: usize = 0;
    while i < n
        invariant
            i <= n,
            n == header@.len(),
            titles == header.deep_view(),
            match found {
                Some(k) => k < i && titled(titles, title@, k as int) && forall|j: int|
                    0 <= j < i && #[trigger] titled(titles, title@, j) ==> j == k,
                None => forall|j: int| 0 <= j < i ==> !#[trigger] titled(titles, title@, j),
            },
        decreases n - i,
    {
        if eq_ignoring_case(header[i].as_str(), title) {
            match found {
                Some(k) => {
                    assert(titled(titles, title@, i as int));
                    return None;
                },
                None => {
                    found = Some(i);
                },
            }
        }
        i += 1;
    }
    assert(found matches Some(k) ==> is_column(titles, title@, k as int));
    found
}

/// A copy of the cell of `cells` in column `at`.
pub fn pick(cells: &Vec<String>, at: Option<usize>) -> (r: Option<String>)
    ensures
        r.deep_view() == cell(cells.deep_view(), place(at)),
{
    match at {
        Some(i) => if i < cells.len() {
            Some(cells[i].clone())
        } else {
            None
        },
        None => None,
    }
}

impl Token {
    /// Reads the asset that `cells` describes, given the columns in which
    /// the id, the symbol and the name stand.
    pub fn from_row(
        cells: &Vec<String>,
        id_at: Option<usize>,
        symbol_at: Option<usize>,
        name_at: Option<usize>,
    ) -> (r: Option<Token>)
        ensures
            maybe(r) == token_at(
                cells.deep_view(),
                place(id_at),
                place(symbol_at),
                place(name_at),
            ),
    {
        let id = match pick(cells, id_at) {
            Some(id) => id,
            None => { return None; },
        };
        let symbol = match pick(cells, symbol_at) {
            Some(symbol) => symbol,
            None => { return None; },
        };
        let name = match pick(cells, name_at) {
            Some(name) => name,
            None => { return None; },
        };
        Some(Token { id, symbol, name })
    }
}

impl TokenList {
    /// Builds the registry from the records of its file, the header first.
    /// A record that describes no asset is passed over; the others keep
    /// their order.
    pub fn from_rows(rows: Vec<Option<Vec<String>>>) -> (list: TokenList)
        ensures
            list@ == tokens_of(rows.deep_view()),
    {
        let mut tokens: Vec<Token> = Vec::new();
        let n: usize = rows.len();
        if n == 0 {
            return TokenList(tokens);
        }
        let ghost table = rows.deep_view();
        let first = &rows[0];
        match first {
            None => TokenList(tokens),
            Some(header) => {
                let ghost titles = header.deep_view();
                let id_at = find_column(header, "id");
                let symbol_at = find_column(header, "symbol");
                let name_at = find_column(header, "name");
                let mut i: usize = 1;
                while i < n
                    invariant
                        1 <= i <= n,
                        n == rows@.len(),
                        table == rows.deep_view(),
                        place(id_at) == column(titles, "id"@),
                        place(symbol_at) == column(titles, "symbol"@),
                        place(name_at) == column(titles, "name"@),
                        views_of(tokens@) == table.subrange(1, i as int).filter_map(
                            row_reader(titles),
                        ),
                    decreases n - i,
                {
                    assert(table.subrange(1, i + 1).drop_last() =~= table.subrange(1, i as int));
                    let row = &rows[i];
                    match row {
                        Some(cells) => {
                            match Token::from_row(cells, id_at, symbol_at, name_at) {
                                Some(token) => {
                                    tokens.push(token);
                                },
                                None => {},
                            }
                        },
                        None => {},
                    }
                    i += 1;
                }
                TokenList(tokens)
            },
        }
    }

    /// Loads the registry from the bytes of its file: comma-separated
    /// records under a header that titles the columns `id`, `symbol` and
    /// `name`, in any order and any case. A malformed record is passed over.
    pub fn new(data: &[u8]) -> (list: TokenList)
        ensures
            list@ == tokens_of(csv_records(data@)),
    {
        TokenList::from_rows(read_records(data))
    }

    /// The id of the asset whose display name is exactly `token`; the first
    /// one, where several carry the name.
    pub fn get_token_id(&self, token: &str) -> (r: Result<String, PriceError>)
        ensures
            outcome(r) == resolve(self@, token@),
    {
        let wanted = String::from_str(token);
        let n: usize = self.0.len();
        let mut i: usize = 0;
        while i < n
            invariant
                i <= n,
                n == self.0@.len(),
                wanted@ == token@,
                forall|j: int| 0 <= j < i ==> #[trigger] names_of(self@)[j] != token@,
            decreases n - i,
        {
            if self.0[i].name == wanted {
                proof {
                    lemma_first_at_found(names_of(self@), token@, i as int);
                }
                return Ok(self.0[i].id.clone());
            }
            i += 1;
        }
        proof {
            lemma_first_at_absent(names_of(self@), token@);
        }
        Err(PriceError::AssetNotFound { name: wanted })
    }
}

/// A name that stands once in the registry resolves to the id beside it.
pub proof fn law_unique_name_resolves(tokens: Seq<TokenView>, name: Seq<char>, i: int)
    requires
        0 <= i < tokens.len(),
        tokens[i].name == name,
        forall|j: int| 0 <= j < tokens.len() && j != i ==> (#[trigger] tokens[j]).name != name,
    ensures
        resolve(tokens, name) == Ok::<Seq<char>, PriceErrorView>(tokens[i].id),
{
    lemma_first_at_found(names_of(tokens), name, i);
}

/// A name that stands nowhere in the registry resolves to no id, not even an
/// empty one: the lookup fails and says which name was asked for.
pub proof fn law_absent_name_is_not_found(tokens: Seq<TokenView>, name: Seq<char>)
    requires
        forall|j: int| 0 <= j < tokens.len() ==> (#[trigger] tokens[j]).name != name,
    ensures
        resolve(tokens, name) == Err::<Seq<char>, PriceErrorView>(
            PriceErrorView::AssetNotFound { name },
        ),
{
    lemma_first_at_absent(names_of(tokens), name);
}

/// What a record adds to a table does not depend on the records before it: a
/// record that describes no asset leaves the registry as it was, whatever
/// surrounds it, and one that describes an asset adds that asset at the end.
pub proof fn law_each_record_counts_alone(
    rows: Seq<Option<Seq<Seq<char>>>>,
    row: Option<Seq<Seq<char>>>,
)
    requires
        rows.len() > 0,
        rows[0] is Some,
    ensures
        tokens_of(rows.push(row)) == match token_of(rows[0]->0, row) {
            Some(token) => tokens_of(rows).push(token),
            None => tokens_of(rows),
        },
{
    let longer = rows.push(row);
    assert(longer.subrange(1, longer.len() as int).drop_last() =~= rows.subrange(
        1,
        rows.len() as int,
    ));
}

/// Where the registry file lies, relative to the working directory.
pub const REGISTRY_PATH: &'static str = "CoinGecko_Token_API_List.csv";

/// The address that quotes the asset `id` in the currency with code `code`.
pub open spec fn price_url(id: Seq<char>, code: Seq<char>) -> Seq<char> {
    "https://api.coingecko.com/api/v3/simple/price?ids="@ + id + "&vs_currencies="@ + code
}

/// The address that quotes the contract at `address` on `chain` in the
/// currency with code `code`.
pub open spec fn contract_price_url(chain: Seq<char>, address: Seq<char>, code: Seq<char>) -> Seq<
    char,
> {
    "https://api.coingecko.com/api/v3/simple/token_price/"@ + chain + "?contract_addresses="@
        + address + "&vs_currencies="@ + code
}

/// The error of a quote about `id` that ended with `fault`.
pub open spec fn spot_error(id: Seq<char>, fault: Fault) -> PriceErrorView {
    PriceErrorView::Source { upstream: Upstream::SpotPrice, id, fault }
}

/// The price that `document` quotes for `key` in `currency`: the decimal text
/// of the number that stands under the currency's code, in the object that
/// stands under `key`. A document without it is malformed. No price is read
/// in `EUR`.
pub open spec fn quote_of(document: Json, key: Seq<char>, currency: Currency) -> Result<
    Seq<char>,
    PriceErrorView,
> {
    if currency == Currency::EUR {
        Err(PriceErrorView::UnimplementedCurrency)
    } else {
        match document.field(key) {
            Some(entry) => match entry.field(currency.code()) {
                Some(value) => match value.number() {
                    Some(price) => Ok(price),
                    None => Err(spot_error(key, Fault::Malformed)),
                },
                None => Err(spot_error(key, Fault::Malformed)),
            },
            None => Err(spot_error(key, Fault::Malformed)),
        }
    }
}

/// Reads from the answer `value` the price of `token_id` in `currency`.
pub fn get_currency_value(value: &Json, token_id: &str, currency: &Currency) -> (r: Result<
    String,
    PriceError,
>)
    ensures
        outcome(r) == quote_of(*value, token_id@, *currency),
{
    match currency {
        Currency::EUR => { return Err(PriceError::UnimplementedCurrency); },
        _ => {},
    }
    let code = currency.to_string();
    let found = match value.get(token_id) {
        Some(entry) => match entry.get(code.as_str()) {
            Some(number) => number.as_number(),
            None => None,
        },
        None => None,
    };
    match found {
        Some(price) => Ok(price.clone()),
        None => Err(
            PriceError::Source {
                upstream: Upstream::SpotPrice,
                id: String::from_str(token_id),
                fault: Fault::Malformed,
            },
        ),
    }
}

/// Writes the address that quotes the asset `id` in `currency`.
pub fn write_price_url(id: &str, currency: &Currency) -> (url: String)
    ensures
        url@ == price_url(id@, currency.code()),
{
    let code = currency.to_string();
    let mut url = String::from_str("https://api.coingecko.com/api/v3/simple/price?ids=");
    url.append(id);
    url.append("&vs_currencies=");
    url.append(code.as_str());
    url
}

/// Writes the address that quotes the contract at `address` on `chain` in
/// `currency`.
pub fn write_contract_price_url(chain: &str, address: &str, currency: &Currency) -> (url: String)
    ensures
        url@ == contract_price_url(chain@, address@, currency.code()),
{
    let code = currency.to_string();
    let mut url = String::from_str("https://api.coingecko.com/api/v3/simple/token_price/");
    url.append(chain);
    url.append("?contract_addresses=");
    url.append(address);
    url.append("&vs_currencies=");
    url.append(code.as_str());
    url
}

/// The request for the registry file.
pub open spec fn registry_request() -> RequestView {
    RequestView::ReadFile { path: REGISTRY_PATH@ }
}

/// Asks for the registry file.
pub fn ask_for_registry() -> (request: Request)
    ensures
        request@ == registry_request(),
{
    Request::ReadFile { path: String::from_str(REGISTRY_PATH) }
}

/// A quote that was asked of the endpoint and waits for its answer: the
/// answer will hold the price under `key`, in `currency`.
#[derive(Debug, PartialEq, Eq)]
pub struct SpotQuery {
    pub key: String,
    pub currency: Currency,
}

/// The mathematical value of a [`SpotQuery`].
pub struct SpotQueryView {
    pub key: Seq<char>,
    pub currency: Currency,
}

impl View for SpotQuery {
    type V = SpotQueryView;

    open spec fn view(&self) -> SpotQueryView {
        SpotQueryView { key: self.key@, currency: self.currency }
    }
}

/// How the quote of `token` in `currency` begins, given the registry. Without
/// a chain, `token` is a display name: it is resolved in the registry, and
/// the endpoint is asked about the id found; a name that is not found ends
/// the quote before anything is asked. With a chain, `token` is a contract
/// address on it, and the endpoint is asked about the address as it is.
pub open spec fn spot_start(
    chain: Option<Seq<char>>,
    token: Seq<char>,
    currency: Currency,
    tokens: Seq<TokenView>,
) -> Result<(SpotQueryView, RequestView), PriceErrorView> {
    match chain {
        None => match resolve(tokens, token) {
            Ok(id) => Ok(
                (
                    SpotQueryView { key: id, currency },
                    RequestView::Get { url: price_url(id, currency.code()) },
                ),
            ),
            Err(error) => Err(error),
        },
        Some(chain) => Ok(
            (
                SpotQueryView { key: token, currency },
                RequestView::Get { url: contract_price_url(chain, token, currency.code()) },
            ),
        ),
    }
}

impl SpotQueryView {
    /// How the quote ends on `reply`: the document of a successful answer
    /// ends it as [`quote_of`] reads it, and any other reply ends it with the
    /// fault that [`answered`] finds.
    pub open spec fn end(self, reply: ReplyView) -> Result<Seq<char>, PriceErrorView> {
        match answered(reply) {
            Ok(document) => quote_of(document, self.key, self.currency),
            Err(fault) => Err(spot_error(self.key, fault)),
        }
    }
}

/// Begins the quote of `token` in `currency`: asks the endpoint for it. With
/// a `chain_type`, `token` is a contract address on that chain; without, it
/// is a display name, to be found in `tokens`.
pub fn create_request(
    chain_type: Option<&str>,
    token: &str,
    currency: &Currency,
    tokens: &TokenList,
) -> (r: Result<(SpotQuery, Request), PriceError>)
    ensures
        outcome(r) == spot_start(chain_type.deep_view(), token@, *currency, tokens@),
{
    match chain_type {
        None => match tokens.get_token_id(token) {
            Ok(id) => {
                let url = write_price_url(id.as_str(), currency);
                Ok((SpotQuery { key: id, currency: *currency }, Request::Get { url }))
            },
            Err(error) => Err(error),
        },
        Some(chain) => {
            let url = write_contract_price_url(chain, token, currency);
            Ok(
                (
                    SpotQuery { key: String::from_str(token), currency: *currency },
                    Request::Get { url },
                ),
            )
        },
    }
}

impl SpotQuery {
    /// Takes the reply to the request that is out and ends the quote.
    pub fn finish(self, reply: Reply) -> (r: Result<String, PriceError>)
        ensures
            outcome(r) == self@.end(reply@),
    {
        match reply.into_document() {
            Ok(document) => get_currency_value(&document, self.key.as_str(), &self.currency),
            Err(fault) => Err(
                PriceError::Source { upstream: Upstream::SpotPrice, id: self.key, fault },
            ),
        }
    }
}

/// The display name of the coin through whose dollar price a dollar price is
/// converted into `currency`.
pub open spec fn reference_coin(currency: Currency) -> Option<Seq<char>> {
    match currency {
        Currency::ETH => Some("Ethereum"@),
        Currency::BTC => Some("Bitcoin"@),
        _ => None,
    }
}

/// How far a conversion has come.
#[derive(Debug, PartialEq, Eq)]
pub enum ConversionStage {
    /// The registry file was asked for, to find the reference coin `coin`.
    Registry { coin: String },
    /// The reference coin's dollar price is being quoted.
    Reference(SpotQuery),
    /// The arithmetic was asked for.
    Ratio,
}

/// The mathematical value of a [`ConversionStage`].
pub enum ConversionStageView {
    Registry { coin: Seq<char> },
    Reference(SpotQueryView),
    Ratio,
}

impl View for ConversionStage {
    type V = ConversionStageView;

    open spec fn view(&self) -> ConversionStageView {
        match *self {
            ConversionStage::Registry { coin } => ConversionStageView::Registry { coin: coin@ },
            ConversionStage::Reference(query) => ConversionStageView::Reference(query@),
            ConversionStage::Ratio => ConversionStageView::Ratio,
        }
    }
}

/// A conversion under way: of the dollar price `price` into `currency`.
/// `tokens` is the registry, once it is loaded.
#[derive(Debug, PartialEq, Eq)]
pub struct Conversion {
    pub price: String,
    pub currency: Currency,
    pub tokens: Option<TokenList>,
    pub stage: ConversionStage,
}

/// The mathematical value of a [`Conversion`].
pub struct ConversionView {
    pub price: Seq<char>,
    pub currency: Currency,
    pub tokens: Option<Seq<TokenView>>,
    pub stage: ConversionStageView,
}

impl View for Conversion {
    type V = ConversionView;

    open spec fn view(&self) -> ConversionView {
        ConversionView {
            price: self.price@,
            currency: self.currency,
            tokens: maybe(self.tokens),
            stage: self.stage@,
        }
    }
}

/// What a conversion ends with: the converted price, and the registry if the
/// conversion held one, for the next conversion to use.
#[derive(Debug, PartialEq, Eq)]
pub struct Converted {
    pub ratio: String,
    pub tokens: Option<TokenList>,
}

/// The mathematical value of a [`Converted`].
pub struct ConvertedView {
    pub ratio: Seq<char>,
    pub tokens: Option<Seq<TokenView>>,
}

impl View for Converted {
    type V = ConvertedView;

    open spec fn view(&self) -> ConvertedView {
        ConvertedView { ratio: self.ratio@, tokens: maybe(self.tokens) }
    }
}

/// How a conversion goes on once the registry is at hand: the reference coin
/// is found in it and quoted in dollars.
pub open spec fn conversion_refer(
    price: Seq<char>,
    currency: Currency,
    coin: Seq<char>,
    tokens: Seq<TokenView>,
) -> Result<(ConversionView, RequestView), PriceErrorView> {
    match spot_start(None, coin, Currency::USD, tokens) {
        Ok((query, request)) => Ok(
            (
                ConversionView {
                    price,
                    currency,
                    tokens: Some(tokens),
                    stage: ConversionStageView::Reference(query),
                },
                request,
            ),
        ),
        Err(error) => Err(error),
    }
}

/// How the conversion of the dollar price `price` into `currency` begins;
/// `tokens` is the registry, where it is loaded already. Into `USD` the
/// reciprocal of the price is asked for at once. Into `ETH` or `BTC` the
/// reference coin is quoted first, after the registry has been asked for if
/// it is not at hand. Into `EUR` there is no conversion.
pub open spec fn conversion_start(
    price: Seq<char>,
    currency: Currency,
    tokens: Option<Seq<TokenView>>,
) -> Result<(ConversionView, RequestView), PriceErrorView> {
    match currency {
        Currency::USD => Ok(
            (
                ConversionView { price, currency, tokens, stage: ConversionStageView::Ratio },
                RequestView::Reciprocal { price },
            ),
        ),
        Currency::EUR => Err(PriceErrorView::UnimplementedCurrency),
        _ => {
            let coin = reference_coin(currency)->0;
            match tokens {
                Some(registry) => conversion_refer(price, currency, coin, registry),
                None => Ok(
                    (
                        ConversionView {
                            price,
                            currency,
                            tokens,
                            stage: ConversionStageView::Registry { coin },
                        },
                        registry_request(),
                    ),
                ),
            }
        },
    }
}

impl ConversionView {
    /// The conversion's next turn on `reply`. While the registry is awaited,
    /// the file's bytes lead on as [`conversion_refer`] says and anything
    /// else is a registry that could not be loaded. While the reference coin
    /// is being quoted, its price leads to the request for the quotient of
    /// the two prices. While the arithmetic is awaited, a number ends the
    /// conversion and anything else means that the price was no number. A
    /// conversion into `EUR` fails wherever it stands.
    pub open spec fn step(self, reply: ReplyView) -> TurnView<ConversionView, ConvertedView> {
        if self.currency == Currency::EUR {
            TurnView::Failed(PriceErrorView::UnimplementedCurrency)
        } else {
            match self.stage {
                ConversionStageView::Registry { coin } => match reply {
                    ReplyView::File(bytes) => begun(
                        conversion_refer(
                            self.price,
                            self.currency,
                            coin,
                            tokens_of(csv_records(bytes)),
                        ),
                    ),
                    _ => TurnView::Failed(PriceErrorView::RegistryLoad),
                },
                ConversionStageView::Reference(query) => match query.end(reply) {
                    Ok(by) => TurnView::Ask(
                        ConversionView { stage: ConversionStageView::Ratio, ..self },
                        RequestView::Divide { price: self.price, by },
                    ),
                    Err(error) => TurnView::Failed(error),
                },
                ConversionStageView::Ratio => match reply {
                    ReplyView::Number(ratio) => TurnView::Done(
                        ConvertedView { ratio, tokens: self.tokens },
                    ),
                    _ => TurnView::Failed(PriceErrorView::NumericParse { text: self.price }),
                },
            }
        }
    }
}

/// Begins the conversion of the dollar price `token_price` into `currency`;
/// `tokens` is the registry, where it is loaded already.
pub fn token_price_per_currency(
    token_price: &str,
    currency: &Currency,
    tokens: Option<TokenList>,
) -> (r: Result<(Conversion, Request), PriceError>)
    ensures
        outcome(r) == conversion_start(token_price@, *currency, maybe(tokens)),
{
    let coin = match currency {
        Currency::USD => {
            return Ok(
                (
                    Conversion {
                        price: String::from_str(token_price),
                        currency: *currency,
                        tokens,
                        stage: ConversionStage::Ratio,
                    },
                    Request::Reciprocal { price: String::from_str(token_price) },
                ),
            );
        },
        Currency::EUR => { return Err(PriceError::UnimplementedCurrency); },
        Currency::ETH => "Ethereum",
        Currency::BTC => "Bitcoin",
    };
    match tokens {
        Some(registry) => Conversion::refer(token_price, currency, coin, registry),
        None => Ok(
            (
                Conversion {
                    price: String::from_str(token_price),
                    currency: *currency,
                    tokens: None,
                    stage: ConversionStage::Registry { coin: String::from_str(coin) },
                },
                ask_for_registry(),
            ),
        ),
    }
}

impl Conversion {
    /// Goes on with the conversion of `price` into `currency` once the
    /// registry is at hand: asks for the dollar price of `coin`.
    pub fn refer(price: &str, currency: &Currency, coin: &str, tokens: TokenList) -> (r: Result<
        (Conversion, Request),
        PriceError,
    >)
        ensures
            outcome(r) == conversion_refer(price@, *currency, coin@, tokens@),
    {
        match create_request(None, coin, &Currency::USD, &tokens) {
            Ok((query, request)) => Ok(
                (
                    Conversion {
                        price: String::from_str(price),
                        currency: *currency,
                        tokens: Some(tokens),
                        stage: ConversionStage::Reference(query),
                    },
                    request,
                ),
            ),
            Err(error) => Err(error),
        }
    }

    /// Takes the reply to the request that is out and makes the next turn.
    pub fn advance(self, reply: Reply) -> (t: Turn<Conversion, Converted>)
        ensures
            t@ == self@.step(reply@),
    {
        match self.currency {
            Currency::EUR => { return Turn::Failed(PriceError::UnimplementedCurrency); },
            _ => {},
        }
        match self.stage {
            ConversionStage::Registry { coin } => match reply {
                Reply::File(bytes) => {
                    let tokens = TokenList::new(bytes.as_slice());
                    match Conversion::refer(
                        self.price.as_str(),
                        &self.currency,
                        coin.as_str(),
                        tokens,
                    ) {
                        Ok((next, request)) => Turn::Ask(next, request),
                        Err(error) => Turn::Failed(error),
                    }
                },
                _ => Turn::Failed(PriceError::RegistryLoad),
            },
            ConversionStage::Reference(query) => match query.finish(reply) {
                Ok(by) => {
                    let price = self.price.clone();
                    Turn::Ask(
                        Conversion {
                            price: self.price,
                            currency: self.currency,
                            tokens: self.tokens,
                            stage: ConversionStage::Ratio,
                        },
                        Request::Divide { price, by },
                    )
                },
                Err(error) => Turn::Failed(error),
            },
            ConversionStage::Ratio => match reply {
                Reply::Number(ratio) => Turn::Done(Converted { ratio, tokens: self.tokens }),
                _ => Turn::Failed(PriceError::NumericParse { text: self.price }),
            },
        }
    }
}

/// No conversion into `EUR` ever gives a value: none begins, and one that is
/// handed a reply fails as unimplemented, whatever state and reply.
pub proof fn law_no_conversion_into_eur(
    price: Seq<char>,
    tokens: Option<Seq<TokenView>>,
    state: ConversionView,
    reply: ReplyView,
)
    requires
        state.currency == Currency::EUR,
    ensures
        conversion_start(price, Currency::EUR, tokens) == Err::<
            (ConversionView, RequestView),
            PriceErrorView,
        >(PriceErrorView::UnimplementedCurrency),
        state.step(reply) == TurnView::<ConversionView, ConvertedView>::Failed(
            PriceErrorView::UnimplementedCurrency,
        ),
{
}

/// A conversion keeps its price and its currency for as long as it goes on.
pub proof fn law_conversion_keeps_its_subject(state: ConversionView, reply: ReplyView)
    ensures
        state.step(reply) matches TurnView::Ask(next, _) ==> next.price == state.price
            && next.currency == state.currency,
{
}

/// A conversion asks for the registry only where it has none: one that
/// begins with the registry at hand never asks for the file, and hands the
/// same registry on when it ends.
pub proof fn law_loaded_registry_is_not_asked_for_again(
    price: Seq<char>,
    currency: Currency,
    tokens: Seq<TokenView>,
    reply: ReplyView,
    number: ReplyView,
)
    ensures
        conversion_start(price, currency, Some(tokens)) matches Ok((state, request)) ==> {
            &&& !(request is ReadFile)
            &&& state.tokens == Some(tokens)
            &&& state.step(reply) matches TurnView::Ask(next, asked) ==> {
                &&& !(asked is ReadFile)
                &&& next.tokens == Some(tokens)
                &&& next.step(number) matches TurnView::Done(converted) ==> converted.tokens
                    == Some(tokens)
            }
            &&& state.step(reply) matches TurnView::Done(converted) ==> converted.tokens == Some(
                tokens,
            )
        },
{
}

/// The resolved price of a single asset.
#[derive(Debug, PartialEq, Eq)]
pub struct CoinGeckoPrice {
    /// The price of one unit of the asset, as the source quoted it.
    pub currency_price: String,
    /// What the conversion made of that price: its reciprocal, or its
    /// quotient by the reference coin's price.
    pub coin_per_dollar: String,
}

/// The mathematical value of a [`CoinGeckoPrice`].
pub struct CoinGeckoPriceView {
    pub currency_price: Seq<char>,
    pub coin_per_dollar: Seq<char>,
}

impl View for CoinGeckoPrice {
    type V = CoinGeckoPriceView;

    open spec fn view(&self) -> CoinGeckoPriceView {
        CoinGeckoPriceView {
            currency_price: self.currency_price@,
            coin_per_dollar: self.coin_per_dollar@,
        }
    }
}

} // verus!
