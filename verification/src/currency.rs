//! The reference currencies a price can be expressed in.

use vstd::prelude::*;
use vstd::string::*;

verus! {

/// A reference currency.
///
/// `USD` is the native currency of every quote; `ETH` and `BTC` are reached
/// from it through the reference coin's own quote; `EUR` is recognised but
/// has no conversion.
#[derive(Debug, Clone, Copy, PartialEq, Eq, Structural)]
pub enum Currency {
    USD,
    EUR,
    ETH,
    BTC,
}

impl Currency {
    /// The lower-case code of the currency, as the price source spells it in a
    /// query and in the field of its answer.
    pub open spec fn code(self) -> Seq<char> {
        match self {
            Currency::USD => "usd"@,
            Currency::EUR => "eur"@,
            Currency::ETH => "eth"@,
            Currency::BTC => "btc"@,
        }
    }

    /// The default currency, `USD`.
    pub fn new() -> (c: Self)
        ensures
            c == Currency::USD,
    {
        Currency::USD
    }

    /// The currency's code as an owned string.
    pub fn to_string(&self) -> (s: String)
        ensures
            s@ == self.code(),
    {
        match self {
            Currency::USD => String::from_str("usd"),
            Currency::EUR => String::from_str("eur"),
            Currency::ETH => String::from_str("eth"),
            Currency::BTC => String::from_str("btc"),
        }
    }
}

impl Default for Currency {
    fn default() -> (c: Self)
        ensures
            c == Currency::USD,
    {
        Currency::USD
    }
}

/// The four codes are pairwise different, so a code names one currency.
pub proof fn law_code_names_one_currency(a: Currency, b: Currency)
    ensures
        a.code() == b.code() <==> a == b,
{
    reveal_strlit("usd");
    reveal_strlit("eur");
    reveal_strlit("eth");
    reveal_strlit("btc");
    if a != b {
        assert(a.code()[0] != b.code()[0] || a.code()[1] != b.code()[1]);
    }
}

} // verus!
