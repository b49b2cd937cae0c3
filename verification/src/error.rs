//! The ways a resolution can fail.

use vstd::prelude::*;

verus! {

/// The external source a request was addressed to.
#[derive(Debug, Clone, Copy, PartialEq, Eq, Structural)]
pub enum Upstream {
    /// The spot-price endpoint.
    SpotPrice,
    /// The pair subgraph.
    Subgraph,
}

/// What went wrong with a request to an external source.
#[derive(Debug, Clone, Copy, PartialEq, Eq, Structural)]
pub enum Fault {
    /// The request could not be put into words.
    Unencodable,
    /// No answer came back.
    Unanswered,
    /// The answer came with a status other than success.
    Refused { status: u16 },
    /// The answer has not the shape that was asked for.
    Malformed,
}

/// Why a resolution ended without a price.
#[derive(Debug, PartialEq, Eq)]
pub enum PriceError {
    /// The registry file could not be read.
    RegistryLoad,
    /// No record of the registry carries this display name.
    AssetNotFound { name: String },
    /// A request to an external source failed; `id` is what was asked about.
    Source { upstream: Upstream, id: String, fault: Fault },
    /// The requested currency has no conversion.
    UnimplementedCurrency,
    /// A decimal string is no number.
    NumericParse { text: String },
}

/// The mathematical value of a [`PriceError`].
pub enum PriceErrorView {
    RegistryLoad,
    AssetNotFound { name: Seq<char> },
    Source { upstream: Upstream, id: Seq<char>, fault: Fault },
    UnimplementedCurrency,
    NumericParse { text: Seq<char> },
}

impl View for PriceError {
    type V = PriceErrorView;

    open spec fn view(&self) -> PriceErrorView {
        match *self {
            PriceError::RegistryLoad => PriceErrorView::RegistryLoad,
            PriceError::AssetNotFound { name } => PriceErrorView::AssetNotFound { name: name@ },
            PriceError::Source { upstream, id, fault } => PriceErrorView::Source {
                upstream,
                id: id@,
                fault,
            },
            PriceError::UnimplementedCurrency => PriceErrorView::UnimplementedCurrency,
            PriceError::NumericParse { text } => PriceErrorView::NumericParse { text: text@ },
        }
    }
}

/// The mathematical value of an optional value.
pub open spec fn maybe<T: View>(o: Option<T>) -> Option<T::V> {
    match o {
        Some(value) => Some(value@),
        None => None,
    }
}

/// The mathematical value of a result whose error is a [`PriceError`].
pub open spec fn outcome<T: View>(r: Result<T, PriceError>) -> Result<T::V, PriceErrorView> {
    match r {
        Ok(value) => Ok(value@),
        Err(error) => Err(error@),
    }
}

} // verus!
