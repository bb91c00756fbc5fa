use vstd::prelude::*;

use crate::types::{Error, OracleConfig, OracleProvider};

verus! {

/// A price source for one provider.
pub trait OracleInterface {
    /// The provider this adapter speaks for.
    spec fn spec_provider(&self) -> OracleProvider;

    /// The provider this adapter speaks for.
    fn provider(&self) -> (r: OracleProvider)
        ensures
            r == self.spec_provider(),
    ;

    /// The current price of a feed, in cents, or why none could be had.
    fn get_price(&self, feed_id: &String) -> Result<i128, Error>;
}

/// The Pyth adapter. It does not yet reach the feed contract at
/// `contract_id` and reports a fixed price of 2_600_000 cents.
pub struct PythOracle {
    pub contract_id: String,
}

/// The price the Pyth adapter reports.
pub const PYTH_FIXED_PRICE: i128 = 2_600_000;

impl OracleInterface for PythOracle {
    open spec fn spec_provider(&self) -> OracleProvider {
        OracleProvider::Pyth
    }

    fn provider(&self) -> (r: OracleProvider)
        ensures
            r == OracleProvider::Pyth,
    {
        OracleProvider::Pyth
    }

    fn get_price(&self, _feed_id: &String) -> (r: Result<i128, Error>)
        ensures
            r == Ok::<i128, Error>(PYTH_FIXED_PRICE),
    {
        Ok(PYTH_FIXED_PRICE)
    }
}

/// The label `yes` or `no` as characters.
pub open spec fn yes_no(b: bool) -> Seq<char> {
    if b {
        "yes"@
    } else {
        "no"@
    }
}

/// The outcome a price gives under a comparison against a threshold; `None`
/// for a comparison other than `gt`, `lt` and `eq`.
pub open spec fn signal_outcome(comparison: Seq<char>, threshold: i128, price: i128) -> Option<
    Seq<char>,
> {
    if comparison == "gt"@ {
        Some(yes_no(price > threshold))
    } else if comparison == "lt"@ {
        Some(yes_no(price < threshold))
    } else if comparison == "eq"@ {
        Some(yes_no(price == threshold))
    } else {
        None
    }
}

fn yes_no_label(b: bool) -> (r: String)
    ensures
        r@ == yes_no(b),
{
    if b {
        "yes".to_owned()
    } else {
        "no".to_owned()
    }
}

/// Turns a price into the market's signal outcome under its configured
/// comparison.
pub fn oracle_outcome(config: &OracleConfig, price: i128) -> (r: Result<String, Error>)
    ensures
        match signal_outcome(config.comparison@, config.threshold, price) {
            Some(label) => r matches Ok(s) && s@ == label,
            None => r == Err::<String, Error>(Error::InvalidOracleConfig),
        },
{
    let gt = "gt".to_owned();
    let lt = "lt".to_owned();
    let eq = "eq".to_owned();
    if config.comparison == gt {
        Ok(yes_no_label(price > config.threshold))
    } else if config.comparison == lt {
        Ok(yes_no_label(price < config.threshold))
    } else if config.comparison == eq {
        Ok(yes_no_label(price == config.threshold))
    } else {
        Err(Error::InvalidOracleConfig)
    }
}

/// The outcome an adapter's answer gives: its error unchanged, or the
/// outcome of its price under the comparison.
pub open spec fn answer_outcome(
    comparison: Seq<char>,
    threshold: i128,
    answer: Result<i128, Error>,
) -> Result<Seq<char>, Error> {
    match answer {
        Err(e) => Err(e),
        Ok(p) => match signal_outcome(comparison, threshold, p) {
            Some(label) => Ok(label),
            None => Err(Error::InvalidOracleConfig),
        },
    }
}

/// A result with its label seen as characters.
pub open spec fn label_view(r: Result<String, Error>) -> Result<Seq<char>, Error> {
    match r {
        Ok(s) => Ok(s@),
        Err(e) => Err(e),
    }
}

/// Turns an adapter's answer into the market's signal outcome: an error
/// from the adapter comes back unchanged, a price is compared with the
/// threshold.
pub fn price_outcome(config: &OracleConfig, answer: Result<i128, Error>) -> (r: Result<String, Error>)
    ensures
        label_view(r) == answer_outcome(config.comparison@, config.threshold, answer),
        answer matches Err(e) ==> r == Err::<String, Error>(e),
{
    match answer {
        Ok(p) => oracle_outcome(config, p),
        Err(e) => Err(e),
    }
}

} // verus!
