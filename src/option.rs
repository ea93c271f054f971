//! Black-Scholes-Merton inputs: parsing, validation, and the choice between
//! the closed form and its zero-volatility / expiry limit.
use vstd::prelude::*;
use crate::CalcError;
use crate::decimal::{Decimal, parse_decimal, valid_decimal_text, text_units};

verus! {

/// How a valid set of option inputs is priced.
#[derive(PartialEq, Eq, Structural, Clone, Copy, Debug)]
pub enum PricingMode {
    /// `time_to_expiry == 0` or `volatility == 0`: the price is the
    /// discounted intrinsic value, `max(S e^(-qT) - K e^(-rT), 0)` for a call.
    Intrinsic,
    /// The closed form with `d1`, `d2` and the normal distribution.
    ClosedForm,
}

/// The six market inputs of one pricing call.
#[derive(PartialEq, Eq, Structural, Clone, Copy, Debug)]
pub struct OptionInputs {
    pub spot: Decimal,
    pub strike: Decimal,
    pub time_to_expiry: Decimal,
    pub risk_free_rate: Decimal,
    pub volatility: Decimal,
    pub dividend_yield: Decimal,
}

impl OptionInputs {
    pub open spec fn wf(&self) -> bool {
        &&& self.spot.wf()
        &&& self.strike.wf()
        &&& self.time_to_expiry.wf()
        &&& self.risk_free_rate.wf()
        &&& self.volatility.wf()
        &&& self.dividend_yield.wf()
    }

    /// Spot and strike positive, time and volatility not negative.
    pub open spec fn in_domain(&self) -> bool {
        &&& self.spot.units > 0
        &&& self.strike.units > 0
        &&& self.time_to_expiry.units >= 0
        &&& self.volatility.units >= 0
    }

    pub open spec fn degenerate(&self) -> bool {
        self.time_to_expiry.units == 0 || self.volatility.units == 0
    }

    /// Reads the six inputs from their decimal texts.
    pub fn parse(
        spot: &str,
        strike: &str,
        time_to_expiry: &str,
        risk_free_rate: &str,
        volatility: &str,
        dividend_yield: &str,
    ) -> (r: Result<OptionInputs, CalcError>)
        ensures
            r is Ok <==> valid_decimal_text(spot@) && valid_decimal_text(strike@)
                && valid_decimal_text(time_to_expiry@) && valid_decimal_text(risk_free_rate@)
                && valid_decimal_text(volatility@) && valid_decimal_text(dividend_yield@),
            r matches Ok(v) ==> v.wf() && v.spot.units == text_units(spot@) && v.strike.units
                == text_units(strike@) && v.time_to_expiry.units == text_units(time_to_expiry@)
                && v.risk_free_rate.units == text_units(risk_free_rate@) && v.volatility.units
                == text_units(volatility@) && v.dividend_yield.units == text_units(
                dividend_yield@,
            ),
            r matches Err(e) ==> e == CalcError::Parse,
    {
        let spot = parse_decimal(spot)?;
        let strike = parse_decimal(strike)?;
        let time_to_expiry = parse_decimal(time_to_expiry)?;
        let risk_free_rate = parse_decimal(risk_free_rate)?;
        let volatility = parse_decimal(volatility)?;
        let dividend_yield = parse_decimal(dividend_yield)?;
        Ok(OptionInputs { spot, strike, time_to_expiry, risk_free_rate, volatility, dividend_yield })
    }

    /// Validates the inputs and says how they are priced.
    pub fn pricing_mode(&self) -> (r: Result<PricingMode, CalcError>)
        ensures
            r is Ok <==> self.in_domain(),
            r matches Err(e) ==> e == CalcError::Domain,
            r matches Ok(m) ==> (m == PricingMode::Intrinsic <==> self.degenerate()),
    {
        if self.spot.units <= 0 || self.strike.units <= 0 || self.time_to_expiry.units < 0
            || self.volatility.units < 0 {
            Err(CalcError::Domain)
        } else if self.time_to_expiry.units == 0 || self.volatility.units == 0 {
            Ok(PricingMode::Intrinsic)
        } else {
            Ok(PricingMode::ClosedForm)
        }
    }
}

} // verus!
