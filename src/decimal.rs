use vstd::prelude::*;

verus! {

/// An exact decimal value, kept as the numerator and the denominator of
/// its reduced fraction, both written in base ten. The denominator is
/// positive and carries no sign, so two values are equal exactly when
/// their parts are.
#[derive(Clone, Debug, PartialEq, Eq)]
pub struct Decimal {
    pub numer: String,
    pub denom: String,
}

impl View for Decimal {
    type V = (Seq<char>, Seq<char>);

    open spec fn view(&self) -> (Seq<char>, Seq<char>) {
        (self.numer@, self.denom@)
    }
}

/// The reduced fraction that a decimal text stands for, as base-ten
/// numerator and denominator; `None` where the text is no number.
pub uninterp spec fn num_parts_of(s: Seq<char>) -> Option<(Seq<char>, Seq<char>)>;

/// Relies on `num_decimal::Num::from_str`: it reads an optional sign,
/// base-ten digits and an optional fraction after a point, without
/// rounding, and keeps the value as a reduced fraction; its numerator and
/// denominator are written out in base ten.
#[verifier::external_body]
fn parse_num(s: &str) -> (r: Option<(String, String)>)
    ensures
        match r {
            Some(p) => num_parts_of(s@) == Some((p.0@, p.1@)),
            None => num_parts_of(s@) is None,
        },
{
    match <num_decimal::Num as std::str::FromStr>::from_str(s) {
        Ok(n) => {
            let (numer, denom): (num_decimal::num_bigint::BigInt, num_decimal::num_bigint::BigInt) =
                n.into();
            Some((numer.to_string(), denom.to_string()))
        },
        Err(_) => None,
    }
}

/// Reads a decimal text without rounding.
pub fn parse_decimal(s: &str) -> (r: Option<Decimal>)
    ensures
        match r {
            Some(d) => num_parts_of(s@) == Some(d@),
            None => num_parts_of(s@) is None,
        },
{
    match parse_num(s) {
        Some((numer, denom)) => Some(Decimal { numer, denom }),
        None => None,
    }
}

} // verus!
