use vstd::prelude::*;

verus! {

/// Lamports in one SOL.
pub const LAMPORTS_PER_SOL: u64 = 1_000_000_000;

/// A count of lamports, the smallest unit of the native currency.
#[derive(Debug, Clone, Copy, PartialEq, Eq, Structural, PartialOrd, Ord, Hash)]
pub struct Lamports(pub u64);

/// Why a decimal amount of SOL is not a count of lamports.
#[derive(Debug, Clone, Copy, PartialEq, Eq, Structural)]
pub enum AmountError {
    /// The amount is below zero.
    Negative,
    /// The fraction is not a count of billionths below one.
    InvalidFraction,
    /// The amount is more than the largest 64-bit count of lamports.
    Overflow,
}

/// A non-negative decimal amount of SOL with up to nine fractional digits:
/// `whole + nanos / 10^9`, with `nanos < 10^9`.
#[derive(Debug, Clone, Copy, PartialEq, Eq, Structural)]
pub struct SolParts {
    pub whole: u64,
    pub nanos: u32,
}

/// The lamports in `whole + nanos / 10^9` SOL.
pub open spec fn spec_lamports_of(whole: nat, nanos: nat) -> nat {
    whole * 1_000_000_000 + nanos
}

/// Ten to the power `exponent`.
pub open spec fn spec_pow10(exponent: nat) -> nat
    decreases exponent,
{
    if exponent == 0 {
        1
    } else {
        10 * spec_pow10((exponent - 1) as nat)
    }
}

/// The lamports nearest to `units / 10^decimals` SOL, a half rounding up.
pub open spec fn spec_lamports_of_decimal(units: nat, decimals: nat) -> nat {
    if decimals <= 9 {
        units * spec_pow10((9 - decimals) as nat)
    } else {
        (units + spec_pow10((decimals - 9) as nat) / 2) / spec_pow10((decimals - 9) as nat)
    }
}

impl SolParts {
    /// The fraction is below one.
    pub open spec fn wf(self) -> bool {
        self.nanos < 1_000_000_000
    }

    /// The amount in lamports.
    pub open spec fn lamports(self) -> nat {
        spec_lamports_of(self.whole as nat, self.nanos as nat)
    }
}

impl Lamports {
    /// The count as a mathematical integer.
    pub open spec fn value(self) -> nat {
        self.0 as nat
    }

    /// Converts a decimal amount of SOL to lamports. `negative` marks an
    /// amount below zero when it is not zero itself; such an amount is
    /// rejected, as is one that no 64-bit count holds.
    pub fn from_sol_parts(negative: bool, whole: u64, nanos: u32) -> (r: Result<
        Lamports,
        AmountError,
    >)
        ensures
            nanos >= 1_000_000_000 ==> r == Err::<Lamports, AmountError>(
                AmountError::InvalidFraction,
            ),
            nanos < 1_000_000_000 && negative && (whole > 0 || nanos > 0) ==> r == Err::<
                Lamports,
                AmountError,
            >(AmountError::Negative),
            nanos < 1_000_000_000 && !(negative && (whole > 0 || nanos > 0)) && spec_lamports_of(
                whole as nat,
                nanos as nat,
            ) > u64::MAX ==> r == Err::<Lamports, AmountError>(AmountError::Overflow),
            nanos < 1_000_000_000 && !(negative && (whole > 0 || nanos > 0)) && spec_lamports_of(
                whole as nat,
                nanos as nat,
            ) <= u64::MAX ==> r == Ok::<Lamports, AmountError>(
                Lamports(spec_lamports_of(whole as nat, nanos as nat) as u64),
            ),
    {
        if nanos >= 1_000_000_000 {
            return Err(AmountError::InvalidFraction);
        }
        if negative && (whole > 0 || nanos > 0) {
            return Err(AmountError::Negative);
        }
        let total: u128 = (whole as u128) * 1_000_000_000 + (nanos as u128);
        if total > u64::MAX as u128 {
            Err(AmountError::Overflow)
        } else {
            Ok(Lamports(total as u64))
        }
    }

    /// Converts the decimal amount `units / 10^decimals` of SOL to the
    /// nearest count of lamports; an amount halfway between two counts
    /// goes up. `negative` marks an amount below zero when `units` is not
    /// zero; such an amount is rejected, as is one that no 64-bit count
    /// holds.
    pub fn from_sol_decimal(negative: bool, units: u64, decimals: u8) -> (r: Result<
        Lamports,
        AmountError,
    >)
        ensures
            negative && units > 0 ==> r == Err::<Lamports, AmountError>(AmountError::Negative),
            !(negative && units > 0) && spec_lamports_of_decimal(units as nat, decimals as nat)
                > u64::MAX ==> r == Err::<Lamports, AmountError>(AmountError::Overflow),
            !(negative && units > 0) && spec_lamports_of_decimal(units as nat, decimals as nat)
                <= u64::MAX ==> r == Ok::<Lamports, AmountError>(
                Lamports(spec_lamports_of_decimal(units as nat, decimals as nat) as u64),
            ),
    {
        if negative && units > 0 {
            return Err(AmountError::Negative);
        }
        if decimals <= 9 {
            let factor = pow10(9 - decimals);
            proof {
                lemma_pow10_grows((9 - decimals) as nat, 9);
                assert(spec_pow10(9) == 1_000_000_000) by {
                    reveal_with_fuel(spec_pow10, 10);
                }
                assert(units * factor <= 0xffff_ffff_ffff_ffff * 1_000_000_000) by (nonlinear_arith)
                    requires
                        units <= 0xffff_ffff_ffff_ffff,
                        factor <= 1_000_000_000,
                ;
            }
            let total: u128 = (units as u128) * factor;
            if total > u64::MAX as u128 {
                Err(AmountError::Overflow)
            } else {
                Ok(Lamports(total as u64))
            }
        } else if decimals - 9 > 20 {
            proof {
                let divisor = spec_pow10((decimals - 9) as nat);
                lemma_pow10_grows(20, (decimals - 9) as nat);
                assert(spec_pow10(20) == 100_000_000_000_000_000_000) by {
                    reveal_with_fuel(spec_pow10, 21);
                }
                assert((units as nat + divisor / 2) / divisor == 0) by (nonlinear_arith)
                    requires
                        divisor >= 100_000_000_000_000_000_000,
                        0 <= units <= 0xffff_ffff_ffff_ffff,
                ;
            }
            Ok(Lamports(0))
        } else {
            let divisor = pow10(decimals - 9);
            proof {
                lemma_pow10_grows((decimals - 9) as nat, 20);
                assert(spec_pow10(20) == 100_000_000_000_000_000_000) by {
                    reveal_with_fuel(spec_pow10, 21);
                }
                assert((units + divisor / 2) / (divisor as int) <= units + divisor / 2)
                    by (nonlinear_arith)
                    requires
                        divisor >= 1,
                        units >= 0,
                ;
            }
            let rounded: u128 = ((units as u128) + divisor / 2) / divisor;
            if rounded > u64::MAX as u128 {
                Err(AmountError::Overflow)
            } else {
                Ok(Lamports(rounded as u64))
            }
        }
    }

    /// Splits the count into whole SOL and billionths of one.
    pub fn to_sol_parts(&self) -> (r: SolParts)
        ensures
            r.wf(),
            r.lamports() == self.value(),
            r.whole == self.0 / 1_000_000_000,
            r.nanos == self.0 % 1_000_000_000,
    {
        SolParts { whole: self.0 / 1_000_000_000, nanos: (self.0 % 1_000_000_000) as u32 }
    }
}

/// Ten to the power `exponent`, for an exponent of at most 20.
fn pow10(exponent: u8) -> (r: u128)
    requires
        exponent <= 20,
    ensures
        r == spec_pow10(exponent as nat),
        r >= 1,
{
    let mut power: u128 = 1;
    let mut done: u8 = 0;
    proof {
        assert(spec_pow10(20) == 100_000_000_000_000_000_000) by {
            reveal_with_fuel(spec_pow10, 21);
        }
    }
    while done < exponent
        invariant
            done <= exponent,
            exponent <= 20,
            power == spec_pow10(done as nat),
            power >= 1,
            spec_pow10(20) == 100_000_000_000_000_000_000,
        decreases exponent - done,
    {
        proof {
            lemma_pow10_grows((done + 1) as nat, 20);
        }
        power = power * 10;
        done = done + 1;
    }
    power
}

proof fn lemma_pow10_grows(small: nat, large: nat)
    requires
        small <= large,
    ensures
        1 <= spec_pow10(small) <= spec_pow10(large),
    decreases large,
{
    if large > 0 {
        if small < large {
            lemma_pow10_grows(small, (large - 1) as nat);
        } else {
            lemma_pow10_grows((small - 1) as nat, (large - 1) as nat);
        }
    }
}

impl core::ops::Add for Lamports {
    type Output = Lamports;

    fn add(self, rhs: Lamports) -> (r: Lamports) {
        Lamports(self.0 + rhs.0)
    }
}

impl vstd::std_specs::ops::AddSpecImpl for Lamports {
    open spec fn obeys_add_spec() -> bool {
        true
    }

    open spec fn add_req(self, rhs: Lamports) -> bool {
        self.0 + rhs.0 <= u64::MAX
    }

    open spec fn add_spec(self, rhs: Lamports) -> Lamports {
        Lamports((self.0 + rhs.0) as u64)
    }
}

impl core::ops::Sub for Lamports {
    type Output = Lamports;

    fn sub(self, rhs: Lamports) -> (r: Lamports) {
        Lamports(self.0 - rhs.0)
    }
}

impl vstd::std_specs::ops::SubSpecImpl for Lamports {
    open spec fn obeys_sub_spec() -> bool {
        true
    }

    open spec fn sub_req(self, rhs: Lamports) -> bool {
        rhs.0 <= self.0
    }

    open spec fn sub_spec(self, rhs: Lamports) -> Lamports {
        Lamports((self.0 - rhs.0) as u64)
    }
}

impl core::ops::Div for Lamports {
    type Output = Lamports;

    fn div(self, rhs: Lamports) -> (r: Lamports) {
        Lamports(self.0 / rhs.0)
    }
}

impl vstd::std_specs::ops::DivSpecImpl for Lamports {
    open spec fn obeys_div_spec() -> bool {
        true
    }

    open spec fn div_req(self, rhs: Lamports) -> bool {
        rhs.0 != 0
    }

    open spec fn div_spec(self, rhs: Lamports) -> Lamports {
        Lamports(self.0 / rhs.0)
    }
}

/// Splitting a count into SOL parts and converting the parts back gives
/// the count again.
pub proof fn lemma_sol_parts_round_trip(amount: Lamports)
    ensures
        spec_lamports_of((amount.0 / 1_000_000_000) as nat, (amount.0 % 1_000_000_000) as nat)
            == amount.value(),
        amount.0 % 1_000_000_000 < 1_000_000_000,
{
}

/// An amount with nine fractional digits converts without rounding: the
/// lamports of `units / 10^9` SOL are `units`.
pub proof fn lemma_nine_decimals_are_lamports(units: nat)
    ensures
        spec_lamports_of_decimal(units, 9) == units,
{
    assert(spec_pow10(0) == 1);
    assert(units * 1 == units) by (nonlinear_arith);
}

/// An amount halfway between two counts of lamports goes to the higher
/// one, and anything below the half to the lower: with ten fractional
/// digits the last digit decides.
pub proof fn lemma_tenth_digit_rounds(lamports: nat, digit: nat)
    requires
        digit <= 9,
    ensures
        spec_lamports_of_decimal(lamports * 10 + digit, 10) == if digit >= 5 {
            lamports + 1
        } else {
            lamports
        },
{
    assert(spec_pow10(1) == 10) by {
        reveal_with_fuel(spec_pow10, 2);
    }
    let x = (lamports * 10 + digit + 5) as int;
    if digit >= 5 {
        vstd::arithmetic::div_mod::lemma_fundamental_div_mod_converse(
            x,
            10,
            (lamports + 1) as int,
            digit - 5,
        );
    } else {
        vstd::arithmetic::div_mod::lemma_fundamental_div_mod_converse(
            x,
            10,
            lamports as int,
            (digit + 5) as int,
        );
    }
}

/// Distinct well-formed SOL parts stand for distinct counts: every amount
/// with at most nine fractional digits is recovered from its lamports.
pub proof fn lemma_lamports_determine_parts(whole: nat, nanos: nat)
    requires
        nanos < 1_000_000_000,
    ensures
        spec_lamports_of(whole, nanos) / 1_000_000_000 == whole,
        spec_lamports_of(whole, nanos) % 1_000_000_000 == nanos,
{
    vstd::arithmetic::div_mod::lemma_fundamental_div_mod_converse(
        spec_lamports_of(whole, nanos) as int,
        1_000_000_000,
        whole as int,
        nanos as int,
    );
}

} // verus!
