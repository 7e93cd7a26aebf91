//! The decision logic of the balance-fetch protocol. The contract is
//! read in two steps — the raw balance first, then, only if the balance
//! is nonzero, the token's decimals — and every outcome, success or
//! failure, is turned into the display text for the balance screen. The
//! network reads themselves are the caller's; this module decides what
//! each outcome means.

use vstd::prelude::*;
use vstd::string::*;
use crate::address::{Address, hex_seq};

verus! {

/// The raw token balance: a 256-bit unsigned integer as four 64-bit
/// limbs, least significant first, as the contract call returns it.
#[derive(Clone, Copy, Debug)]
pub struct RawBalance {
    pub limbs: [u64; 4],
}

impl RawBalance {
    /// Whether the balance is exactly zero.
    pub open spec fn spec_is_zero(&self) -> bool {
        self.limbs@[0] == 0 && self.limbs@[1] == 0 && self.limbs@[2] == 0 && self.limbs@[3] == 0
    }

    /// Whether the balance is exactly zero.
    pub fn is_zero(&self) -> (r: bool)
        ensures
            r == self.spec_is_zero(),
    {
        self.limbs[0] == 0 && self.limbs[1] == 0 && self.limbs[2] == 0 && self.limbs[3] == 0
    }
}

/// Why a fetch failed, with the failing call's own description.
pub enum FetchError {
    /// The provider could not be built or reached.
    Connection(String),
    /// The balance read failed.
    BalanceCall(String),
    /// The decimals read failed.
    DecimalsCall(String),
    /// The balance could not be formatted with the reported decimals.
    Format(String),
}

/// The display text for a failed fetch: a fixed prefix naming the
/// failing step, then the failing call's own description.
pub open spec fn fetch_error_text(e: FetchError) -> Seq<char> {
    match e {
        FetchError::Connection(d) => "Failed to connect: "@ + d@,
        FetchError::BalanceCall(d) => "Failed to get balance: "@ + d@,
        FetchError::DecimalsCall(d) => "Failed to get decimals: "@ + d@,
        FetchError::Format(d) => "Failed to format units: "@ + d@,
    }
}

/// Renders a fetch failure as a non-empty, human-readable line.
pub fn fetch_error_message(e: &FetchError) -> (r: String)
    ensures
        r@ == fetch_error_text(*e),
        r@.len() > 0,
{
    proof {
        reveal_strlit("Failed to connect: ");
        reveal_strlit("Failed to get balance: ");
        reveal_strlit("Failed to get decimals: ");
        reveal_strlit("Failed to format units: ");
    }
    match e {
        FetchError::Connection(d) => {
            let mut out: String = "Failed to connect: ".to_owned();
            out.append(d.as_str());
            out
        },
        FetchError::BalanceCall(d) => {
            let mut out: String = "Failed to get balance: ".to_owned();
            out.append(d.as_str());
            out
        },
        FetchError::DecimalsCall(d) => {
            let mut out: String = "Failed to get decimals: ".to_owned();
            out.append(d.as_str());
            out
        },
        FetchError::Format(d) => {
            let mut out: String = "Failed to format units: ".to_owned();
            out.append(d.as_str());
            out
        },
    }
}

/// Law: every fetch failure, whatever its kind and detail, renders as
/// non-empty display text, so the balance screen never comes up blank.
pub proof fn lemma_fetch_error_text_nonempty(e: FetchError)
    ensures
        fetch_error_text(e).len() > 0,
{
    reveal_strlit("Failed to connect: ");
    reveal_strlit("Failed to get balance: ");
    reveal_strlit("Failed to get decimals: ");
    reveal_strlit("Failed to format units: ");
}

/// The fixed text shown for a wallet whose balance is exactly zero.
pub open spec fn zero_balance_text() -> Seq<char> {
    "The wallet has 0 USDC."@
}

/// The fixed text shown for a wallet whose balance is exactly zero.
pub fn zero_balance_message() -> (r: String)
    ensures
        r@ == zero_balance_text(),
        r@.len() > 0,
{
    proof {
        reveal_strlit("The wallet has 0 USDC.");
    }
    "The wallet has 0 USDC.".to_owned()
}

/// The display text for a nonzero balance: the wallet's address and the
/// balance scaled to whole tokens.
pub open spec fn balance_text(addr_bytes: Seq<u8>, units: Seq<char>) -> Seq<char> {
    "Address: "@ + "0x"@ + hex_seq(addr_bytes) + " has "@ + units + " USDC"@
}

/// Renders a nonzero balance as a non-empty, human-readable line.
pub fn balance_message(wallet: &Address, units: &str) -> (r: String)
    requires
        wallet.wf(),
    ensures
        r@ == balance_text(wallet.bytes@, units@),
        r@.len() > 0,
{
    proof {
        reveal_strlit("Address: ");
    }
    let mut out: String = "Address: ".to_owned();
    let hex = wallet.hex_string();
    out.append(hex.as_str());
    out.append(" has ");
    out.append(units);
    out.append(" USDC");
    proof {
        assert(out@ =~= balance_text(wallet.bytes@, units@));
    }
    out
}

/// What follows the balance read.
pub enum BalanceStep {
    /// The display text is already determined: the read failed, or the
    /// balance was exactly zero. No decimals read happens in this case.
    Done(String),
    /// The balance is nonzero; the token's decimals must be read next.
    NeedDecimals,
}

/// Decides what follows the balance read. A failed read and a zero
/// balance each determine the display text at once — in particular, a
/// zero balance is reported without the decimals ever being read — and
/// only a nonzero balance asks for the token's decimals.
pub fn after_balance(r: Result<RawBalance, FetchError>) -> (step: BalanceStep)
    ensures
        r matches Result::Err(e) ==> (step matches BalanceStep::Done(t) && t@ == fetch_error_text(
            e,
        ) && t@.len() > 0),
        (r matches Result::Ok(b) && b.spec_is_zero()) ==> (step matches BalanceStep::Done(t) && t@
            == zero_balance_text()),
        (r matches Result::Ok(b) && !b.spec_is_zero()) ==> step is NeedDecimals,
{
    match r {
        Result::Err(e) => BalanceStep::Done(fetch_error_message(&e)),
        Result::Ok(b) => {
            if b.is_zero() {
                BalanceStep::Done(zero_balance_message())
            } else {
                BalanceStep::NeedDecimals
            }
        },
    }
}

/// What `ethers::core::utils::format_units` returns for a 256-bit
/// amount and a decimals count below its overflow bound: the decimal
/// spelling of the amount scaled down by that many digits. A function
/// of the two arguments alone.
pub uninterp spec fn units_text(limbs: Seq<u64>, decimals: u8) -> Seq<char>;

/// Relies on `ethers::core::utils::format_units`: for a 256-bit amount
/// it fails exactly when the decimals count is 78 or more, and
/// otherwise its result depends on the amount and the count alone.
#[verifier::external_body]
fn format_units_call(balance: &RawBalance, decimals: u8) -> (r: Result<String, String>)
    ensures
        r is Ok <==> decimals < 78,
        r is Ok ==> r->Ok_0@ == units_text(balance.limbs@, decimals),
{
    let amount = ethers::types::U256(balance.limbs);
    match ethers::core::utils::format_units(amount, decimals as u32) {
        Ok(s) => Ok(s),
        Err(e) => Err(format!("{e}")),
    }
}

/// Decides what follows the decimals read: a failed read is rendered as
/// its error line; otherwise the balance is scaled by the reported
/// decimals and rendered, with a decimals count too large to scale by
/// (78 digits or more) rendered as a formatting failure.
pub fn after_decimals(wallet: &Address, balance: &RawBalance, r: Result<u8, FetchError>) -> (text:
    String)
    requires
        wallet.wf(),
    ensures
        text@.len() > 0,
        r matches Result::Err(e) ==> text@ == fetch_error_text(e),
        r matches Result::Ok(d) ==> (d < 78 ==> text@ == balance_text(
            wallet.bytes@,
            units_text(balance.limbs@, d),
        )) && (d >= 78 ==> text@.len() >= "Failed to format units: "@.len() && text@.subrange(
            0,
            "Failed to format units: "@.len() as int,
        ) == "Failed to format units: "@),
    {
    match r {
        Result::Err(e) => fetch_error_message(&e),
        Result::Ok(d) => {
            match format_units_call(balance, d) {
                Result::Ok(units) => balance_message(wallet, units.as_str()),
                Result::Err(detail) => {
                    let text = fetch_error_message(&FetchError::Format(detail));
                    proof {
                        assert(text@.subrange(0, "Failed to format units: "@.len() as int)
                            =~= "Failed to format units: "@);
                    }
                    text
                },
            }
        },
    }
}

} // verus!
