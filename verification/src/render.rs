//! Rendering as a pure function of the session state: each screen is
//! described as the text to draw — title, marked option lines, the
//! input buffer, the rotating hint, or the balance text. Drawing the
//! description is the caller's; nothing here touches a terminal.

use vstd::prelude::*;
use vstd::string::*;
use crate::app::{advance_index, App, AppState};

verus! {

/// How many hint messages rotate on the address screen.
pub const HINT_COUNT: usize = 4;

/// The rotating placeholder hint shown while waiting for input.
pub open spec fn hint_text(i: int) -> Seq<char> {
    if i == 0 {
        "Insira sua carteira Ethereum..."@
    } else if i == 1 {
        "Insira sua carteira Ethereum."@
    } else if i == 2 {
        "Insira sua carteira Ethereum.."@
    } else {
        "Insira sua carteira Ethereum..."@
    }
}

/// The rotating placeholder hint shown while waiting for input.
pub fn hint_message(i: usize) -> (r: &'static str)
    requires
        i < HINT_COUNT,
    ensures
        r@ == hint_text(i as int),
{
    if i == 0 {
        "Insira sua carteira Ethereum..."
    } else if i == 1 {
        "Insira sua carteira Ethereum."
    } else if i == 2 {
        "Insira sua carteira Ethereum.."
    } else {
        "Insira sua carteira Ethereum..."
    }
}

/// The hint index moved one message onward, wrapping at the end.
pub fn advance_hint(i: usize) -> (r: usize)
    requires
        i < HINT_COUNT,
    ensures
        r == advance_index(i as nat, HINT_COUNT as nat),
        r < HINT_COUNT,
{
    if i + 1 < HINT_COUNT {
        i + 1
    } else {
        0
    }
}

/// Whether a full tick interval has elapsed since the hint last moved,
/// by monotonic-clock comparison. The hint advances at most once per
/// elapsed interval, however many loop iterations fall inside it.
pub fn hint_rotation_due(elapsed_ms: u64, tick_ms: u64) -> (r: bool)
    ensures
        r == (elapsed_ms >= tick_ms),
{
    elapsed_ms >= tick_ms
}

/// One line of the network list: the name under the cursor carries the
/// selection marker, every other name a plain dash.
pub open spec fn marked_line(name: Seq<char>, selected: bool) -> Seq<char> {
    if selected {
        ">> "@ + name
    } else {
        "- "@ + name
    }
}

/// What one loop tick draws: a description of the active screen.
pub enum RenderModel {
    /// The network list: its title, one marked line per option, and the
    /// selected index.
    SelectScreen { title: String, lines: Vec<String>, selected: usize },
    /// The address prompt: its title, the input so far, the rotating
    /// hint, and the inline validation message, possibly empty.
    AddressScreen { title: String, input: String, hint: String, error: String },
    /// The balance screen: its title and the balance or error text.
    BalanceScreen { title: String, balance: String },
}

/// Describes the active screen. A pure function of the session state
/// and the hint index: rendering twice from the same state draws the
/// same thing, and nothing in the state changes.
pub fn render(app: &App, hint_idx: usize) -> (m: RenderModel)
    requires
        app.wf(),
        hint_idx < HINT_COUNT,
    ensures
        app.state is SelectNetwork ==> (m matches RenderModel::SelectScreen {
            title,
            lines,
            selected,
        } && title@ == "Escolha sua rede blockchain:"@ && selected == app.selected && lines@.len()
            == app.items@.len() && (forall|i: int|
            0 <= i < lines@.len() ==> #[trigger] lines@[i]@ == marked_line(
                app.items@[i]@,
                i == app.selected as int,
            ))),
        app.state is EnterAddress ==> (m matches RenderModel::AddressScreen {
            title,
            input,
            hint,
            error,
        } && title@ == "Digite o endereço da wallet:"@ && input@ == app.address_input@ && hint@
            == hint_text(hint_idx as int) && error@ == app.input_error@),
        app.state is ShowBalances ==> (m matches RenderModel::BalanceScreen { title, balance }
            && title@ == "Saldo da Wallet"@ && balance@ == app.balance_output@),
{
    match app.state {
        AppState::SelectNetwork => {
            let mut lines: Vec<String> = Vec::new();
            let mut i: usize = 0;
            while i < app.items.len()
                invariant
                    0 <= i <= app.items@.len(),
                    lines@.len() == i,
                    forall|j: int|
                        0 <= j < i ==> #[trigger] lines@[j]@ == marked_line(
                            app.items@[j]@,
                            j == app.selected as int,
                        ),
                decreases app.items@.len() - i,
            {
                let name = app.items[i];
                let mut line: String = if i == app.selected {
                    ">> ".to_owned()
                } else {
                    "- ".to_owned()
                };
                line.append(name);
                lines.push(line);
                i = i + 1;
            }
            RenderModel::SelectScreen {
                title: "Escolha sua rede blockchain:".to_owned(),
                lines,
                selected: app.selected,
            }
        },
        AppState::EnterAddress => RenderModel::AddressScreen {
            title: "Digite o endereço da wallet:".to_owned(),
            input: app.address_input.clone(),
            hint: hint_message(hint_idx).to_owned(),
            error: app.input_error.clone(),
        },
        AppState::ShowBalances => RenderModel::BalanceScreen {
            title: "Saldo da Wallet".to_owned(),
            balance: app.balance_output.clone(),
        },
    }
}

} // verus!
