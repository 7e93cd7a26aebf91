//! The session state and its state machine: three screens, a selection
//! cursor over the fixed network list, the address input buffer, and the
//! dispatch of key events. Submitting a valid address yields a fetch
//! request for the caller to carry out; the caller reports the outcome
//! back through [`App::show_balance`].

use vstd::prelude::*;
use crate::address::{Address, addr_bytes_of, addr_text, is_valid_address_text, parse_address};
use crate::network::{Network, chain_id_at, contract_bytes_at, network_at};

verus! {

/// Which screen is active.
#[derive(Clone, Copy, Debug, PartialEq, Eq, Structural)]
pub enum AppState {
    SelectNetwork,
    EnterAddress,
    ShowBalances,
}

/// A key event, as the state machine sees it.
#[derive(Clone, Copy, Debug)]
pub enum Key {
    Char(char),
    Up,
    Down,
    Enter,
    Backspace,
    Esc,
    Other,
}

/// What the caller must do after a key was handled.
pub enum Step {
    /// Keep polling and rendering.
    Continue,
    /// Leave the interaction loop.
    Quit,
    /// Perform a balance fetch and report its outcome through
    /// [`App::show_balance`].
    Fetch(FetchRequest),
}

/// Everything a balance fetch needs: the chain to query, the wallet
/// whose balance is asked for, and the token contract to read.
pub struct FetchRequest {
    pub chain_id: u8,
    pub wallet: Address,
    pub contract: Address,
}

impl FetchRequest {
    pub open spec fn wf(&self) -> bool {
        &&& (self.chain_id == 1 || self.chain_id == 137 || self.chain_id == 10)
        &&& self.wallet.wf()
        &&& self.contract.wf()
    }
}

/// The selection cursor moved one step forward, wrapping at the end.
pub open spec fn advance_index(c: nat, len: nat) -> nat
    recommends
        len >= 1,
        c < len,
{
    if c + 1 < len {
        c + 1
    } else {
        0
    }
}

/// The selection cursor moved one step backward, wrapping at the start.
pub open spec fn retreat_index(c: nat, len: nat) -> nat
    recommends
        len >= 1,
        c < len,
{
    if c == 0 {
        (len - 1) as nat
    } else {
        (c - 1) as nat
    }
}

/// Law: advancing then retreating the cursor, or retreating then
/// advancing it, returns it to its starting index, for any option list
/// of length at least one.
pub proof fn lemma_selection_round_trip(c: nat, len: nat)
    requires
        len >= 1,
        c < len,
    ensures
        retreat_index(advance_index(c, len), len) == c,
        advance_index(retreat_index(c, len), len) == c,
{
}

/// The message shown inline when the submitted address does not parse.
pub open spec fn invalid_address_message() -> Seq<char> {
    "Invalid wallet address."@
}

/// The session's single mutable record.
pub struct App {
    /// The fixed, ordered list of selectable network names.
    pub items: Vec<&'static str>,
    /// The selection cursor: an index into `items`.
    pub selected: usize,
    /// The in-progress wallet-address input.
    pub address_input: String,
    /// The inline message shown when a submitted address did not parse.
    pub input_error: String,
    /// Which screen is active.
    pub state: AppState,
    /// The confirmed network, set once the user confirms a choice.
    pub selected_network: Option<Network>,
    /// The last balance text or error message.
    pub balance_output: String,
}

impl App {
    /// The session invariant: the cursor stays inside the fixed list, a
    /// network is held exactly on the screens that need one, and the
    /// balance text is populated only on the balance screen.
    pub open spec fn wf(&self) -> bool {
        &&& self.items@.len() == 3
        &&& self.items@[0]@ == "Ethereum"@
        &&& self.items@[1]@ == "Polygon"@
        &&& self.items@[2]@ == "Optimism"@
        &&& self.selected < self.items@.len()
        &&& (self.state is SelectNetwork ==> self.selected_network is None)
        &&& (self.state is SelectNetwork ==> self.address_input@.len() == 0)
        &&& (!(self.state is SelectNetwork) ==> self.selected_network is Some
            && self.selected_network->0.wf())
        &&& (!(self.state is ShowBalances) ==> self.balance_output@.len() == 0)
        &&& (!(self.state is EnterAddress) ==> self.input_error@.len() == 0)
    }

    /// A fresh session: network selection, cursor on the first entry,
    /// every buffer empty.
    pub fn new() -> (app: App)
        ensures
            app.wf(),
            app.state is SelectNetwork,
            app.selected == 0,
            app.selected_network is None,
            app.address_input@.len() == 0,
            app.input_error@.len() == 0,
            app.balance_output@.len() == 0,
    {
        App {
            items: vec!["Ethereum", "Polygon", "Optimism"],
            selected: 0,
            address_input: String::new(),
            input_error: String::new(),
            state: AppState::SelectNetwork,
            selected_network: None,
            balance_output: String::new(),
        }
    }

    /// Moves the selection cursor forward by one, wrapping at the end.
    pub fn next(&mut self)
        requires
            old(self).wf(),
        ensures
            final(self).wf(),
            final(self).selected == advance_index(
                old(self).selected as nat,
                old(self).items@.len(),
            ),
            *final(self) == (App { selected: final(self).selected, ..*old(self) }),
    {
        if self.selected + 1 < self.items.len() {
            self.selected = self.selected + 1;
        } else {
            self.selected = 0;
        }
    }

    /// Moves the selection cursor backward by one, wrapping at the start.
    pub fn previous(&mut self)
        requires
            old(self).wf(),
        ensures
            final(self).wf(),
            final(self).selected == retreat_index(
                old(self).selected as nat,
                old(self).items@.len(),
            ),
            *final(self) == (App { selected: final(self).selected, ..*old(self) }),
    {
        if self.selected == 0 {
            self.selected = self.items.len() - 1;
        } else {
            self.selected = self.selected - 1;
        }
    }

    /// Confirms the network at the given option index and moves to the
    /// address screen. The option list is closed, so an out-of-range
    /// index is a defect in the caller, not a recoverable input.
    pub fn confirm_network(&mut self, index: usize)
        requires
            old(self).wf(),
            old(self).state is SelectNetwork,
            index < old(self).items@.len(),
        ensures
            final(self).wf(),
            final(self).state is EnterAddress,
            final(self).selected_network is Some,
            final(self).selected_network->0.wf(),
            final(self).selected_network->0.spec_chain_id() == chain_id_at(index as int),
            final(self).selected_network->0.spec_contract_bytes() == contract_bytes_at(
                index as int,
            ),
            index == 0 ==> final(self).selected_network->0 is Ethereum,
            index == 1 ==> final(self).selected_network->0 is Polygon,
            index == 2 ==> final(self).selected_network->0 is Optimism,
            final(self).selected == old(self).selected,
            final(self).items@ == old(self).items@,
            final(self).address_input@ == old(self).address_input@,
            final(self).input_error@ == old(self).input_error@,
            final(self).balance_output@ == old(self).balance_output@,
    {
        self.selected_network = Some(network_at(index));
        self.state = AppState::EnterAddress;
    }

    /// Cancels back to network selection: the confirmed network, the
    /// address input, the inline message and the balance text are all
    /// cleared; the cursor keeps its position.
    pub fn reset_to_selection(&mut self)
        requires
            old(self).wf(),
        ensures
            final(self).wf(),
            final(self).state is SelectNetwork,
            final(self).selected_network is None,
            final(self).address_input@.len() == 0,
            final(self).input_error@.len() == 0,
            final(self).balance_output@.len() == 0,
            final(self).selected == old(self).selected,
            final(self).items@ == old(self).items@,
    {
        self.state = AppState::SelectNetwork;
        self.selected_network = None;
        self.address_input = String::new();
        self.input_error = String::new();
        self.balance_output = String::new();
    }

    /// Records the outcome of a fetch — the balance text or a readable
    /// error message — and moves to the balance screen.
    pub fn show_balance(&mut self, text: String)
        requires
            old(self).wf(),
            old(self).state is EnterAddress,
        ensures
            final(self).wf(),
            final(self).state is ShowBalances,
            final(self).balance_output@ == text@,
            final(self).selected_network == old(self).selected_network,
            final(self).address_input@ == old(self).address_input@,
            final(self).input_error@.len() == 0,
            final(self).selected == old(self).selected,
            final(self).items@ == old(self).items@,
    {
        self.balance_output = text;
        self.input_error = String::new();
        self.state = AppState::ShowBalances;
    }

    /// Handles the submit key on the address screen. A well-formed
    /// address yields the fetch request; anything else leaves the screen
    /// as it is and surfaces the inline validation message.
    fn submit(&mut self) -> (step: Step)
        requires
            old(self).wf(),
            old(self).state is EnterAddress,
        ensures
            final(self).wf(),
            final(self).state is EnterAddress,
            final(self).selected_network == old(self).selected_network,
            final(self).address_input@ == old(self).address_input@,
            final(self).balance_output@ == old(self).balance_output@,
            final(self).selected == old(self).selected,
            final(self).items@ == old(self).items@,
            is_valid_address_text(old(self).address_input@) ==> (step matches Step::Fetch(req)
                && req.wf() && req.chain_id == old(self).selected_network->0.spec_chain_id()
                && req.contract.bytes@ == old(self).selected_network->0.spec_contract_bytes()
                && req.wallet.bytes@ == addr_bytes_of(addr_text(old(self).address_input@))
                && final(self).input_error@.len() == 0),
            !is_valid_address_text(old(self).address_input@) ==> step is Continue && final(self).input_error@ == invalid_address_message(),
    {
        match parse_address(self.address_input.as_str()) {
            Some(wallet) => {
                self.input_error = String::new();
                let (chain_id, contract) = match &self.selected_network {
                    Some(net) => (net.chain_id(), net.contract().duplicate()),
                    None => unreached(),
                };
                Step::Fetch(FetchRequest { chain_id, wallet, contract })
            },
            None => {
                self.input_error = "Invalid wallet address.".to_owned();
                Step::Continue
            },
        }
    }

    /// Dispatches one key event according to the active screen, and says
    /// what the caller must do next. This is the whole transition table
    /// of the interaction loop:
    ///
    /// - network selection: `q` quits, up and down move the cursor with
    ///   wraparound, `e` confirms the network under the cursor and opens
    ///   the address screen;
    /// - address entry: printable characters and backspace edit the
    ///   buffer, escape cancels back to selection, enter validates the
    ///   buffer and either yields a fetch request or surfaces the inline
    ///   validation message;
    /// - balance display: `q` quits, escape cancels back to selection.
    ///
    /// Every other key leaves the state exactly as it was.
    pub fn handle_key(&mut self, key: Key) -> (step: Step)
        requires
            old(self).wf(),
        ensures
            final(self).wf(),
            final(self).items@ == old(self).items@,
            // network selection screen
            old(self).state is SelectNetwork && key is Char && key->0 == 'q' ==> step is Quit
                && *final(self) == *old(self),
            old(self).state is SelectNetwork && key is Down ==> step is Continue && final(self).selected == advance_index(old(self).selected as nat, old(self).items@.len())
                && *final(self) == (App { selected: final(self).selected, ..*old(self) }),
            old(self).state is SelectNetwork && key is Up ==> step is Continue && final(self).selected == retreat_index(old(self).selected as nat, old(self).items@.len())
                && *final(self) == (App { selected: final(self).selected, ..*old(self) }),
            old(self).state is SelectNetwork && key is Char && key->0 == 'e' ==> step is Continue
                && final(self).state is EnterAddress && final(self).selected_network is Some
                && final(self).selected_network->0.wf()
                && final(self).selected_network->0.spec_chain_id() == chain_id_at(
                old(self).selected as int,
            ) && final(self).selected_network->0.spec_contract_bytes() == contract_bytes_at(
                old(self).selected as int,
            ) && final(self).selected == old(self).selected && final(self).address_input@.len()
                == 0,
            old(self).state is SelectNetwork && !(key is Down) && !(key is Up) && !(key is Char
                && (key->0 == 'q' || key->0 == 'e')) ==> step is Continue && *final(self) == *old(self),
            // address entry screen
            old(self).state is EnterAddress && key is Char ==> step is Continue && final(self).state is EnterAddress && final(self).address_input@ == old(self).address_input@.push(key->0) && final(self).input_error@.len() == 0 && final(self).selected_network == old(self).selected_network && final(self).selected == old(self).selected && final(self).balance_output@ == old(self).balance_output@,
            old(self).state is EnterAddress && key is Backspace ==> step is Continue && final(self).state is EnterAddress && final(self).address_input@ == (if old(self).address_input@.len() > 0 {
                old(self).address_input@.drop_last()
            } else {
                old(self).address_input@
            }) && final(self).input_error@.len() == 0 && final(self).selected_network == old(self).selected_network && final(self).selected == old(self).selected && final(self).balance_output@ == old(self).balance_output@,
            old(self).state is EnterAddress && key is Esc ==> step is Continue && final(self).state
                is SelectNetwork && final(self).selected_network is None && final(self).address_input@.len() == 0 && final(self).input_error@.len() == 0 && final(self).balance_output@.len() == 0 && final(self).selected == old(self).selected,
            old(self).state is EnterAddress && key is Enter && is_valid_address_text(
                old(self).address_input@,
            ) ==> (step matches Step::Fetch(req) && req.wf() && req.chain_id == old(self).selected_network->0.spec_chain_id() && req.contract.bytes@ == old(self).selected_network->0.spec_contract_bytes() && req.wallet.bytes@ == addr_bytes_of(
                addr_text(old(self).address_input@),
            )) && final(self).state is EnterAddress && final(self).address_input@ == old(self).address_input@ && final(self).selected_network == old(self).selected_network
                && final(self).selected == old(self).selected,
            old(self).state is EnterAddress && key is Enter && !is_valid_address_text(
                old(self).address_input@,
            ) ==> step is Continue && final(self).state is EnterAddress && final(self).selected_network == old(self).selected_network && final(self).address_input@ == old(self).address_input@ && final(self).input_error@ == invalid_address_message() && final(self).selected == old(self).selected && final(self).balance_output@ == old(self).balance_output@,
            old(self).state is EnterAddress && !(key is Char) && !(key is Backspace) && !(key
                is Esc) && !(key is Enter) ==> step is Continue && *final(self) == *old(self),
            // balance screen
            old(self).state is ShowBalances && key is Char && key->0 == 'q' ==> step is Quit
                && *final(self) == *old(self),
            old(self).state is ShowBalances && key is Esc ==> step is Continue && final(self).state
                is SelectNetwork && final(self).selected_network is None && final(self).address_input@.len() == 0 && final(self).input_error@.len() == 0 && final(self).balance_output@.len() == 0 && final(self).selected == old(self).selected,
            old(self).state is ShowBalances && !(key is Esc) && !(key is Char && key->0 == 'q')
                ==> step is Continue && *final(self) == *old(self),
    {
        match self.state {
            AppState::SelectNetwork => match key {
                Key::Char(c) => {
                    if c == 'q' {
                        Step::Quit
                    } else if c == 'e' {
                        let i = self.selected;
                        self.confirm_network(i);
                        Step::Continue
                    } else {
                        Step::Continue
                    }
                },
                Key::Down => {
                    self.next();
                    Step::Continue
                },
                Key::Up => {
                    self.previous();
                    Step::Continue
                },
                _ => Step::Continue,
            },
            AppState::EnterAddress => match key {
                Key::Char(c) => {
                    self.address_input.push(c);
                    self.input_error = String::new();
                    Step::Continue
                },
                Key::Backspace => {
                    self.address_input.pop();
                    self.input_error = String::new();
                    Step::Continue
                },
                Key::Esc => {
                    self.reset_to_selection();
                    Step::Continue
                },
                Key::Enter => self.submit(),
                _ => Step::Continue,
            },
            AppState::ShowBalances => match key {
                Key::Char(c) => {
                    if c == 'q' {
                        Step::Quit
                    } else {
                        Step::Continue
                    }
                },
                Key::Esc => {
                    self.reset_to_selection();
                    Step::Continue
                },
                _ => Step::Continue,
            },
        }
    }
}

} // verus!
