//! Setup flow state machine: a linear sequence of steps the operator walks
//! through once, building a configuration and an identity.
//!
//! Unlike the console's tabs, the steps do not wrap: stepping back from
//! the first or forward from the last stays put, and confirming on the
//! summary step finishes the flow.

use vstd::prelude::*;
use vstd::string::*;

use crate::config::{
    config_is_default, identity_wf, MaculaConfig, MeshIdentity, NetworkConfig, PortalToken,
};
use crate::controller::Key;
use crate::text::push_char;

verus! {

/// One step of the linear setup sequence.
#[derive(Debug, Clone, Copy, PartialEq, Eq, Structural)]
pub enum Step {
    Welcome,
    Network,
    Identity,
    Realm,
    Portal,
    Summary,
}

impl Step {
    /// The fixed step ordering.
    pub fn all() -> (r: [Step; 6])
        ensures
            r@ == seq![
                Step::Welcome,
                Step::Network,
                Step::Identity,
                Step::Realm,
                Step::Portal,
                Step::Summary,
            ],
    {
        let r = [
            Step::Welcome,
            Step::Network,
            Step::Identity,
            Step::Realm,
            Step::Portal,
            Step::Summary,
        ];
        proof {
            assert(r@ =~= seq![
                Step::Welcome,
                Step::Network,
                Step::Identity,
                Step::Realm,
                Step::Portal,
                Step::Summary,
            ]);
        }
        r
    }

    /// Position of this step in the fixed ordering.
    pub open spec fn spec_index(self) -> int {
        match self {
            Step::Welcome => 0,
            Step::Network => 1,
            Step::Identity => 2,
            Step::Realm => 3,
            Step::Portal => 4,
            Step::Summary => 5,
        }
    }

    /// Position of this step in the fixed ordering.
    pub fn index(&self) -> (i: usize)
        ensures
            i == self.spec_index(),
    {
        match self {
            Step::Welcome => 0,
            Step::Network => 1,
            Step::Identity => 2,
            Step::Realm => 3,
            Step::Portal => 4,
            Step::Summary => 5,
        }
    }

    /// Display title of this step.
    pub open spec fn spec_title(self) -> Seq<char> {
        match self {
            Step::Welcome => "Welcome"@,
            Step::Network => "Network"@,
            Step::Identity => "Identity"@,
            Step::Realm => "Realm"@,
            Step::Portal => "Portal"@,
            Step::Summary => "Summary"@,
        }
    }

    /// Display title of this step.
    pub fn title(&self) -> (t: &'static str)
        ensures
            t@ == self.spec_title(),
    {
        match self {
            Step::Welcome => "Welcome",
            Step::Network => "Network",
            Step::Identity => "Identity",
            Step::Realm => "Realm",
            Step::Portal => "Portal",
            Step::Summary => "Summary",
        }
    }
}

/// The step after this one; the last step stays put.
pub open spec fn spec_next_step(s: Step) -> Step {
    match s {
        Step::Welcome => Step::Network,
        Step::Network => Step::Identity,
        Step::Identity => Step::Realm,
        Step::Realm => Step::Portal,
        Step::Portal => Step::Summary,
        Step::Summary => Step::Summary,
    }
}

/// The step before this one; the first step stays put.
pub open spec fn spec_prev_step(s: Step) -> Step {
    match s {
        Step::Welcome => Step::Welcome,
        Step::Network => Step::Welcome,
        Step::Identity => Step::Network,
        Step::Realm => Step::Identity,
        Step::Portal => Step::Realm,
        Step::Summary => Step::Portal,
    }
}

/// An ASCII letter raised to uppercase, anything else kept.
pub open spec fn upper_char(c: char) -> char {
    if 'a' <= c && c <= 'z' {
        (((c as u8) - 32) as char)
    } else {
        c
    }
}

fn upper_char_exec(c: char) -> (r: char)
    ensures
        r == upper_char(c),
{
    if 'a' <= c && c <= 'z' {
        ((c as u8) - 32) as char
    } else {
        c
    }
}

/// The whole setup-flow state, abstractly.
#[verifier::ext_equal]
pub ghost struct WizardState {
    pub step: Step,
    pub should_quit: bool,
    pub config: MaculaConfig,
    pub identity: MeshIdentity,
    pub portal_token: Option<PortalToken>,
    pub portal_url: String,
    pub dhcp: bool,
    pub pairing_code: Seq<char>,
    pub pairing: bool,
    pub pairing_error: Option<String>,
    pub skip_portal: bool,
}

/// Setup-flow state: the current step, the configuration and identity
/// being built, and the per-step toggles and inputs.
#[derive(Debug)]
pub struct App {
    pub step: Step,
    pub should_quit: bool,
    pub config: MaculaConfig,
    pub identity: MeshIdentity,
    pub portal_token: Option<PortalToken>,
    pub portal_url: String,
    /// Network step: automatic addressing selected.
    pub dhcp: bool,
    /// Portal step: the pairing code typed so far, uppercased.
    pub pairing_code: String,
    /// Portal step: a pairing attempt is in flight.
    pub pairing: bool,
    /// Portal step: the last pairing failure, for display.
    pub pairing_error: Option<String>,
    /// Portal step: skip pairing selected.
    pub skip_portal: bool,
}

impl View for App {
    type V = WizardState;

    open spec fn view(&self) -> WizardState {
        WizardState {
            step: self.step,
            should_quit: self.should_quit,
            config: self.config,
            identity: self.identity,
            portal_token: self.portal_token,
            portal_url: self.portal_url,
            dhcp: self.dhcp,
            pairing_code: self.pairing_code@,
            pairing: self.pairing,
            pairing_error: self.pairing_error,
            skip_portal: self.skip_portal,
        }
    }
}

/// The state after one keypress of the setup flow: quit keys always quit,
/// the arrows walk the linear sequence, the toggle key flips the current
/// step's option, and other characters feed the pairing code while the
/// portal step is set to pair.
pub open spec fn wizard_key_step(s: WizardState, key: Key) -> WizardState {
    if key == Key::Char('q') || key == Key::Esc {
        WizardState { should_quit: true, ..s }
    } else if key == Key::Enter || key == Key::Right {
        if s.step == Step::Summary {
            WizardState { should_quit: true, ..s }
        } else {
            WizardState { step: spec_next_step(s.step), ..s }
        }
    } else if key == Key::Left || key == Key::Backspace {
        WizardState { step: spec_prev_step(s.step), ..s }
    } else if key == Key::Tab {
        match s.step {
            Step::Network => WizardState {
                dhcp: !s.dhcp,
                config: MaculaConfig {
                    network: NetworkConfig { dhcp: !s.dhcp, ..s.config.network },
                    ..s.config
                },
                ..s
            },
            Step::Portal => WizardState { skip_portal: !s.skip_portal, ..s },
            _ => s,
        }
    } else {
        match key {
            Key::Char(c) => if s.step == Step::Portal && !s.skip_portal {
                WizardState { pairing_code: s.pairing_code.push(upper_char(c)), ..s }
            } else {
                s
            },
            _ => s,
        }
    }
}

impl App {
    /// A fresh setup flow: first step, default configuration, a newly
    /// generated identity, no pairing yet, automatic addressing selected.
    pub fn new(portal_url: &str) -> (r: Self)
        ensures
            r.step == Step::Welcome,
            !r.should_quit,
            config_is_default(r.config),
            identity_wf(r.identity),
            r.portal_token is None,
            r.portal_url@ == portal_url@,
            r.dhcp,
            r.pairing_code@ == Seq::<char>::empty(),
            !r.pairing,
            r.pairing_error is None,
            !r.skip_portal,
    {
        App {
            step: Step::Welcome,
            should_quit: false,
            config: MaculaConfig::default(),
            identity: MeshIdentity::generate(),
            portal_token: None,
            portal_url: String::from_str(portal_url),
            dhcp: true,
            pairing_code: String::new(),
            pairing: false,
            pairing_error: None,
            skip_portal: false,
        }
    }

    /// Advance to the next step; the last step stays put.
    pub fn next_step(&mut self)
        ensures
            final(self)@ == (WizardState { step: spec_next_step(old(self)@.step), ..old(self)@ }),
    {
        let steps = Step::all();
        let current = self.step.index();
        if current + 1 < 6 {
            self.step = steps[current + 1];
        }
    }

    /// Go back to the previous step; the first step stays put.
    pub fn prev_step(&mut self)
        ensures
            final(self)@ == (WizardState { step: spec_prev_step(old(self)@.step), ..old(self)@ }),
    {
        let steps = Step::all();
        let current = self.step.index();
        if current > 0 {
            self.step = steps[current - 1];
        }
    }

    /// Handle one keypress of the setup flow.
    pub fn handle_key(&mut self, key: Key)
        ensures
            final(self)@ == wizard_key_step(old(self)@, key),
    {
        match key {
            Key::Char('q') | Key::Esc => {
                self.should_quit = true;
                return ;
            },
            Key::Enter | Key::Right => {
                if self.step == Step::Summary {
                    self.should_quit = true;
                } else {
                    self.next_step();
                }
                return ;
            },
            Key::Left | Key::Backspace => {
                self.prev_step();
                return ;
            },
            Key::Tab => {
                match self.step {
                    Step::Network => {
                        self.dhcp = !self.dhcp;
                        self.config.network.dhcp = self.dhcp;
                    },
                    Step::Portal => {
                        self.skip_portal = !self.skip_portal;
                    },
                    _ => {},
                }
                return ;
            },
            Key::Char(c) => {
                if self.step == Step::Portal && !self.skip_portal {
                    push_char(&mut self.pairing_code, upper_char_exec(c));
                }
            },
            _ => {},
        }
    }
}

/// The progress marker shown before a step: done, current, or pending.
pub open spec fn spec_step_marker(s: Step, current: Step) -> Seq<char> {
    if s.spec_index() < current.spec_index() {
        "[x]"@
    } else if s == current {
        "[>]"@
    } else {
        "[ ]"@
    }
}

/// The progress marker shown before a step.
pub fn step_marker(s: Step, current: Step) -> (r: &'static str)
    ensures
        r@ == spec_step_marker(s, current),
{
    if s.index() < current.index() {
        "[x]"
    } else if s.index() == current.index() {
        proof {
            assert(s == current);
        }
        "[>]"
    } else {
        "[ ]"
    }
}

/// The checkbox shown before a toggle option.
pub open spec fn spec_checkbox(on: bool) -> Seq<char> {
    if on {
        "[x]"@
    } else {
        "[ ]"@
    }
}

/// The checkbox shown before a toggle option.
pub fn checkbox(on: bool) -> (r: &'static str)
    ensures
        r@ == spec_checkbox(on),
{
    if on {
        "[x]"
    } else {
        "[ ]"
    }
}

/// The summary word for the chosen network mode.
pub fn network_mode_label(dhcp: bool) -> (r: &'static str)
    ensures
        r@ == if dhcp {
            "DHCP"@
        } else {
            "Static"@
        },
{
    if dhcp {
        "DHCP"
    } else {
        "Static"
    }
}

/// The summary word for the pairing outcome.
pub fn paired_label(paired: bool) -> (r: &'static str)
    ensures
        r@ == if paired {
            "Paired"@
        } else {
            "Not paired"@
        },
{
    if paired {
        "Paired"
    } else {
        "Not paired"
    }
}

/// The pairing code as displayed: a blank pattern until something is
/// typed.
pub fn pairing_code_display(code: &str) -> (r: String)
    ensures
        r@ == if code@.len() == 0 {
            "___-___"@
        } else {
            code@
        },
{
    if code.unicode_len() == 0 {
        String::from_str("___-___")
    } else {
        String::from_str(code)
    }
}

} // verus!
