use vstd::prelude::*;

use crate::action::TelnetAction;
use crate::frame::TelnetFrame;
use crate::negotiation::q_intent;
use crate::negotiation::q_receive;
use crate::negotiation::spec_intent;
use crate::negotiation::spec_receive;
use crate::negotiation::NegotiationState;
use crate::negotiation::QStep;
use crate::option::spec_option_code;
use crate::option::TelnetOption;
use crate::options::TerminalEndpoint;
use crate::options::TerminalOptionState;

verus! {

/// A caller asked to open negotiation for an option the library does not
/// support.
#[derive(Clone, Copy, Debug, Eq, PartialEq, Structural)]
pub struct ConfigurationError;

/// A contradictory local request, or a peer reply that violates the
/// protocol; the option's state says what the engine fell back to.
#[derive(Clone, Copy, Debug, Eq, PartialEq, Structural)]
pub struct NegotiationError;

/// Everything the engine tracks for one option: whether policy allows each
/// direction, and the Q-method state of each direction.
#[derive(Clone, Copy, Debug, Eq, PartialEq, Structural)]
pub struct OptionState {
    /// Policy: the caller permits this side to perform the option.
    pub local_allowed: bool,
    /// Policy: the caller permits the peer to perform the option.
    pub remote_allowed: bool,
    /// Negotiation state of the local direction (we perform the option).
    pub local: NegotiationState,
    /// Negotiation state of the remote direction (the peer performs it).
    pub remote: NegotiationState,
}

/// The state a fresh table gives every option: nothing allowed, nothing
/// negotiated.
pub open spec fn spec_default_option_state() -> OptionState {
    OptionState {
        local_allowed: false,
        remote_allowed: false,
        local: NegotiationState::No,
        remote: NegotiationState::No,
    }
}

/// Whether the library itself can perform `option` locally.
pub open spec fn spec_supported_local(option: TelnetOption) -> bool {
    option == TelnetOption::TransmitBinary
}

/// Whether the library supports the peer performing `option`.
pub open spec fn spec_supported_remote(option: TelnetOption) -> bool {
    option == TelnetOption::TransmitBinary
}

/// Policy permits enabling the local direction: supported by the library
/// and allowed by the caller.
pub open spec fn spec_allowed_local(cfg: Seq<OptionState>, option: TelnetOption) -> bool {
    spec_supported_local(option) && cfg[spec_option_code(option) as int].local_allowed
}

/// Policy permits enabling the remote direction.
pub open spec fn spec_allowed_remote(cfg: Seq<OptionState>, option: TelnetOption) -> bool {
    spec_supported_remote(option) && cfg[spec_option_code(option) as int].remote_allowed
}

/// The table and reply after a local intent for one direction of one
/// option.  `local_track` selects the direction; `enable` the intent.
pub open spec fn spec_intent_event(
    cfg: Seq<OptionState>,
    option: TelnetOption,
    local_track: bool,
    enable: bool,
) -> (Seq<OptionState>, Result<Option<TelnetFrame>, NegotiationError>) {
    let code = spec_option_code(option);
    let entry = cfg[code as int];
    let step = if local_track {
        spec_intent(entry.local, enable)
    } else {
        spec_intent(entry.remote, enable)
    };
    let updated = if local_track {
        OptionState { local: step.next, ..entry }
    } else {
        OptionState { remote: step.next, ..entry }
    };
    (cfg.update(code as int, updated), spec_step_result(step, code, local_track))
}

/// The table and reply after a received reply for one direction of one
/// option.  `local_track` selects the direction; `positive` the reply.
pub open spec fn spec_receive_event(
    cfg: Seq<OptionState>,
    option: TelnetOption,
    local_track: bool,
    positive: bool,
) -> (Seq<OptionState>, Result<Option<TelnetFrame>, NegotiationError>) {
    let code = spec_option_code(option);
    let entry = cfg[code as int];
    let allowed = if local_track {
        spec_allowed_local(cfg, option)
    } else {
        spec_allowed_remote(cfg, option)
    };
    let step = if local_track {
        spec_receive(entry.local, positive, allowed)
    } else {
        spec_receive(entry.remote, positive, allowed)
    };
    let updated = if local_track {
        OptionState { local: step.next, ..entry }
    } else {
        OptionState { remote: step.next, ..entry }
    };
    (cfg.update(code as int, updated), spec_step_result(step, code, local_track))
}

/// Turn one Q-method step into the engine's reply: its error, or the frame
/// to emit - WILL/WONT about the local direction, DO/DONT about the remote.
pub open spec fn spec_step_result(step: QStep, code: u8, local_track: bool) -> Result<
    Option<TelnetFrame>,
    NegotiationError,
> {
    if step.error {
        Err(NegotiationError)
    } else {
        Ok(
            match step.emit {
                Some(positive) => if local_track {
                    if positive {
                        Some(TelnetFrame::Will(code))
                    } else {
                        Some(TelnetFrame::Wont(code))
                    }
                } else {
                    if positive {
                        Some(TelnetFrame::Do(code))
                    } else {
                        Some(TelnetFrame::Dont(code))
                    }
                },
                None => None,
            },
        )
    }
}

/// The Q-method option table: for each of the 256 option codes, the policy
/// flags and the negotiation state of both directions.
pub struct TerminalConfiguration {
    options: Vec<OptionState>,
}

impl View for TerminalConfiguration {
    type V = Seq<OptionState>;

    closed spec fn view(&self) -> Seq<OptionState> {
        self.options@
    }
}

impl TerminalConfiguration {
    /// Every option code has exactly one entry.
    pub open spec fn wf(&self) -> bool {
        self@.len() == 256
    }

    /// A fresh table: every option disallowed and disabled in both
    /// directions.
    pub fn new() -> (r: TerminalConfiguration)
        ensures
            r.wf(),
            forall|i: int| 0 <= i < 256 ==> r@[i] == spec_default_option_state(),
    {
        let mut options: Vec<OptionState> = Vec::new();
        let mut i: usize = 0;
        while i < 256
            invariant
                i <= 256,
                options@.len() == i,
                forall|j: int| 0 <= j < i ==> options@[j] == spec_default_option_state(),
            decreases 256 - i,
        {
            options.push(
                OptionState {
                    local_allowed: false,
                    remote_allowed: false,
                    local: NegotiationState::No,
                    remote: NegotiationState::No,
                },
            );
            i = i + 1;
        }
        TerminalConfiguration { options }
    }

    /// Does the library support performing this option itself?
    pub fn option_local_supported(&self, option: TelnetOption) -> (r: bool)
        ensures
            r == spec_supported_local(option),
    {
        option.support_local()
    }

    /// Does the library support the peer performing this option?
    pub fn option_remote_supported(&self, option: TelnetOption) -> (r: bool)
        ensures
            r == spec_supported_remote(option),
    {
        option.support_remote()
    }

    /// Permit negotiation of the local direction.  Fails, changing nothing,
    /// for an option the library cannot perform.
    pub fn allow_local(&mut self, option: TelnetOption) -> (r: Result<(), ConfigurationError>)
        requires
            old(self).wf(),
        ensures
            final(self).wf(),
            spec_supported_local(option) ==> {
                let code = spec_option_code(option);
                &&& final(self)@ == old(self)@.update(
                    code as int,
                    OptionState { local_allowed: true, ..old(self)@[code as int] },
                )
                &&& r is Ok
            },
            !spec_supported_local(option) ==> final(self)@ == old(self)@ && r == Err::<
                (),
                ConfigurationError,
            >(ConfigurationError),
    {
        if option.support_local() {
            let code = u8::from(option);
            let idx = code as usize;
            let entry = self.options[idx];
            self.options.set(idx, OptionState { local_allowed: true, ..entry });
            Ok(())
        } else {
            Err(ConfigurationError)
        }
    }

    /// Permit negotiation of the remote direction.  Fails, changing
    /// nothing, for an option the library does not support remotely.
    pub fn allow_remote(&mut self, option: TelnetOption) -> (r: Result<(), ConfigurationError>)
        requires
            old(self).wf(),
        ensures
            final(self).wf(),
            spec_supported_remote(option) ==> {
                let code = spec_option_code(option);
                &&& final(self)@ == old(self)@.update(
                    code as int,
                    OptionState { remote_allowed: true, ..old(self)@[code as int] },
                )
                &&& r is Ok
            },
            !spec_supported_remote(option) ==> final(self)@ == old(self)@ && r == Err::<
                (),
                ConfigurationError,
            >(ConfigurationError),
    {
        if option.support_remote() {
            let code = u8::from(option);
            let idx = code as usize;
            let entry = self.options[idx];
            self.options.set(idx, OptionState { remote_allowed: true, ..entry });
            Ok(())
        } else {
            Err(ConfigurationError)
        }
    }

    /// Policy permits enabling the local direction.
    pub fn option_allowed_local(&self, option: TelnetOption) -> (r: bool)
        requires
            self.wf(),
        ensures
            r == spec_allowed_local(self@, option),
    {
        let idx = u8::from(option) as usize;
        option.support_local() && self.options[idx].local_allowed
    }

    /// Policy permits enabling the remote direction.
    pub fn option_allowed_remote(&self, option: TelnetOption) -> (r: bool)
        requires
            self.wf(),
        ensures
            r == spec_allowed_remote(self@, option),
    {
        let idx = u8::from(option) as usize;
        option.support_remote() && self.options[idx].remote_allowed
    }

    /// The local direction is negotiated and in force.
    pub fn option_enabled_local(&self, option: TelnetOption) -> (r: bool)
        requires
            self.wf(),
        ensures
            r == (self@[spec_option_code(option) as int].local == NegotiationState::Yes),
    {
        let idx = u8::from(option) as usize;
        self.options[idx].local == NegotiationState::Yes
    }

    /// The remote direction is negotiated and in force.
    pub fn option_enabled_remote(&self, option: TelnetOption) -> (r: bool)
        requires
            self.wf(),
        ensures
            r == (self@[spec_option_code(option) as int].remote == NegotiationState::Yes),
    {
        let idx = u8::from(option) as usize;
        self.options[idx].remote == NegotiationState::Yes
    }

    /// The policy classification of one direction of an option.
    pub fn policy_for(&self, option: TelnetOption, endpoint: TerminalEndpoint) -> (r: TerminalOptionState)
        requires
            self.wf(),
        ensures
            r == spec_policy_for(self@, option, endpoint),
    {
        let idx = u8::from(option) as usize;
        let entry = self.options[idx];
        match endpoint {
            TerminalEndpoint::Local => {
                if entry.local == NegotiationState::Yes {
                    TerminalOptionState::Enabled
                } else if option.support_local() && entry.local_allowed {
                    TerminalOptionState::Allowed
                } else if option.support_local() {
                    TerminalOptionState::Supported
                } else {
                    TerminalOptionState::Unsupported
                }
            },
            TerminalEndpoint::Remote => {
                if entry.remote == NegotiationState::Yes {
                    TerminalOptionState::Enabled
                } else if option.support_remote() && entry.remote_allowed {
                    TerminalOptionState::Allowed
                } else if option.support_remote() {
                    TerminalOptionState::Supported
                } else {
                    TerminalOptionState::Unsupported
                }
            },
        }
    }

    /// Ask to enable the local direction: emits WILL from a settled No,
    /// queues or rejects while negotiation is in flight.
    pub fn enable_local(&mut self, option: TelnetOption) -> (r: Result<Option<TelnetFrame>, NegotiationError>)
        requires
            old(self).wf(),
        ensures
            final(self).wf(),
            (final(self)@, r) == spec_intent_event(old(self)@, option, true, true),
    {
        let code = u8::from(option);
        let idx = code as usize;
        let entry = self.options[idx];
        let step = q_intent(entry.local, true);
        self.options.set(idx, OptionState { local: step.next, ..entry });
        step_result(step, code, true)
    }

    /// Ask to disable the local direction: emits WONT from a settled Yes.
    pub fn disable_local(&mut self, option: TelnetOption) -> (r: Result<
        Option<TelnetFrame>,
        NegotiationError,
    >)
        requires
            old(self).wf(),
        ensures
            final(self).wf(),
            (final(self)@, r) == spec_intent_event(old(self)@, option, true, false),
    {
        let code = u8::from(option);
        let idx = code as usize;
        let entry = self.options[idx];
        let step = q_intent(entry.local, false);
        self.options.set(idx, OptionState { local: step.next, ..entry });
        step_result(step, code, true)
    }

    /// Ask the peer to enable its direction: emits DO from a settled No.
    pub fn enable_remote(&mut self, option: TelnetOption) -> (r: Result<
        Option<TelnetFrame>,
        NegotiationError,
    >)
        requires
            old(self).wf(),
        ensures
            final(self).wf(),
            (final(self)@, r) == spec_intent_event(old(self)@, option, false, true),
    {
        let code = u8::from(option);
        let idx = code as usize;
        let entry = self.options[idx];
        let step = q_intent(entry.remote, true);
        self.options.set(idx, OptionState { remote: step.next, ..entry });
        step_result(step, code, false)
    }

    /// Ask the peer to disable its direction: emits DONT from a settled
    /// Yes.
    pub fn disable_remote(&mut self, option: TelnetOption) -> (r: Result<
        Option<TelnetFrame>,
        NegotiationError,
    >)
        requires
            old(self).wf(),
        ensures
            final(self).wf(),
            (final(self)@, r) == spec_intent_event(old(self)@, option, false, false),
    {
        let code = u8::from(option);
        let idx = code as usize;
        let entry = self.options[idx];
        let step = q_intent(entry.remote, false);
        self.options.set(idx, OptionState { remote: step.next, ..entry });
        step_result(step, code, false)
    }

    /// A DO arrived: the peer asks us to perform the option - a positive
    /// reply for the local direction.
    pub fn receive_do(&mut self, option: TelnetOption) -> (r: Result<Option<TelnetFrame>, NegotiationError>)
        requires
            old(self).wf(),
        ensures
            final(self).wf(),
            (final(self)@, r) == spec_receive_event(old(self)@, option, true, true),
    {
        let allowed = self.option_allowed_local(option);
        let code = u8::from(option);
        let idx = code as usize;
        let entry = self.options[idx];
        let step = q_receive(entry.local, true, allowed);
        self.options.set(idx, OptionState { local: step.next, ..entry });
        step_result(step, code, true)
    }

    /// A DONT arrived: the peer forbids us to perform the option - a
    /// negative reply for the local direction.
    pub fn receive_dont(&mut self, option: TelnetOption) -> (r: Result<
        Option<TelnetFrame>,
        NegotiationError,
    >)
        requires
            old(self).wf(),
        ensures
            final(self).wf(),
            (final(self)@, r) == spec_receive_event(old(self)@, option, true, false),
    {
        let allowed = self.option_allowed_local(option);
        let code = u8::from(option);
        let idx = code as usize;
        let entry = self.options[idx];
        let step = q_receive(entry.local, false, allowed);
        self.options.set(idx, OptionState { local: step.next, ..entry });
        step_result(step, code, true)
    }

    /// A WILL arrived: the peer offers to perform the option - a positive
    /// reply for the remote direction.
    pub fn receive_dowill(&mut self, option: TelnetOption) -> (r: Result<
        Option<TelnetFrame>,
        NegotiationError,
    >)
        requires
            old(self).wf(),
        ensures
            final(self).wf(),
            (final(self)@, r) == spec_receive_event(old(self)@, option, false, true),
    {
        let allowed = self.option_allowed_remote(option);
        let code = u8::from(option);
        let idx = code as usize;
        let entry = self.options[idx];
        let step = q_receive(entry.remote, true, allowed);
        self.options.set(idx, OptionState { remote: step.next, ..entry });
        step_result(step, code, false)
    }

    /// A WONT arrived: the peer refuses to perform the option - a negative
    /// reply for the remote direction.
    pub fn receive_wont(&mut self, option: TelnetOption) -> (r: Result<
        Option<TelnetFrame>,
        NegotiationError,
    >)
        requires
            old(self).wf(),
        ensures
            final(self).wf(),
            (final(self)@, r) == spec_receive_event(old(self)@, option, false, false),
    {
        let allowed = self.option_allowed_remote(option);
        let code = u8::from(option);
        let idx = code as usize;
        let entry = self.options[idx];
        let step = q_receive(entry.remote, false, allowed);
        self.options.set(idx, OptionState { remote: step.next, ..entry });
        step_result(step, code, false)
    }

    /// Handle one incoming negotiation action.  WILL and WONT speak about
    /// the peer's direction, DO and DONT about ours; an unknown action is
    /// ignored.
    pub fn handle(&mut self, action: TelnetAction, option: TelnetOption) -> (r: Result<
        Option<TelnetFrame>,
        NegotiationError,
    >)
        requires
            old(self).wf(),
        ensures
            final(self).wf(),
            match action {
                TelnetAction::Do => (final(self)@, r) == spec_receive_event(old(self)@, option, true, true),
                TelnetAction::Dont => (final(self)@, r) == spec_receive_event(
                    old(self)@,
                    option,
                    true,
                    false,
                ),
                TelnetAction::Will => (final(self)@, r) == spec_receive_event(
                    old(self)@,
                    option,
                    false,
                    true,
                ),
                TelnetAction::Wont => (final(self)@, r) == spec_receive_event(
                    old(self)@,
                    option,
                    false,
                    false,
                ),
                TelnetAction::Unknown(_) => final(self)@ == old(self)@ && r == Ok::<
                    Option<TelnetFrame>,
                    NegotiationError,
                >(None),
            },
    {
        match action {
            TelnetAction::Do => self.receive_do(option),
            TelnetAction::Dont => self.receive_dont(option),
            TelnetAction::Will => self.receive_dowill(option),
            TelnetAction::Wont => self.receive_wont(option),
            TelnetAction::Unknown(_) => Ok(None),
        }
    }
}

impl Default for TerminalConfiguration {
    /// A fresh table, as `new` builds it.
    fn default() -> (r: TerminalConfiguration)
        ensures
            r.wf(),
            forall|i: int| 0 <= i < 256 ==> r@[i] == spec_default_option_state(),
    {
        TerminalConfiguration::new()
    }
}

/// The policy classification `policy_for` reads.
pub open spec fn spec_policy_for(
    cfg: Seq<OptionState>,
    option: TelnetOption,
    endpoint: TerminalEndpoint,
) -> TerminalOptionState {
    let entry = cfg[spec_option_code(option) as int];
    match endpoint {
        TerminalEndpoint::Local => {
            if entry.local == NegotiationState::Yes {
                TerminalOptionState::Enabled
            } else if spec_allowed_local(cfg, option) {
                TerminalOptionState::Allowed
            } else if spec_supported_local(option) {
                TerminalOptionState::Supported
            } else {
                TerminalOptionState::Unsupported
            }
        },
        TerminalEndpoint::Remote => {
            if entry.remote == NegotiationState::Yes {
                TerminalOptionState::Enabled
            } else if spec_allowed_remote(cfg, option) {
                TerminalOptionState::Allowed
            } else if spec_supported_remote(option) {
                TerminalOptionState::Supported
            } else {
                TerminalOptionState::Unsupported
            }
        },
    }
}

/// Turn one Q-method step into the engine's reply, as `spec_step_result`
/// states it.
fn step_result(step: QStep, code: u8, local_track: bool) -> (r: Result<Option<TelnetFrame>, NegotiationError>)
    ensures
        r == spec_step_result(step, code, local_track),
{
    if step.error {
        Err(NegotiationError)
    } else {
        Ok(
            match step.emit {
                Some(positive) => if local_track {
                    if positive {
                        Some(TelnetFrame::Will(code))
                    } else {
                        Some(TelnetFrame::Wont(code))
                    }
                } else {
                    if positive {
                        Some(TelnetFrame::Do(code))
                    } else {
                        Some(TelnetFrame::Dont(code))
                    }
                },
                None => None,
            },
        )
    }
}

} // verus!
