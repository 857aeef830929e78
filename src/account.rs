//! Registration of this canister's account in the EVM canister: a check-and-set
//! at entry, four remote steps in order, and a rollback on any failure.

use crate::did::{Transaction, H160, U256};
use crate::error::Error;
use crate::evm_canister::REGISTRATION_FEE;
use vstd::prelude::*;

verus! {

/// Registration status of this canister's account.
#[derive(Debug, Default, Clone, Copy, PartialEq, Eq)]
pub enum AccountState {
    #[default]
    Unregistered,
    RegistrationInProgress,
    Registered(H160),
}

/// The step of a registration that awaits a reply.
#[derive(Debug, Clone, Copy, PartialEq, Eq)]
pub enum RegistrationStep {
    /// Awaits `is_address_registered` for the sender.
    CheckAddress,
    /// Awaits `mint_evm_tokens` of the registration fee to the sender.
    MintTokens,
    /// Awaits `register_ic_agent` with the caller's transaction.
    RegisterAgent,
    /// Awaits `verify_registration` with the caller's signing key.
    VerifyKey,
    /// The registration has ended.
    Finished,
}

/// A reply of the EVM canister to the step that a registration awaits.
#[derive(Debug, Clone, PartialEq, Eq)]
pub enum RegistrationEvent {
    /// Whether the sender's address is registered already.
    AddressChecked(bool),
    TokensMinted,
    AgentRegistered,
    KeyVerified,
    /// The call failed, in transport or in the EVM canister.
    Failed(Error),
}

impl RegistrationEvent {
    /// The event for the reply of `is_address_registered`.
    pub fn from_address_check(reply: Result<bool, Error>) -> (r: RegistrationEvent)
        ensures
            reply matches Ok(known) ==> r == RegistrationEvent::AddressChecked(known),
            reply matches Err(e) ==> r == RegistrationEvent::Failed(e),
    {
        match reply {
            Ok(known) => RegistrationEvent::AddressChecked(known),
            Err(e) => RegistrationEvent::Failed(e),
        }
    }

    /// The event for the reply of `mint_evm_tokens`.
    pub fn from_mint(reply: Result<U256, Error>) -> (r: RegistrationEvent)
        ensures
            reply is Ok ==> r == RegistrationEvent::TokensMinted,
            reply matches Err(e) ==> r == RegistrationEvent::Failed(e),
    {
        match reply {
            Ok(_) => RegistrationEvent::TokensMinted,
            Err(e) => RegistrationEvent::Failed(e),
        }
    }

    /// The event for the reply of `register_ic_agent`.
    pub fn from_agent_registration(reply: Result<(), Error>) -> (r: RegistrationEvent)
        ensures
            reply is Ok ==> r == RegistrationEvent::AgentRegistered,
            reply matches Err(e) ==> r == RegistrationEvent::Failed(e),
    {
        match reply {
            Ok(()) => RegistrationEvent::AgentRegistered,
            Err(e) => RegistrationEvent::Failed(e),
        }
    }

    /// The event for the reply of `verify_registration`.
    pub fn from_key_verification(reply: Result<(), Error>) -> (r: RegistrationEvent)
        ensures
            reply is Ok ==> r == RegistrationEvent::KeyVerified,
            reply matches Err(e) ==> r == RegistrationEvent::Failed(e),
    {
        match reply {
            Ok(()) => RegistrationEvent::KeyVerified,
            Err(e) => RegistrationEvent::Failed(e),
        }
    }
}

/// What the caller does next for a registration.
#[derive(Debug, PartialEq, Eq)]
pub enum RegistrationAction {
    /// Ask whether this address is registered already.
    CheckAddress(H160),
    /// Mint this amount of tokens to this address.
    MintTokens(H160, U256),
    /// Register the agent with the caller's transaction.
    RegisterAgent,
    /// Verify the registration with the caller's signing key.
    VerifyKey,
    /// The registration has ended with this result.
    Done(Result<(), Error>),
}

/// One run of the registration workflow: the sender's address and the step
/// that awaits a reply.
pub struct RegistrationSession {
    address: H160,
    step: RegistrationStep,
}

impl View for RegistrationSession {
    type V = (H160, RegistrationStep);

    closed spec fn view(&self) -> (H160, RegistrationStep) {
        (self.address, self.step)
    }
}

impl RegistrationSession {
    pub fn address(&self) -> (r: H160)
        ensures
            r == self@.0,
    {
        self.address
    }

    pub fn step(&self) -> (r: RegistrationStep)
        ensures
            r == self@.1,
    {
        self.step
    }
}

/// Whether a registration may start from `state`.
pub open spec fn registration_accepted(state: AccountState) -> bool {
    state is Unregistered
}

/// Status after a call of `register_account` from `state`.
pub open spec fn registration_begun(state: AccountState) -> AccountState {
    if registration_accepted(state) {
        AccountState::RegistrationInProgress
    } else {
        state
    }
}

/// Status and step after `event` reaches a session of `address` at `step`,
/// from status `state`. A session that has ended changes nothing. A reply
/// that completes the last step registers `address`; one that lets the next
/// step run keeps the status; any other reply resets it to unregistered.
pub open spec fn registration_next(
    state: AccountState,
    address: H160,
    step: RegistrationStep,
    event: RegistrationEvent,
) -> (AccountState, RegistrationStep) {
    if step is Finished {
        (state, RegistrationStep::Finished)
    } else {
        match (step, event) {
            (RegistrationStep::CheckAddress, RegistrationEvent::AddressChecked(false)) => (
                state,
                RegistrationStep::MintTokens,
            ),
            (RegistrationStep::MintTokens, RegistrationEvent::TokensMinted) => (
                state,
                RegistrationStep::RegisterAgent,
            ),
            (RegistrationStep::RegisterAgent, RegistrationEvent::AgentRegistered) => (
                state,
                RegistrationStep::VerifyKey,
            ),
            (RegistrationStep::VerifyKey, RegistrationEvent::KeyVerified) => (
                AccountState::Registered(address),
                RegistrationStep::Finished,
            ),
            _ => (AccountState::Unregistered, RegistrationStep::Finished),
        }
    }
}

/// The action that answers `event` in a session of `address` at `step`.
pub open spec fn registration_action(
    r: RegistrationAction,
    address: H160,
    step: RegistrationStep,
    event: RegistrationEvent,
) -> bool {
    if step is Finished {
        r == RegistrationAction::Done(Err(Error::UnexpectedReply))
    } else {
        match (step, event) {
            (_, RegistrationEvent::Failed(e)) => r == RegistrationAction::Done(Err(e)),
            (RegistrationStep::CheckAddress, RegistrationEvent::AddressChecked(true)) => r
                == RegistrationAction::Done(Err(Error::AddressAlreadyRegistered(address))),
            (RegistrationStep::CheckAddress, RegistrationEvent::AddressChecked(false)) => r matches RegistrationAction::MintTokens(to, amount) && to == address && amount@
                == REGISTRATION_FEE,
            (RegistrationStep::MintTokens, RegistrationEvent::TokensMinted) => r
                == RegistrationAction::RegisterAgent,
            (RegistrationStep::RegisterAgent, RegistrationEvent::AgentRegistered) => r
                == RegistrationAction::VerifyKey,
            (RegistrationStep::VerifyKey, RegistrationEvent::KeyVerified) => r
                == RegistrationAction::Done(Ok(())),
            _ => r == RegistrationAction::Done(Err(Error::UnexpectedReply)),
        }
    }
}

/// At most one registration runs at a time: a check-and-set that succeeds
/// leaves a status from which the next one fails, and one that fails leaves
/// the status as it was.
pub proof fn registration_entry_is_exclusive(state: AccountState)
    ensures
        registration_accepted(state) ==> registration_begun(state)
            == AccountState::RegistrationInProgress && !registration_accepted(
            registration_begun(state),
        ),
        !registration_accepted(state) ==> registration_begun(state) == state,
{
}

/// A failed remote step of a running registration leaves the account exactly
/// unregistered, whatever its status was, and a new registration is then
/// accepted.
pub proof fn failed_step_allows_retry(
    state: AccountState,
    address: H160,
    step: RegistrationStep,
    e: Error,
)
    requires
        !(step is Finished),
    ensures
        registration_next(state, address, step, RegistrationEvent::Failed(e)).0
            == AccountState::Unregistered,
        registration_next(state, address, step, RegistrationEvent::Failed(e)).1 is Finished,
        registration_accepted(registration_next(state, address, step, RegistrationEvent::Failed(e)).0),
{
}

/// This canister's account in the EVM canister.
pub struct Account {
    state: AccountState,
}

impl View for Account {
    type V = AccountState;

    closed spec fn view(&self) -> AccountState {
        self.state
    }
}

impl Account {
    /// An account that is not registered.
    pub fn new() -> (r: Account)
        ensures
            r@ == AccountState::Unregistered,
    {
        Account { state: AccountState::Unregistered }
    }

    /// An account in a status that was kept from an earlier run.
    pub fn with_state(state: AccountState) -> (r: Account)
        ensures
            r@ == state,
    {
        Account { state }
    }

    /// The registration status.
    pub fn state(&self) -> (r: AccountState)
        ensures
            r == self@,
    {
        self.state
    }

    /// The account's address, if registered.
    pub fn get_account(&self) -> (r: Result<H160, Error>)
        ensures
            self@ matches AccountState::Registered(a) ==> r == Ok::<H160, Error>(a),
            !(self@ is Registered) ==> r == Err::<H160, Error>(Error::AccountNotRegistered),
    {
        match self.state {
            AccountState::Registered(a) => Ok(a),
            _ => Err(Error::AccountNotRegistered),
        }
    }

    /// Sets the account as unregistered, whatever its status.
    pub fn reset(&mut self)
        ensures
            final(self)@ == AccountState::Unregistered,
    {
        self.state = AccountState::Unregistered;
    }

    /// Starts registering the sender of `transaction`: only from the
    /// unregistered status, which it sets in progress in the same step. The
    /// returned session awaits the check of the sender's address.
    pub fn register_account(&mut self, transaction: &Transaction) -> (r: Result<
        (RegistrationSession, RegistrationAction),
        Error,
    >)
        ensures
            final(self)@ == registration_begun(old(self)@),
            registration_accepted(old(self)@) ==> (r matches Ok((session, action)) && session@ == (
                transaction.from,
                RegistrationStep::CheckAddress,
            ) && action == RegistrationAction::CheckAddress(transaction.from)),
            !registration_accepted(old(self)@) ==> (r matches Err(e) && e
                == Error::AccountAlreadyRegistered),
    {
        match self.state {
            AccountState::Unregistered => {
                self.state = AccountState::RegistrationInProgress;
                let address = transaction.from;
                Ok(
                    (
                        RegistrationSession { address, step: RegistrationStep::CheckAddress },
                        RegistrationAction::CheckAddress(address),
                    ),
                )
            },
            _ => Err(Error::AccountAlreadyRegistered),
        }
    }

    fn fail_registration(&mut self, session: &mut RegistrationSession, e: Error) -> (r:
        RegistrationAction)
        ensures
            final(self)@ == AccountState::Unregistered,
            final(session)@ == (old(session)@.0, RegistrationStep::Finished),
            r == RegistrationAction::Done(Err(e)),
    {
        self.reset();
        session.step = RegistrationStep::Finished;
        RegistrationAction::Done(Err(e))
    }

    /// Takes the reply to the step that `session` awaits and says what to do
    /// next. A failed step, or a reply that does not answer the awaited step,
    /// resets the account to unregistered and ends the session.
    pub fn advance_registration(
        &mut self,
        session: &mut RegistrationSession,
        event: RegistrationEvent,
    ) -> (r: RegistrationAction)
        ensures
            (final(self)@, final(session)@.1) == registration_next(
                old(self)@,
                old(session)@.0,
                old(session)@.1,
                event,
            ),
            final(session)@.0 == old(session)@.0,
            registration_action(r, old(session)@.0, old(session)@.1, event),
    {
        let address = session.address;
        match session.step {
            RegistrationStep::Finished => RegistrationAction::Done(Err(Error::UnexpectedReply)),
            RegistrationStep::CheckAddress => match event {
                RegistrationEvent::AddressChecked(false) => {
                    session.step = RegistrationStep::MintTokens;
                    RegistrationAction::MintTokens(address, U256::from_u64(REGISTRATION_FEE))
                },
                RegistrationEvent::AddressChecked(true) => self.fail_registration(
                    session,
                    Error::AddressAlreadyRegistered(address),
                ),
                RegistrationEvent::Failed(e) => self.fail_registration(session, e),
                _ => self.fail_registration(session, Error::UnexpectedReply),
            },
            RegistrationStep::MintTokens => match event {
                RegistrationEvent::TokensMinted => {
                    session.step = RegistrationStep::RegisterAgent;
                    RegistrationAction::RegisterAgent
                },
                RegistrationEvent::Failed(e) => self.fail_registration(session, e),
                _ => self.fail_registration(session, Error::UnexpectedReply),
            },
            RegistrationStep::RegisterAgent => match event {
                RegistrationEvent::AgentRegistered => {
                    session.step = RegistrationStep::VerifyKey;
                    RegistrationAction::VerifyKey
                },
                RegistrationEvent::Failed(e) => self.fail_registration(session, e),
                _ => self.fail_registration(session, Error::UnexpectedReply),
            },
            RegistrationStep::VerifyKey => match event {
                RegistrationEvent::KeyVerified => {
                    self.state = AccountState::Registered(address);
                    session.step = RegistrationStep::Finished;
                    RegistrationAction::Done(Ok(()))
                },
                RegistrationEvent::Failed(e) => self.fail_registration(session, e),
                _ => self.fail_registration(session, Error::UnexpectedReply),
            },
        }
    }
}

} // verus!
