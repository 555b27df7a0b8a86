//! The transitions of the onboarding conversation, as a function from the
//! machine and an event to the machine after it and what is to be done.

use vstd::prelude::*;
use vstd::string::*;
use crate::api::{AccountRecord, AccountView};
use crate::db::StoreError;
use crate::error::{Failure, ProvisionError};
use crate::onboarding::{
    stored_view,
    Action,
    ActionView,
    CallView,
    ConversationState,
    Event,
    EventView,
    Notice,
    NoticeView,
    Pending,
    PendingView,
    ProtocolCall,
    StateView,
};
use crate::login::record_view;
use crate::protocol::{outcome_view, NextStep};

verus! {

/// What the machine stands for: where the conversation stands, the call
/// it waits for, and the ticket of the call it asked for last.
pub struct MachineView {
    pub state: StateView,
    pub pending: PendingView,
    pub ticket: u64,
}

/// The ticket that follows `ticket`; after the largest comes zero.
pub open spec fn next_ticket(ticket: u64) -> u64 {
    if ticket == u64::MAX {
        0
    } else {
        (ticket + 1) as u64
    }
}

/// The record with its title replaced.
pub open spec fn entitled(record: AccountView, title: Seq<char>) -> AccountView {
    AccountView {
        title,
        phone_number: record.phone_number,
        card_number: record.card_number,
        external_customer_id: record.external_customer_id,
        auth_token: record.auth_token,
        credentials: record.credentials,
    }
}

impl MachineView {
    /// A machine that has seen no event.
    pub open spec fn fresh() -> MachineView {
        MachineView { state: StateView::Idle, pending: PendingView::Nothing, ticket: 0 }
    }

    /// The machine is idle and waits for no call.
    pub open spec fn at_rest(self) -> bool {
        self.state is Idle && self.pending is Nothing
    }

    /// The call that is waited for fits where the conversation stands.
    pub open spec fn wf(self) -> bool {
        match self.pending {
            PendingView::Nothing => true,
            PendingView::SmsCode { .. } => self.state is Idle,
            PendingView::NextStep { .. } => self.state is AwaitingSmsCode,
            PendingView::Register => self.state is AwaitingDisplayName,
            PendingView::Login => self.state is AwaitingSmsCode || self.state is AwaitingDisplayName,
            PendingView::Store { .. } => self.state is Idle,
        }
    }

    /// The event changes nothing and asks for nothing.
    pub open spec fn ignore(self) -> (MachineView, ActionView) {
        (self, ActionView::Nothing)
    }

    /// The machine stays as it is, and the operator is told.
    pub open spec fn tell(self, notice: NoticeView) -> (MachineView, ActionView) {
        (self, ActionView::Reply(notice))
    }

    /// The conversation moves to `state`, no call is waited for any more,
    /// and the operator is told.
    pub open spec fn settle(self, state: StateView, notice: NoticeView) -> (MachineView, ActionView) {
        (
            MachineView { state, pending: PendingView::Nothing, ticket: self.ticket },
            ActionView::Reply(notice),
        )
    }

    /// The attempt ends: back to idle, and the failure is reported.
    pub open spec fn fail(self, failure: Failure) -> (MachineView, ActionView) {
        self.settle(StateView::Idle, NoticeView::Failed(failure))
    }

    /// The conversation moves to `state` and a call is asked for, under the
    /// next ticket.
    pub open spec fn ask(self, state: StateView, pending: PendingView, call: CallView) -> (
        MachineView,
        ActionView,
    ) {
        (
            MachineView { state, pending, ticket: next_ticket(self.ticket) },
            ActionView::Call { ticket: next_ticket(self.ticket), call },
        )
    }

    /// The owner cancels: whatever is under way is dropped. At rest this
    /// changes nothing and asks for nothing.
    pub open spec fn on_cancel(self) -> (MachineView, ActionView) {
        if self.at_rest() {
            self.ignore()
        } else {
            self.settle(StateView::Idle, NoticeView::Cancelled)
        }
    }

    /// An operator asks to add an account. From idle, a code is asked for.
    pub open spec fn on_add_account(self, title: Seq<char>, phone_number: Seq<char>) -> (
        MachineView,
        ActionView,
    ) {
        if !(self.pending is Nothing) {
            self.tell(NoticeView::Busy)
        } else {
            match self.state {
                StateView::Idle => self.ask(
                    StateView::Idle,
                    PendingView::SmsCode { title, phone_number },
                    CallView::RequestSmsCode { phone_number },
                ),
                _ => self.tell(NoticeView::AlreadyOnboarding),
            }
        }
    }

    /// A text arrives: the code, or the holder's name, as awaited.
    pub open spec fn on_text(self, text: Seq<char>) -> (MachineView, ActionView) {
        if !(self.pending is Nothing) {
            self.tell(NoticeView::Busy)
        } else {
            match self.state {
                StateView::Idle => self.tell(NoticeView::Unhandled),
                StateView::AwaitingSmsCode { phone_number, .. } => self.ask(
                    self.state,
                    PendingView::NextStep { sms_code: text },
                    CallView::ComputeNextStep { phone_number },
                ),
                StateView::AwaitingDisplayName { phone_number, sms_code, .. } => self.ask(
                    self.state,
                    PendingView::Register,
                    CallView::Register { phone_number, sms_code, display_name: text },
                ),
            }
        }
    }

    /// A message that is no text arrives: the operator is asked again.
    pub open spec fn on_non_text(self) -> (MachineView, ActionView) {
        if !(self.pending is Nothing) {
            self.tell(NoticeView::Busy)
        } else {
            match self.state {
                StateView::Idle => self.tell(NoticeView::Unhandled),
                StateView::AwaitingSmsCode { .. } => self.tell(NoticeView::RepeatSmsCode),
                StateView::AwaitingDisplayName { .. } => self.tell(NoticeView::RepeatDisplayName),
            }
        }
    }

    /// The request for a code ended.
    pub open spec fn on_sms_code_requested(self, ticket: u64, outcome: Result<(), Failure>) -> (
        MachineView,
        ActionView,
    ) {
        if self.ticket != ticket {
            self.ignore()
        } else {
            match (self.state, self.pending) {
                (StateView::Idle, PendingView::SmsCode { title, phone_number }) => match outcome {
                    Ok(_) => self.settle(
                        StateView::AwaitingSmsCode { title, phone_number },
                        NoticeView::EnterSmsCode,
                    ),
                    Err(failure) => self.fail(failure),
                },
                _ => self.ignore(),
            }
        }
    }

    /// The question for the next step ended.
    pub open spec fn on_next_step_computed(
        self,
        ticket: u64,
        outcome: Result<NextStep, Failure>,
    ) -> (MachineView, ActionView) {
        if self.ticket != ticket {
            self.ignore()
        } else {
            match (self.state, self.pending) {
                (
                    StateView::AwaitingSmsCode { title, phone_number },
                    PendingView::NextStep { sms_code },
                ) => match outcome {
                    Ok(NextStep::NewAccount) => self.settle(
                        StateView::AwaitingDisplayName { title, phone_number, sms_code },
                        NoticeView::EnterDisplayName,
                    ),
                    Ok(NextStep::AccountExists) => self.ask(
                        self.state,
                        PendingView::Login,
                        CallView::Login { title, phone_number, sms_code },
                    ),
                    Err(failure) => self.fail(failure),
                },
                _ => self.ignore(),
            }
        }
    }

    /// The registration ended.
    pub open spec fn on_registered(self, ticket: u64, outcome: Result<(), Failure>) -> (
        MachineView,
        ActionView,
    ) {
        if self.ticket != ticket {
            self.ignore()
        } else {
            match (self.state, self.pending) {
                (
                    StateView::AwaitingDisplayName { title, phone_number, sms_code },
                    PendingView::Register,
                ) => match outcome {
                    Ok(_) => self.ask(
                        self.state,
                        PendingView::Login,
                        CallView::Login { title, phone_number, sms_code },
                    ),
                    Err(failure) => self.fail(failure),
                },
                _ => self.ignore(),
            }
        }
    }

    /// The title under which the account of this conversation is added.
    pub open spec fn title(self) -> Option<Seq<char>> {
        match self.state {
            StateView::Idle => None,
            StateView::AwaitingSmsCode { title, .. } => Some(title),
            StateView::AwaitingDisplayName { title, .. } => Some(title),
        }
    }

    /// The login ended. Its record goes to the store under the title of
    /// this conversation.
    pub open spec fn on_logged_in(self, ticket: u64, outcome: Result<AccountView, Failure>) -> (
        MachineView,
        ActionView,
    ) {
        if self.ticket != ticket {
            self.ignore()
        } else {
            match (self.title(), self.pending) {
                (Some(title), PendingView::Login) => match outcome {
                    Ok(record) => self.ask(
                        StateView::Idle,
                        PendingView::Store { title },
                        CallView::Store { record: entitled(record, title) },
                    ),
                    Err(failure) => self.fail(failure),
                },
                _ => self.ignore(),
            }
        }
    }

    /// The store answered.
    pub open spec fn on_stored(self, ticket: u64, outcome: Result<(), Seq<char>>) -> (
        MachineView,
        ActionView,
    ) {
        if self.ticket != ticket {
            self.ignore()
        } else {
            match (self.state, self.pending) {
                (StateView::Idle, PendingView::Store { title }) => match outcome {
                    Ok(_) => self.settle(StateView::Idle, NoticeView::AccountAdded { title }),
                    Err(e) => self.fail(Failure::Store(e)),
                },
                _ => self.ignore(),
            }
        }
    }

    /// The machine after an event, and what is to be done.
    pub open spec fn step(self, event: EventView) -> (MachineView, ActionView) {
        match event {
            EventView::AddAccount { title, phone_number } => self.on_add_account(
                title,
                phone_number,
            ),
            EventView::Cancel => self.on_cancel(),
            EventView::Text(text) => self.on_text(text),
            EventView::NonText => self.on_non_text(),
            EventView::SmsCodeRequested { ticket, outcome } => self.on_sms_code_requested(
                ticket,
                outcome,
            ),
            EventView::NextStepComputed { ticket, outcome } => self.on_next_step_computed(
                ticket,
                outcome,
            ),
            EventView::Registered { ticket, outcome } => self.on_registered(ticket, outcome),
            EventView::LoggedIn { ticket, outcome } => self.on_logged_in(ticket, outcome),
            EventView::Stored { ticket, outcome } => self.on_stored(ticket, outcome),
        }
    }
}

/// The state machine of one conversation. Each conversation has its own;
/// machines share nothing.
#[derive(Debug)]
pub struct OnboardingStateMachine {
    state: ConversationState,
    pending: Pending,
    ticket: u64,
}

impl View for OnboardingStateMachine {
    type V = MachineView;

    closed spec fn view(&self) -> MachineView {
        MachineView { state: self.state@, pending: self.pending@, ticket: self.ticket }
    }
}

impl OnboardingStateMachine {
    /// The machine of a conversation in which nothing has happened yet.
    pub fn new() -> (machine: OnboardingStateMachine)
        ensures
            machine@ == MachineView::fresh(),
    {
        OnboardingStateMachine {
            state: ConversationState::Idle,
            pending: Pending::Nothing,
            ticket: 0,
        }
    }

    /// Where the conversation stands.
    pub fn state(&self) -> (state: &ConversationState)
        ensures
            state@ == self@.state,
    {
        &self.state
    }

    /// The call that the machine waits for.
    pub fn pending(&self) -> (pending: &Pending)
        ensures
            pending@ == self@.pending,
    {
        &self.pending
    }

    /// The ticket of the call that the machine asked for last.
    pub fn ticket(&self) -> (ticket: u64)
        ensures
            ticket == self@.ticket,
    {
        self.ticket
    }

    /// Whether the conversation is idle and no call is under way.
    pub fn is_at_rest(&self) -> (at_rest: bool)
        ensures
            at_rest == self@.at_rest(),
    {
        let idle: bool = match &self.state {
            ConversationState::Idle => true,
            _ => false,
        };
        let free: bool = self.is_free();
        idle && free
    }

    fn is_free(&self) -> (free: bool)
        ensures
            free == (self@.pending is Nothing),
    {
        match &self.pending {
            Pending::Nothing => true,
            _ => false,
        }
    }

    fn settle(&mut self, state: ConversationState, notice: Notice) -> (action: Action)
        ensures
            (final(self)@, action@) == old(self)@.settle(state@, notice@),
    {
        self.state = state;
        self.pending = Pending::Nothing;
        Action::Reply(notice)
    }

    fn ask(&mut self, state: ConversationState, pending: Pending, call: ProtocolCall) -> (action:
        Action)
        ensures
            (final(self)@, action@) == old(self)@.ask(state@, pending@, call@),
    {
        let ticket: u64 = if self.ticket == u64::MAX {
            0
        } else {
            self.ticket + 1
        };
        self.state = state;
        self.pending = pending;
        self.ticket = ticket;
        Action::Call { ticket, call }
    }

    /// Takes a cancellation by the owner of the conversation.
    pub fn cancel(&mut self) -> (action: Action)
        ensures
            (final(self)@, action@) == old(self)@.on_cancel(),
    {
        if self.is_at_rest() {
            Action::Nothing
        } else {
            self.settle(ConversationState::Idle, Notice::Cancelled)
        }
    }

    /// Takes an authorized operator's request to add an account.
    pub fn add_account(&mut self, title: String, phone_number: String) -> (action: Action)
        ensures
            (final(self)@, action@) == old(self)@.on_add_account(title@, phone_number@),
    {
        if !self.is_free() {
            return Action::Reply(Notice::Busy);
        }
        let idle: bool = match &self.state {
            ConversationState::Idle => true,
            _ => false,
        };
        if idle {
            let call: ProtocolCall = ProtocolCall::RequestSmsCode {
                phone_number: phone_number.clone(),
            };
            self.ask(ConversationState::Idle, Pending::SmsCode { title, phone_number }, call)
        } else {
            Action::Reply(Notice::AlreadyOnboarding)
        }
    }

    /// Takes a text message.
    pub fn text(&mut self, text: String) -> (action: Action)
        ensures
            (final(self)@, action@) == old(self)@.on_text(text@),
    {
        if !self.is_free() {
            return Action::Reply(Notice::Busy);
        }
        let state: ConversationState = self.state.clone_state();
        match &state {
            ConversationState::Idle => Action::Reply(Notice::Unhandled),
            ConversationState::AwaitingSmsCode { phone_number, .. } => {
                let call: ProtocolCall = ProtocolCall::ComputeNextStep {
                    phone_number: phone_number.clone(),
                };
                self.ask(state, Pending::NextStep { sms_code: text }, call)
            },
            ConversationState::AwaitingDisplayName { phone_number, sms_code, .. } => {
                let call: ProtocolCall = ProtocolCall::Register {
                    phone_number: phone_number.clone(),
                    sms_code: sms_code.clone(),
                    display_name: text,
                };
                self.ask(state, Pending::Register, call)
            },
        }
    }

    /// Takes a message that is no text.
    pub fn non_text(&mut self) -> (action: Action)
        ensures
            (final(self)@, action@) == old(self)@.on_non_text(),
    {
        if !self.is_free() {
            return Action::Reply(Notice::Busy);
        }
        match &self.state {
            ConversationState::Idle => Action::Reply(Notice::Unhandled),
            ConversationState::AwaitingSmsCode { .. } => Action::Reply(Notice::RepeatSmsCode),
            ConversationState::AwaitingDisplayName { .. } => Action::Reply(
                Notice::RepeatDisplayName,
            ),
        }
    }

    /// Takes the outcome of the request for a code.
    pub fn sms_code_requested(&mut self, ticket: u64, outcome: Result<(), ProvisionError>) -> (action:
        Action)
        ensures
            (final(self)@, action@) == old(self)@.on_sms_code_requested(ticket, outcome_view(outcome)),
    {
        if self.ticket != ticket {
            return Action::Nothing;
        }
        let awaited: Option<ConversationState> = match (&self.state, &self.pending) {
            (ConversationState::Idle, Pending::SmsCode { title, phone_number }) => Some(
                ConversationState::AwaitingSmsCode {
                    title: title.clone(),
                    phone_number: phone_number.clone(),
                },
            ),
            _ => None,
        };
        match awaited {
            None => Action::Nothing,
            Some(next) => match outcome {
                Ok(_) => self.settle(next, Notice::EnterSmsCode),
                Err(e) => self.settle(ConversationState::Idle, Notice::Failed(e)),
            },
        }
    }

    /// Takes the outcome of the question for the next step.
    pub fn next_step_computed(
        &mut self,
        ticket: u64,
        outcome: Result<NextStep, ProvisionError>,
    ) -> (action: Action)
        ensures
            (final(self)@, action@) == old(self)@.on_next_step_computed(ticket, outcome_view(outcome)),
    {
        if self.ticket != ticket {
            return Action::Nothing;
        }
        let awaited: Option<(String, String, String)> = match (&self.state, &self.pending) {
            (
                ConversationState::AwaitingSmsCode { title, phone_number },
                Pending::NextStep { sms_code },
            ) => Some((title.clone(), phone_number.clone(), sms_code.clone())),
            _ => None,
        };
        match awaited {
            None => Action::Nothing,
            Some((title, phone_number, sms_code)) => match outcome {
                Ok(NextStep::NewAccount) => self.settle(
                    ConversationState::AwaitingDisplayName { title, phone_number, sms_code },
                    Notice::EnterDisplayName,
                ),
                Ok(NextStep::AccountExists) => {
                    let state: ConversationState = self.state.clone_state();
                    self.ask(
                        state,
                        Pending::Login,
                        ProtocolCall::Login { title, phone_number, sms_code },
                    )
                },
                Err(e) => self.settle(ConversationState::Idle, Notice::Failed(e)),
            },
        }
    }

    /// Takes the outcome of the registration.
    pub fn registered(&mut self, ticket: u64, outcome: Result<(), ProvisionError>) -> (action:
        Action)
        ensures
            (final(self)@, action@) == old(self)@.on_registered(ticket, outcome_view(outcome)),
    {
        if self.ticket != ticket {
            return Action::Nothing;
        }
        let awaited: Option<ProtocolCall> = match (&self.state, &self.pending) {
            (
                ConversationState::AwaitingDisplayName { title, phone_number, sms_code },
                Pending::Register,
            ) => Some(
                ProtocolCall::Login {
                    title: title.clone(),
                    phone_number: phone_number.clone(),
                    sms_code: sms_code.clone(),
                },
            ),
            _ => None,
        };
        match awaited {
            None => Action::Nothing,
            Some(login) => match outcome {
                Ok(_) => {
                    let state: ConversationState = self.state.clone_state();
                    self.ask(state, Pending::Login, login)
                },
                Err(e) => self.settle(ConversationState::Idle, Notice::Failed(e)),
            },
        }
    }

    /// Takes the outcome of the login.
    pub fn logged_in(&mut self, ticket: u64, outcome: Result<AccountRecord, ProvisionError>) -> (action:
        Action)
        ensures
            (final(self)@, action@) == old(self)@.on_logged_in(ticket, record_view(outcome)),
    {
        if self.ticket != ticket {
            return Action::Nothing;
        }
        let title: Option<String> = match &self.state {
            ConversationState::Idle => None,
            ConversationState::AwaitingSmsCode { title, .. } => Some(title.clone()),
            ConversationState::AwaitingDisplayName { title, .. } => Some(title.clone()),
        };
        let awaited: Option<String> = match &self.pending {
            Pending::Login => title,
            _ => None,
        };
        match awaited {
            None => Action::Nothing,
            Some(title) => match outcome {
                Ok(record) => {
                    let record: AccountRecord = AccountRecord {
                        title: title.clone(),
                        phone_number: record.phone_number,
                        card_number: record.card_number,
                        external_customer_id: record.external_customer_id,
                        auth_token: record.auth_token,
                        credentials: record.credentials,
                    };
                    self.ask(
                        ConversationState::Idle,
                        Pending::Store { title },
                        ProtocolCall::Store { record },
                    )
                },
                Err(e) => self.settle(ConversationState::Idle, Notice::Failed(e)),
            },
        }
    }

    /// Takes the answer of the account store.
    pub fn stored(&mut self, ticket: u64, outcome: Result<(), StoreError>) -> (action: Action)
        ensures
            (final(self)@, action@) == old(self)@.on_stored(ticket, stored_view(outcome)),
    {
        if self.ticket != ticket {
            return Action::Nothing;
        }
        let awaited: Option<String> = match (&self.state, &self.pending) {
            (ConversationState::Idle, Pending::Store { title }) => Some(title.clone()),
            _ => None,
        };
        match awaited {
            None => Action::Nothing,
            Some(title) => match outcome {
                Ok(_) => self.settle(ConversationState::Idle, Notice::AccountAdded { title }),
                Err(e) => self.settle(
                    ConversationState::Idle,
                    Notice::Failed(ProvisionError::Store(e)),
                ),
            },
        }
    }

    /// Takes an event: moves the conversation on and says what is to be
    /// done. Every event is taken in every state.
    pub fn handle(&mut self, event: Event) -> (action: Action)
        ensures
            (final(self)@, action@) == old(self)@.step(event@),
    {
        match event {
            Event::AddAccount { title, phone_number } => self.add_account(title, phone_number),
            Event::Cancel => self.cancel(),
            Event::Text(text) => self.text(text),
            Event::NonText => self.non_text(),
            Event::SmsCodeRequested { ticket, outcome } => self.sms_code_requested(ticket, outcome),
            Event::NextStepComputed { ticket, outcome } => self.next_step_computed(ticket, outcome),
            Event::Registered { ticket, outcome } => self.registered(ticket, outcome),
            Event::LoggedIn { ticket, outcome } => self.logged_in(ticket, outcome),
            Event::Stored { ticket, outcome } => self.stored(ticket, outcome),
        }
    }
}

impl EventView {
    /// The event is the outcome of a call, handed back under a ticket.
    pub open spec fn outcome_ticket(self) -> Option<u64> {
        match self {
            EventView::SmsCodeRequested { ticket, .. } => Some(ticket),
            EventView::NextStepComputed { ticket, .. } => Some(ticket),
            EventView::Registered { ticket, .. } => Some(ticket),
            EventView::LoggedIn { ticket, .. } => Some(ticket),
            EventView::Stored { ticket, .. } => Some(ticket),
            _ => None,
        }
    }

    /// The failure that the event reports, if it is the outcome of a call
    /// that failed.
    pub open spec fn failure(self) -> Option<Failure> {
        match self {
            EventView::SmsCodeRequested { outcome: Err(f), .. } => Some(f),
            EventView::NextStepComputed { outcome: Err(f), .. } => Some(f),
            EventView::Registered { outcome: Err(f), .. } => Some(f),
            EventView::LoggedIn { outcome: Err(f), .. } => Some(f),
            EventView::Stored { outcome: Err(e), .. } => Some(Failure::Store(e)),
            _ => None,
        }
    }
}

/// A cancellation leaves the machine at rest, wherever it stood.
pub proof fn cancel_yields_idle(m: MachineView)
    ensures
        m.step(EventView::Cancel).0.at_rest(),
        m.step(EventView::Cancel).0.ticket == m.ticket,
{
}

/// A cancellation at rest changes nothing and asks for nothing. While the
/// conversation is idle it never moves it elsewhere nor reports a failure.
pub proof fn cancel_when_idle_is_no_op(m: MachineView)
    requires
        m.state is Idle,
    ensures
        m.step(EventView::Cancel).0.state is Idle,
        !(m.step(EventView::Cancel).1 matches ActionView::Reply(NoticeView::Failed(_))),
        m.at_rest() ==> m.step(EventView::Cancel) == (m, ActionView::Nothing),
{
}

/// From rest, a request to add an account asks for a code and nothing
/// else; when the code was sent, the conversation awaits it, under the
/// title and for the phone of the request.
pub proof fn code_sent_awaits_code(m: MachineView, title: Seq<char>, phone_number: Seq<char>)
    requires
        m.at_rest(),
    ensures
        ({
            let (asked, call) = m.step(EventView::AddAccount { title, phone_number });
            let (sent, reply) = asked.step(
                EventView::SmsCodeRequested { ticket: asked.ticket, outcome: Ok(()) },
            );
            &&& asked.state is Idle
            &&& call == ActionView::Call {
                ticket: asked.ticket,
                call: CallView::RequestSmsCode { phone_number },
            }
            &&& sent.state == StateView::AwaitingSmsCode { title, phone_number }
            &&& sent.pending is Nothing
            &&& reply == ActionView::Reply(NoticeView::EnterSmsCode)
        }),
{
}

/// When the backend refuses the code, the request to add an account ends
/// at rest with that failure reported; the code is never awaited.
pub proof fn refused_code_returns_to_idle(
    m: MachineView,
    title: Seq<char>,
    phone_number: Seq<char>,
    failure: Failure,
)
    requires
        m.at_rest(),
    ensures
        ({
            let (asked, call) = m.step(EventView::AddAccount { title, phone_number });
            let (ended, reply) = asked.step(
                EventView::SmsCodeRequested { ticket: asked.ticket, outcome: Err(failure) },
            );
            &&& asked.state is Idle
            &&& ended.at_rest()
            &&& reply == ActionView::Reply(NoticeView::Failed(failure))
        }),
{
}

/// Every event keeps the call that is waited for in keeping with where
/// the conversation stands.
pub proof fn step_keeps_wf(m: MachineView, event: EventView)
    requires
        m.wf(),
    ensures
        m.step(event).0.wf(),
{
}

/// The outcome of a call that is not waited for, because the machine
/// waits for none or has asked for another since, changes nothing and
/// asks for nothing.
pub proof fn outdated_outcome_is_ignored(m: MachineView, event: EventView)
    requires
        event.outcome_ticket() matches Some(ticket) && (ticket != m.ticket || m.pending is Nothing),
    ensures
        m.step(event) == (m, ActionView::Nothing),
{
}

/// A call that failed ends the attempt: unless its outcome is ignored, the
/// machine comes to rest and the failure is reported as it was.
pub proof fn failure_ends_attempt(m: MachineView, event: EventView)
    requires
        event.failure() is Some,
    ensures
        m.step(event) == (m, ActionView::Nothing) || {
            &&& m.step(event).0.at_rest()
            &&& m.step(event).1 == ActionView::Reply(NoticeView::Failed(event.failure().unwrap()))
        },
{
}

/// Each state other than idle is entered in one way only: the code is
/// awaited once it was sent, from idle; the holder's name is awaited once
/// the backend said that the phone has no account, from awaiting the code.
pub proof fn states_are_entered_one_way(m: MachineView, event: EventView)
    requires
        m.wf(),
        m.step(event).0.state != m.state,
    ensures
        m.step(event).0.state is AwaitingSmsCode ==> m.state is Idle
            && event matches EventView::SmsCodeRequested { outcome: Ok(_), .. },
        m.step(event).0.state is AwaitingDisplayName ==> m.state is AwaitingSmsCode
            && event matches EventView::NextStepComputed { outcome: Ok(NextStep::NewAccount), .. },
{
}

/// Where the phone has an account: the code leads to the question for the
/// next step, the answer to a login, and the login's record to the store,
/// under the title of the conversation; the machine is idle from then on.
pub proof fn existing_account_reaches_store(
    m: MachineView,
    sms_code: Seq<char>,
    record: AccountView,
)
    requires
        m.state is AwaitingSmsCode,
        m.pending is Nothing,
    ensures
        ({
            let title = m.state->AwaitingSmsCode_title;
            let phone_number = m.state->AwaitingSmsCode_phone_number;
            let (m1, a1) = m.step(EventView::Text(sms_code));
            let (m2, a2) = m1.step(
                EventView::NextStepComputed {
                    ticket: m1.ticket,
                    outcome: Ok(NextStep::AccountExists),
                },
            );
            let (m3, a3) = m2.step(EventView::LoggedIn { ticket: m2.ticket, outcome: Ok(record) });
            let (m4, a4) = m3.step(EventView::Stored { ticket: m3.ticket, outcome: Ok(()) });
            &&& a1 == ActionView::Call {
                ticket: m1.ticket,
                call: CallView::ComputeNextStep { phone_number },
            }
            &&& a2 == ActionView::Call {
                ticket: m2.ticket,
                call: CallView::Login { title, phone_number, sms_code },
            }
            &&& a3 == ActionView::Call {
                ticket: m3.ticket,
                call: CallView::Store { record: entitled(record, title) },
            }
            &&& m3.state is Idle
            &&& m4.at_rest()
            &&& a4 == ActionView::Reply(NoticeView::AccountAdded { title })
        }),
{
}

/// Where the phone has no account: the holder's name leads to a
/// registration, the registration to a login, and the login's record to
/// the store; whether the registration or the login fails or not, the
/// conversation is idle afterwards, and a failure is reported.
pub proof fn new_account_registers_then_logs_in(
    m: MachineView,
    display_name: Seq<char>,
    registration: Result<(), Failure>,
    login: Result<AccountView, Failure>,
)
    requires
        m.state is AwaitingDisplayName,
        m.pending is Nothing,
    ensures
        ({
            let title = m.state->AwaitingDisplayName_title;
            let phone_number = m.state->AwaitingDisplayName_phone_number;
            let sms_code = m.state->AwaitingDisplayName_sms_code;
            let (m1, a1) = m.step(EventView::Text(display_name));
            let (m2, a2) = m1.step(
                EventView::Registered { ticket: m1.ticket, outcome: registration },
            );
            let (m3, a3) = m2.step(EventView::LoggedIn { ticket: m2.ticket, outcome: login });
            &&& a1 == ActionView::Call {
                ticket: m1.ticket,
                call: CallView::Register { phone_number, sms_code, display_name },
            }
            &&& match registration {
                Err(f) => m2.at_rest() && a2 == ActionView::Reply(NoticeView::Failed(f)),
                Ok(_) => {
                    &&& a2 == ActionView::Call {
                        ticket: m2.ticket,
                        call: CallView::Login { title, phone_number, sms_code },
                    }
                    &&& m3.state is Idle
                    &&& match login {
                        Err(f) => m3.at_rest() && a3 == ActionView::Reply(NoticeView::Failed(f)),
                        Ok(record) => a3 == ActionView::Call {
                            ticket: m3.ticket,
                            call: CallView::Store { record: entitled(record, title) },
                        },
                    }
                },
            }
        }),
{
}

} // verus!
