//! The conversation that carries an operator through the provisioning of
//! one account. The machine decides; its caller performs each call that it
//! asks for and hands the outcome back as the next event.

use vstd::prelude::*;
use vstd::string::*;
use crate::api::{AccountRecord, AccountView};
use crate::db::StoreError;
use crate::error::{Failure, ProvisionError};
use crate::login::record_view;
use crate::protocol::{outcome_view, NextStep};

verus! {

/// What [`ConversationState`] stands for.
pub enum StateView {
    Idle,
    AwaitingSmsCode { title: Seq<char>, phone_number: Seq<char> },
    AwaitingDisplayName { title: Seq<char>, phone_number: Seq<char>, sms_code: Seq<char> },
}

/// Where a conversation stands.
#[derive(Debug, Clone, PartialEq, Eq)]
pub enum ConversationState {
    /// No account is being added.
    Idle,
    /// A code was sent to the phone; the operator is to type it in.
    AwaitingSmsCode { title: String, phone_number: String },
    /// The phone has no account yet; the operator is to name the holder.
    AwaitingDisplayName { title: String, phone_number: String, sms_code: String },
}

impl View for ConversationState {
    type V = StateView;

    open spec fn view(&self) -> StateView {
        match self {
            ConversationState::Idle => StateView::Idle,
            ConversationState::AwaitingSmsCode { title, phone_number } => StateView::AwaitingSmsCode {
                title: title@,
                phone_number: phone_number@,
            },
            ConversationState::AwaitingDisplayName {
                title,
                phone_number,
                sms_code,
            } => StateView::AwaitingDisplayName {
                title: title@,
                phone_number: phone_number@,
                sms_code: sms_code@,
            },
        }
    }
}

impl ConversationState {
    /// A copy of the state.
    pub fn clone_state(&self) -> (copy: ConversationState)
        ensures
            copy@ == self@,
    {
        match self {
            ConversationState::Idle => ConversationState::Idle,
            ConversationState::AwaitingSmsCode {
                title,
                phone_number,
            } => ConversationState::AwaitingSmsCode {
                title: title.clone(),
                phone_number: phone_number.clone(),
            },
            ConversationState::AwaitingDisplayName {
                title,
                phone_number,
                sms_code,
            } => ConversationState::AwaitingDisplayName {
                title: title.clone(),
                phone_number: phone_number.clone(),
                sms_code: sms_code.clone(),
            },
        }
    }
}

/// What [`Pending`] stands for.
pub enum PendingView {
    Nothing,
    SmsCode { title: Seq<char>, phone_number: Seq<char> },
    NextStep { sms_code: Seq<char> },
    Register,
    Login,
    Store { title: Seq<char> },
}

/// The call whose outcome the machine waits for, with what it has to
/// remember until then.
#[derive(Debug, Clone, PartialEq, Eq)]
pub enum Pending {
    /// No call is under way.
    Nothing,
    /// A code was asked for, for an account to be added under `title`.
    SmsCode { title: String, phone_number: String },
    /// The next step was asked for, after the operator typed `sms_code`.
    NextStep { sms_code: String },
    /// A registration is under way.
    Register,
    /// A login is under way.
    Login,
    /// The record of `title` was handed to the store.
    Store { title: String },
}

impl View for Pending {
    type V = PendingView;

    open spec fn view(&self) -> PendingView {
        match self {
            Pending::Nothing => PendingView::Nothing,
            Pending::SmsCode { title, phone_number } => PendingView::SmsCode {
                title: title@,
                phone_number: phone_number@,
            },
            Pending::NextStep { sms_code } => PendingView::NextStep { sms_code: sms_code@ },
            Pending::Register => PendingView::Register,
            Pending::Login => PendingView::Login,
            Pending::Store { title } => PendingView::Store { title: title@ },
        }
    }
}

/// What [`ProtocolCall`] stands for.
pub enum CallView {
    RequestSmsCode { phone_number: Seq<char> },
    ComputeNextStep { phone_number: Seq<char> },
    Login { title: Seq<char>, phone_number: Seq<char>, sms_code: Seq<char> },
    Register { phone_number: Seq<char>, sms_code: Seq<char>, display_name: Seq<char> },
    Store { record: AccountView },
}

/// A call that the machine asks its caller to make.
#[derive(Debug, Clone, PartialEq, Eq)]
pub enum ProtocolCall {
    /// Ask the backend to send a code to the phone.
    RequestSmsCode { phone_number: String },
    /// Ask the backend whether the phone has an account.
    ComputeNextStep { phone_number: String },
    /// Log in; the record that results bears `title`.
    Login { title: String, phone_number: String, sms_code: String },
    /// Register the phone under the holder's name.
    Register { phone_number: String, sms_code: String, display_name: String },
    /// Put the record into the account store, under its title.
    Store { record: AccountRecord },
}

impl View for ProtocolCall {
    type V = CallView;

    open spec fn view(&self) -> CallView {
        match self {
            ProtocolCall::RequestSmsCode { phone_number } => CallView::RequestSmsCode {
                phone_number: phone_number@,
            },
            ProtocolCall::ComputeNextStep { phone_number } => CallView::ComputeNextStep {
                phone_number: phone_number@,
            },
            ProtocolCall::Login { title, phone_number, sms_code } => CallView::Login {
                title: title@,
                phone_number: phone_number@,
                sms_code: sms_code@,
            },
            ProtocolCall::Register { phone_number, sms_code, display_name } => CallView::Register {
                phone_number: phone_number@,
                sms_code: sms_code@,
                display_name: display_name@,
            },
            ProtocolCall::Store { record } => CallView::Store { record: record@ },
        }
    }
}

/// What [`Notice`] stands for.
pub enum NoticeView {
    EnterSmsCode,
    EnterDisplayName,
    RepeatSmsCode,
    RepeatDisplayName,
    Cancelled,
    AccountAdded { title: Seq<char> },
    Failed(Failure),
    Busy,
    AlreadyOnboarding,
    Unhandled,
}

/// What the operator is to be told.
#[derive(Debug, Clone, PartialEq, Eq)]
pub enum Notice {
    /// A code was sent: type it in.
    EnterSmsCode,
    /// The phone has no account yet: type in the holder's name.
    EnterDisplayName,
    /// That was no text; the code is still awaited.
    RepeatSmsCode,
    /// That was no text; the holder's name is still awaited.
    RepeatDisplayName,
    /// The account that was being added is given up.
    Cancelled,
    /// The account is in the store under this title.
    AccountAdded { title: String },
    /// The attempt failed, and why.
    Failed(ProvisionError),
    /// A call is under way; only a cancellation is taken meanwhile.
    Busy,
    /// An account is being added already; cancel it first.
    AlreadyOnboarding,
    /// Nothing awaits this message.
    Unhandled,
}

impl View for Notice {
    type V = NoticeView;

    open spec fn view(&self) -> NoticeView {
        match self {
            Notice::EnterSmsCode => NoticeView::EnterSmsCode,
            Notice::EnterDisplayName => NoticeView::EnterDisplayName,
            Notice::RepeatSmsCode => NoticeView::RepeatSmsCode,
            Notice::RepeatDisplayName => NoticeView::RepeatDisplayName,
            Notice::Cancelled => NoticeView::Cancelled,
            Notice::AccountAdded { title } => NoticeView::AccountAdded { title: title@ },
            Notice::Failed(e) => NoticeView::Failed(e@),
            Notice::Busy => NoticeView::Busy,
            Notice::AlreadyOnboarding => NoticeView::AlreadyOnboarding,
            Notice::Unhandled => NoticeView::Unhandled,
        }
    }
}

/// What [`Action`] stands for.
pub enum ActionView {
    Nothing,
    Reply(NoticeView),
    Call { ticket: u64, call: CallView },
}

/// What the caller is to do after an event.
#[derive(Debug, Clone, PartialEq, Eq)]
pub enum Action {
    /// Nothing: the event changed nothing, or was out of date.
    Nothing,
    /// Tell the operator.
    Reply(Notice),
    /// Make this call, and hand its outcome back with this ticket.
    Call { ticket: u64, call: ProtocolCall },
}

impl View for Action {
    type V = ActionView;

    open spec fn view(&self) -> ActionView {
        match self {
            Action::Nothing => ActionView::Nothing,
            Action::Reply(notice) => ActionView::Reply(notice@),
            Action::Call { ticket, call } => ActionView::Call { ticket: *ticket, call: call@ },
        }
    }
}

/// What [`Event`] stands for.
pub enum EventView {
    AddAccount { title: Seq<char>, phone_number: Seq<char> },
    Cancel,
    Text(Seq<char>),
    NonText,
    SmsCodeRequested { ticket: u64, outcome: Result<(), Failure> },
    NextStepComputed { ticket: u64, outcome: Result<NextStep, Failure> },
    Registered { ticket: u64, outcome: Result<(), Failure> },
    LoggedIn { ticket: u64, outcome: Result<AccountView, Failure> },
    Stored { ticket: u64, outcome: Result<(), Seq<char>> },
}

/// What happens in a conversation: what the operator sends, and how the
/// calls that the machine asked for ended.
#[derive(Debug, PartialEq, Eq)]
pub enum Event {
    /// An authorized operator asks to add an account under `title`.
    AddAccount { title: String, phone_number: String },
    /// The owner of the conversation gives up what is under way.
    Cancel,
    /// A message that is text.
    Text(String),
    /// A message that is no text.
    NonText,
    /// The request for a code ended.
    SmsCodeRequested { ticket: u64, outcome: Result<(), ProvisionError> },
    /// The question for the next step ended.
    NextStepComputed { ticket: u64, outcome: Result<NextStep, ProvisionError> },
    /// The registration ended.
    Registered { ticket: u64, outcome: Result<(), ProvisionError> },
    /// The login ended.
    LoggedIn { ticket: u64, outcome: Result<AccountRecord, ProvisionError> },
    /// The store took the record, or failed to.
    Stored { ticket: u64, outcome: Result<(), StoreError> },
}

/// What the store's answer stands for.
pub open spec fn stored_view(outcome: Result<(), StoreError>) -> Result<(), Seq<char>> {
    match outcome {
        Ok(_) => Ok(()),
        Err(e) => Err(e@),
    }
}

impl View for Event {
    type V = EventView;

    open spec fn view(&self) -> EventView {
        match self {
            Event::AddAccount { title, phone_number } => EventView::AddAccount {
                title: title@,
                phone_number: phone_number@,
            },
            Event::Cancel => EventView::Cancel,
            Event::Text(text) => EventView::Text(text@),
            Event::NonText => EventView::NonText,
            Event::SmsCodeRequested { ticket, outcome } => EventView::SmsCodeRequested {
                ticket: *ticket,
                outcome: outcome_view(*outcome),
            },
            Event::NextStepComputed { ticket, outcome } => EventView::NextStepComputed {
                ticket: *ticket,
                outcome: outcome_view(*outcome),
            },
            Event::Registered { ticket, outcome } => EventView::Registered {
                ticket: *ticket,
                outcome: outcome_view(*outcome),
            },
            Event::LoggedIn { ticket, outcome } => EventView::LoggedIn {
                ticket: *ticket,
                outcome: record_view(*outcome),
            },
            Event::Stored { ticket, outcome } => EventView::Stored {
                ticket: *ticket,
                outcome: stored_view(*outcome),
            },
        }
    }
}

} // verus!
