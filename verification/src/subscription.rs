//! Recurring billing agreements: created active, charged one due cycle at a
//! time, paused and resumed at will, cancelled for good.

use vstd::prelude::*;
use crate::address::Key;
use crate::address::Signer;
use crate::address::spec_subscription_address;
use crate::address::subscription_address;
use crate::ledger::TokenAccount;
use crate::ledger::can_transfer;
use crate::ledger::transfer;

verus! {

/// Why a subscription operation was refused.
#[derive(Clone, Copy, Debug, PartialEq, Eq, Structural)]
pub enum ErrorCode {
    /// A record already stands at the derived address.
    AlreadyExists,
    /// No record stands at the address.
    NotFound,
    /// The required identity has not proved itself.
    Unauthorized,
    /// The subscription is cancelled, or paused where a charge was asked for.
    SubscriptionInactive,
    /// The next payment is not due yet.
    PaymentNotDue,
    /// Every payment that the agreement allows has been made.
    MaxPaymentsReached,
    /// The subscription is paused already.
    AlreadyPaused,
    /// The subscription is not paused.
    NotPaused,
    /// The payment cannot complete.
    InsufficientFunds,
    /// A zero interval, a due time beyond the range of timestamps, or an
    /// address that is not the one derived from the identities.
    InvalidArgument,
}

/// A billing agreement between one merchant and one customer.
#[derive(Clone, Copy, Debug, PartialEq, Eq)]
pub struct Subscription {
    pub plan_id: u64,
    pub merchant: Key,
    pub customer: Key,
    pub amount: u64,
    pub interval_seconds: u64,
    pub next_payment_due: u64,
    pub total_payments: u32,
    pub max_payments: Option<u32>,
    pub is_active: bool,
    pub is_paused: bool,
    pub created_at: u64,
    pub last_payment_at: Option<u64>,
    pub cancelled_at: Option<u64>,
    pub paused_at: Option<u64>,
}

/// What the record store holds at one address: a subscription, or nothing
/// yet.
#[derive(Clone, Copy, Debug, PartialEq, Eq)]
pub struct SubscriptionAccount {
    pub address: Key,
    pub record: Option<Subscription>,
}

impl Subscription {
    /// What holds of every record that the operations of this module made:
    /// the interval is positive; the record is inactive exactly when it
    /// remembers its cancellation, and paused exactly when it remembers
    /// since when; a payment time is remembered exactly when a payment was
    /// counted; and the count is within the agreed number.
    pub open spec fn well_formed(&self) -> bool {
        &&& self.interval_seconds > 0
        &&& !self.is_active <==> self.cancelled_at is Some
        &&& self.is_paused <==> self.paused_at is Some
        &&& self.total_payments > 0 <==> self.last_payment_at is Some
        &&& self.max_payments matches Some(max) ==> self.total_payments <= max
    }

    /// The terms that no operation changes: the plan, the parties, the
    /// amount, the interval, the agreed number of payments and the time of
    /// creation.
    pub open spec fn same_terms(&self, other: Subscription) -> bool {
        &&& self.plan_id == other.plan_id
        &&& self.merchant == other.merchant
        &&& self.customer == other.customer
        &&& self.amount == other.amount
        &&& self.interval_seconds == other.interval_seconds
        &&& self.max_payments == other.max_payments
        &&& self.created_at == other.created_at
    }
}

/// What creating a subscription touches.
#[derive(Clone, Copy, Debug, PartialEq, Eq)]
pub struct InitializeSubscription {
    pub subscription: SubscriptionAccount,
    pub merchant: Signer,
    pub customer: Signer,
}

/// What charging a due payment touches.
#[derive(Clone, Copy, Debug, PartialEq, Eq)]
pub struct ProcessPayment {
    pub subscription: SubscriptionAccount,
    pub customer: Signer,
    pub customer_token_account: TokenAccount,
    pub merchant_token_account: TokenAccount,
}

/// What cancelling a subscription touches.
#[derive(Clone, Copy, Debug, PartialEq, Eq)]
pub struct CancelSubscription {
    pub subscription: SubscriptionAccount,
    pub customer: Signer,
}

/// What pausing a subscription touches.
#[derive(Clone, Copy, Debug, PartialEq, Eq)]
pub struct PauseSubscription {
    pub subscription: SubscriptionAccount,
    pub customer: Signer,
}

/// What resuming a subscription touches.
#[derive(Clone, Copy, Debug, PartialEq, Eq)]
pub struct ResumeSubscription {
    pub subscription: SubscriptionAccount,
    pub customer: Signer,
}

/// Notice that a payment was charged; `payment_number` counts from one.
#[derive(Clone, Copy, Debug, PartialEq, Eq)]
pub struct PaymentProcessed {
    pub subscription: Key,
    pub amount: u64,
    pub payment_number: u32,
}

/// Notice that a subscription was cancelled.
#[derive(Clone, Copy, Debug, PartialEq, Eq)]
pub struct SubscriptionCancelled {
    pub subscription: Key,
    pub cancelled_at: u64,
}

/// Notice that a subscription was paused.
#[derive(Clone, Copy, Debug, PartialEq, Eq)]
pub struct SubscriptionPaused {
    pub subscription: Key,
    pub paused_at: u64,
}

/// Notice that a subscription was resumed.
#[derive(Clone, Copy, Debug, PartialEq, Eq)]
pub struct SubscriptionResumed {
    pub subscription: Key,
    pub resumed_at: u64,
}

/// An operation is all or nothing: refused for `refusal` with everything as
/// it was, or done, leaving `applied` and giving `notice`.
pub open spec fn decided<C, N>(
    pre: C,
    post: C,
    outcome: Result<N, ErrorCode>,
    refusal: Option<ErrorCode>,
    applied: C,
    notice: N,
) -> bool {
    match refusal {
        Some(e) => outcome == Err::<N, ErrorCode>(e) && post == pre,
        None => outcome == Ok::<N, ErrorCode>(notice) && post == applied,
    }
}

/// The address derived from what the record in `account` holds, where it
/// holds one.
pub open spec fn stored_subscription_address(program: Key, account: SubscriptionAccount) -> Option<
    Key,
> {
    match account.record {
        Some(record) => spec_subscription_address(
            program,
            record.merchant,
            record.customer,
            record.plan_id,
        ),
        None => None,
    }
}

/// Derives [`stored_subscription_address`].
fn stored_address(program_id: &Key, account: &SubscriptionAccount) -> (address: Option<Key>)
    ensures
        address == stored_subscription_address(*program_id, *account),
{
    match &account.record {
        Some(record) => subscription_address(
            program_id,
            &record.merchant,
            &record.customer,
            record.plan_id,
        ),
        None => None,
    }
}

/// The time `interval` after `from`, where the range of timestamps holds it.
pub open spec fn due_after(from: u64, interval: u64) -> Option<u64> {
    if from + interval <= u64::MAX {
        Some((from + interval) as u64)
    } else {
        None
    }
}

/// Computes [`due_after`].
fn next_due(from: u64, interval: u64) -> (due: Option<u64>)
    ensures
        due == due_after(from, interval),
{
    if interval <= u64::MAX - from {
        Some(from + interval)
    } else {
        None
    }
}

// ---------------------------------------------------------------------------
// Creation

/// Why creation is refused, if it is: the first of these that applies.
pub open spec fn initialize_refusal(
    pre: InitializeSubscription,
    derived: Option<Key>,
    now: u64,
    interval_seconds: u64,
) -> Option<ErrorCode> {
    if !pre.merchant.is_signer || !pre.customer.is_signer {
        Some(ErrorCode::Unauthorized)
    } else if interval_seconds == 0 || due_after(now, interval_seconds) is None {
        Some(ErrorCode::InvalidArgument)
    } else if derived != Some(pre.subscription.address) {
        Some(ErrorCode::InvalidArgument)
    } else if pre.subscription.record is Some {
        Some(ErrorCode::AlreadyExists)
    } else {
        None
    }
}

/// The record of a subscription as it is created at `now`: active, not
/// paused, nothing paid, first payment due one interval later.
pub open spec fn created(
    merchant: Key,
    customer: Key,
    now: u64,
    plan_id: u64,
    amount: u64,
    interval_seconds: u64,
    max_payments: Option<u32>,
) -> Subscription {
    Subscription {
        plan_id,
        merchant,
        customer,
        amount,
        interval_seconds,
        next_payment_due: (now + interval_seconds) as u64,
        total_payments: 0,
        max_payments,
        is_active: true,
        is_paused: false,
        created_at: now,
        last_payment_at: None,
        cancelled_at: None,
        paused_at: None,
    }
}

/// What [`initialize_subscription_at`] does.
pub open spec fn initialize_subscription_spec(
    pre: InitializeSubscription,
    post: InitializeSubscription,
    outcome: Result<(), ErrorCode>,
    derived: Option<Key>,
    now: u64,
    plan_id: u64,
    amount: u64,
    interval_seconds: u64,
    max_payments: Option<u32>,
) -> bool {
    decided(
        pre,
        post,
        outcome,
        initialize_refusal(pre, derived, now, interval_seconds),
        InitializeSubscription {
            subscription: SubscriptionAccount {
                address: pre.subscription.address,
                record: Some(
                    created(
                        pre.merchant.key,
                        pre.customer.key,
                        now,
                        plan_id,
                        amount,
                        interval_seconds,
                        max_payments,
                    ),
                ),
            },
            ..pre
        },
        (),
    )
}

/// Creates a subscription, given the address `derived` for its merchant,
/// customer and plan.
pub fn initialize_subscription_at(
    ctx: &mut InitializeSubscription,
    derived: Option<Key>,
    now: u64,
    plan_id: u64,
    amount: u64,
    interval_seconds: u64,
    max_payments: Option<u32>,
) -> (outcome: Result<(), ErrorCode>)
    ensures
        initialize_subscription_spec(
            *old(ctx),
            *final(ctx),
            outcome,
            derived,
            now,
            plan_id,
            amount,
            interval_seconds,
            max_payments,
        ),
{
    if !ctx.merchant.is_signer || !ctx.customer.is_signer {
        return Err(ErrorCode::Unauthorized);
    }
    if interval_seconds == 0 {
        return Err(ErrorCode::InvalidArgument);
    }
    let due = match next_due(now, interval_seconds) {
        Some(due) => due,
        None => {
            return Err(ErrorCode::InvalidArgument);
        },
    };
    let at_derived = match &derived {
        Some(address) => address.same_as(&ctx.subscription.address),
        None => false,
    };
    if !at_derived {
        return Err(ErrorCode::InvalidArgument);
    }
    if ctx.subscription.record.is_some() {
        return Err(ErrorCode::AlreadyExists);
    }
    ctx.subscription.record = Some(
        Subscription {
            plan_id,
            merchant: ctx.merchant.key,
            customer: ctx.customer.key,
            amount,
            interval_seconds,
            next_payment_due: due,
            total_payments: 0,
            max_payments,
            is_active: true,
            is_paused: false,
            created_at: now,
            last_payment_at: None,
            cancelled_at: None,
            paused_at: None,
        },
    );
    Ok(())
}

/// Creates a subscription: derives the address from the two identities and
/// `plan_id`, then does as [`initialize_subscription_at`].
pub fn initialize_subscription(
    ctx: &mut InitializeSubscription,
    program_id: &Key,
    now: u64,
    plan_id: u64,
    amount: u64,
    interval_seconds: u64,
    max_payments: Option<u32>,
) -> (outcome: Result<(), ErrorCode>)
    ensures
        initialize_subscription_spec(
            *old(ctx),
            *final(ctx),
            outcome,
            spec_subscription_address(
                *program_id,
                old(ctx).merchant.key,
                old(ctx).customer.key,
                plan_id,
            ),
            now,
            plan_id,
            amount,
            interval_seconds,
            max_payments,
        ),
        outcome is Ok ==> stored_subscription_address(*program_id, final(ctx).subscription) == Some(
            final(ctx).subscription.address,
        ),
{
    let derived = subscription_address(program_id, &ctx.merchant.key, &ctx.customer.key, plan_id);
    initialize_subscription_at(ctx, derived, now, plan_id, amount, interval_seconds, max_payments)
}

// ---------------------------------------------------------------------------
// What every operation on an existing subscription asks first

/// Why an operation on an existing subscription is turned away before its
/// state is looked at: no record, a customer who has not proved to be the
/// record's own, or an account that is not at the derived address.
pub open spec fn access_refusal(
    account: SubscriptionAccount,
    customer: Signer,
    derived: Option<Key>,
) -> Option<ErrorCode> {
    match account.record {
        None => Some(ErrorCode::NotFound),
        Some(record) => if !customer.proves(record.customer) {
            Some(ErrorCode::Unauthorized)
        } else if derived != Some(account.address) {
            Some(ErrorCode::InvalidArgument)
        } else {
            None
        },
    }
}

/// Decides [`access_refusal`].
fn check_access(account: &SubscriptionAccount, customer: &Signer, derived: &Option<Key>) -> (refusal:
    Option<ErrorCode>)
    ensures
        refusal == access_refusal(*account, *customer, *derived),
{
    match &account.record {
        None => Some(ErrorCode::NotFound),
        Some(record) => {
            if !customer.verify(&record.customer) {
                return Some(ErrorCode::Unauthorized);
            }
            let at_derived = match derived {
                Some(address) => address.same_as(&account.address),
                None => false,
            };
            if !at_derived {
                return Some(ErrorCode::InvalidArgument);
            }
            None
        },
    }
}

/// The first refusal of two checks made in order.
pub open spec fn first_refusal(first: Option<ErrorCode>, second: Option<ErrorCode>) -> Option<
    ErrorCode,
> {
    if first is Some {
        first
    } else {
        second
    }
}

// ---------------------------------------------------------------------------
// Payment

/// No further payment may be counted: the agreed number is reached, or the
/// counter is at the end of its range.
pub open spec fn payments_exhausted(record: Subscription) -> bool {
    record.total_payments == u32::MAX || match record.max_payments {
        Some(max) => record.total_payments >= max,
        None => false,
    }
}

/// Why the state of `record` forbids a charge at `now`, if it does: the
/// first of these that applies.
pub open spec fn payment_refusal(
    record: Subscription,
    payer: TokenAccount,
    payee: TokenAccount,
    now: u64,
) -> Option<ErrorCode> {
    if !record.is_active || record.is_paused {
        Some(ErrorCode::SubscriptionInactive)
    } else if now < record.next_payment_due {
        Some(ErrorCode::PaymentNotDue)
    } else if payments_exhausted(record) {
        Some(ErrorCode::MaxPaymentsReached)
    } else if due_after(record.next_payment_due, record.interval_seconds) is None {
        Some(ErrorCode::InvalidArgument)
    } else if !can_transfer(payer, payee, record.amount) {
        Some(ErrorCode::InsufficientFunds)
    } else {
        None
    }
}

/// The record after one payment charged at `now`: one more payment counted,
/// the due time one interval after the previous due time.
pub open spec fn paid(record: Subscription, now: u64) -> Subscription {
    Subscription {
        total_payments: (record.total_payments + 1) as u32,
        next_payment_due: (record.next_payment_due + record.interval_seconds) as u64,
        last_payment_at: Some(now),
        ..record
    }
}

/// What [`process_payment_at`] does.
pub open spec fn process_payment_spec(
    pre: ProcessPayment,
    post: ProcessPayment,
    outcome: Result<PaymentProcessed, ErrorCode>,
    derived: Option<Key>,
    now: u64,
) -> bool {
    let record = pre.subscription.record->0;
    decided(
        pre,
        post,
        outcome,
        first_refusal(
            access_refusal(pre.subscription, pre.customer, derived),
            payment_refusal(record, pre.customer_token_account, pre.merchant_token_account, now),
        ),
        ProcessPayment {
            subscription: SubscriptionAccount {
                address: pre.subscription.address,
                record: Some(paid(record, now)),
            },
            customer: pre.customer,
            customer_token_account: TokenAccount {
                amount: (pre.customer_token_account.amount - record.amount) as u64,
            },
            merchant_token_account: TokenAccount {
                amount: (pre.merchant_token_account.amount + record.amount) as u64,
            },
        },
        PaymentProcessed {
            subscription: pre.subscription.address,
            amount: record.amount,
            payment_number: (record.total_payments + 1) as u32,
        },
    )
}

/// Charges one due payment, given the address `derived` for the identities
/// and plan that the record holds.
pub fn process_payment_at(ctx: &mut ProcessPayment, derived: Option<Key>, now: u64) -> (outcome:
    Result<PaymentProcessed, ErrorCode>)
    ensures
        process_payment_spec(*old(ctx), *final(ctx), outcome, derived, now),
{
    if let Some(e) = check_access(&ctx.subscription, &ctx.customer, &derived) {
        return Err(e);
    }
    let record = ctx.subscription.record.unwrap();
    if !record.is_active || record.is_paused {
        return Err(ErrorCode::SubscriptionInactive);
    }
    if now < record.next_payment_due {
        return Err(ErrorCode::PaymentNotDue);
    }
    let exhausted = record.total_payments == u32::MAX || match record.max_payments {
        Some(max) => record.total_payments >= max,
        None => false,
    };
    if exhausted {
        return Err(ErrorCode::MaxPaymentsReached);
    }
    let due = match next_due(record.next_payment_due, record.interval_seconds) {
        Some(due) => due,
        None => {
            return Err(ErrorCode::InvalidArgument);
        },
    };
    let moved = transfer(
        &mut ctx.customer_token_account,
        &mut ctx.merchant_token_account,
        record.amount,
    );
    if moved.is_err() {
        return Err(ErrorCode::InsufficientFunds);
    }
    let payment_number: u32 = record.total_payments + 1;
    ctx.subscription.record = Some(
        Subscription {
            total_payments: payment_number,
            next_payment_due: due,
            last_payment_at: Some(now),
            ..record
        },
    );
    Ok(
        PaymentProcessed {
            subscription: ctx.subscription.address,
            amount: record.amount,
            payment_number,
        },
    )
}

/// Charges one due payment: derives the address from what the record holds,
/// then does as [`process_payment_at`].
pub fn process_payment(ctx: &mut ProcessPayment, program_id: &Key, now: u64) -> (outcome: Result<
    PaymentProcessed,
    ErrorCode,
>)
    ensures
        process_payment_spec(
            *old(ctx),
            *final(ctx),
            outcome,
            stored_subscription_address(*program_id, old(ctx).subscription),
            now,
        ),
{
    let derived = stored_address(program_id, &ctx.subscription);
    process_payment_at(ctx, derived, now)
}

// ---------------------------------------------------------------------------
// Cancellation

/// Why the state of `record` forbids cancelling, if it does.
pub open spec fn cancel_refusal(record: Subscription) -> Option<ErrorCode> {
    if !record.is_active || record.cancelled_at is Some {
        Some(ErrorCode::SubscriptionInactive)
    } else {
        None
    }
}

/// What [`cancel_subscription_at`] does: the record is no longer active and
/// remembers when that happened.
pub open spec fn cancel_subscription_spec(
    pre: CancelSubscription,
    post: CancelSubscription,
    outcome: Result<SubscriptionCancelled, ErrorCode>,
    derived: Option<Key>,
    now: u64,
) -> bool {
    let record = pre.subscription.record->0;
    decided(
        pre,
        post,
        outcome,
        first_refusal(
            access_refusal(pre.subscription, pre.customer, derived),
            cancel_refusal(record),
        ),
        CancelSubscription {
            subscription: SubscriptionAccount {
                address: pre.subscription.address,
                record: Some(Subscription { is_active: false, cancelled_at: Some(now), ..record }),
            },
            customer: pre.customer,
        },
        SubscriptionCancelled { subscription: pre.subscription.address, cancelled_at: now },
    )
}

/// Cancels a subscription, given the address `derived` for the identities
/// and plan that the record holds.
pub fn cancel_subscription_at(ctx: &mut CancelSubscription, derived: Option<Key>, now: u64) -> (outcome:
    Result<SubscriptionCancelled, ErrorCode>)
    ensures
        cancel_subscription_spec(*old(ctx), *final(ctx), outcome, derived, now),
{
    if let Some(e) = check_access(&ctx.subscription, &ctx.customer, &derived) {
        return Err(e);
    }
    let record = ctx.subscription.record.unwrap();
    if !record.is_active || record.cancelled_at.is_some() {
        return Err(ErrorCode::SubscriptionInactive);
    }
    ctx.subscription.record = Some(
        Subscription { is_active: false, cancelled_at: Some(now), ..record },
    );
    Ok(SubscriptionCancelled { subscription: ctx.subscription.address, cancelled_at: now })
}

/// Cancels a subscription: derives the address from what the record holds,
/// then does as [`cancel_subscription_at`].
pub fn cancel_subscription(ctx: &mut CancelSubscription, program_id: &Key, now: u64) -> (outcome:
    Result<SubscriptionCancelled, ErrorCode>)
    ensures
        cancel_subscription_spec(
            *old(ctx),
            *final(ctx),
            outcome,
            stored_subscription_address(*program_id, old(ctx).subscription),
            now,
        ),
{
    let derived = stored_address(program_id, &ctx.subscription);
    cancel_subscription_at(ctx, derived, now)
}

// ---------------------------------------------------------------------------
// Pause

/// Why the state of `record` forbids pausing, if it does: the first of
/// these that applies.
pub open spec fn pause_refusal(record: Subscription) -> Option<ErrorCode> {
    if !record.is_active {
        Some(ErrorCode::SubscriptionInactive)
    } else if record.is_paused {
        Some(ErrorCode::AlreadyPaused)
    } else {
        None
    }
}

/// What [`pause_subscription_at`] does: the record is paused and remembers
/// since when.
pub open spec fn pause_subscription_spec(
    pre: PauseSubscription,
    post: PauseSubscription,
    outcome: Result<SubscriptionPaused, ErrorCode>,
    derived: Option<Key>,
    now: u64,
) -> bool {
    let record = pre.subscription.record->0;
    decided(
        pre,
        post,
        outcome,
        first_refusal(
            access_refusal(pre.subscription, pre.customer, derived),
            pause_refusal(record),
        ),
        PauseSubscription {
            subscription: SubscriptionAccount {
                address: pre.subscription.address,
                record: Some(Subscription { is_paused: true, paused_at: Some(now), ..record }),
            },
            customer: pre.customer,
        },
        SubscriptionPaused { subscription: pre.subscription.address, paused_at: now },
    )
}

/// Pauses a subscription, given the address `derived` for the identities
/// and plan that the record holds.
pub fn pause_subscription_at(ctx: &mut PauseSubscription, derived: Option<Key>, now: u64) -> (outcome:
    Result<SubscriptionPaused, ErrorCode>)
    ensures
        pause_subscription_spec(*old(ctx), *final(ctx), outcome, derived, now),
{
    if let Some(e) = check_access(&ctx.subscription, &ctx.customer, &derived) {
        return Err(e);
    }
    let record = ctx.subscription.record.unwrap();
    if !record.is_active {
        return Err(ErrorCode::SubscriptionInactive);
    }
    if record.is_paused {
        return Err(ErrorCode::AlreadyPaused);
    }
    ctx.subscription.record = Some(
        Subscription { is_paused: true, paused_at: Some(now), ..record },
    );
    Ok(SubscriptionPaused { subscription: ctx.subscription.address, paused_at: now })
}

/// Pauses a subscription: derives the address from what the record holds,
/// then does as [`pause_subscription_at`].
pub fn pause_subscription(ctx: &mut PauseSubscription, program_id: &Key, now: u64) -> (outcome:
    Result<SubscriptionPaused, ErrorCode>)
    ensures
        pause_subscription_spec(
            *old(ctx),
            *final(ctx),
            outcome,
            stored_subscription_address(*program_id, old(ctx).subscription),
            now,
        ),
{
    let derived = stored_address(program_id, &ctx.subscription);
    pause_subscription_at(ctx, derived, now)
}

// ---------------------------------------------------------------------------
// Resumption

/// Why the state of `record` forbids resuming at `now`, if it does: the
/// first of these that applies.
pub open spec fn resume_refusal(record: Subscription, now: u64) -> Option<ErrorCode> {
    if !record.is_active {
        Some(ErrorCode::SubscriptionInactive)
    } else if !record.is_paused {
        Some(ErrorCode::NotPaused)
    } else if due_after(now, record.interval_seconds) is None {
        Some(ErrorCode::InvalidArgument)
    } else {
        None
    }
}

/// What [`resume_subscription_at`] does: the record is no longer paused, and
/// its next payment is due one interval after `now`, however long the pause
/// was.
pub open spec fn resume_subscription_spec(
    pre: ResumeSubscription,
    post: ResumeSubscription,
    outcome: Result<SubscriptionResumed, ErrorCode>,
    derived: Option<Key>,
    now: u64,
) -> bool {
    let record = pre.subscription.record->0;
    decided(
        pre,
        post,
        outcome,
        first_refusal(
            access_refusal(pre.subscription, pre.customer, derived),
            resume_refusal(record, now),
        ),
        ResumeSubscription {
            subscription: SubscriptionAccount {
                address: pre.subscription.address,
                record: Some(
                    Subscription {
                        is_paused: false,
                        next_payment_due: (now + record.interval_seconds) as u64,
                        paused_at: None,
                        ..record
                    },
                ),
            },
            customer: pre.customer,
        },
        SubscriptionResumed { subscription: pre.subscription.address, resumed_at: now },
    )
}

/// Resumes a paused subscription, given the address `derived` for the
/// identities and plan that the record holds.
pub fn resume_subscription_at(ctx: &mut ResumeSubscription, derived: Option<Key>, now: u64) -> (outcome:
    Result<SubscriptionResumed, ErrorCode>)
    ensures
        resume_subscription_spec(*old(ctx), *final(ctx), outcome, derived, now),
{
    if let Some(e) = check_access(&ctx.subscription, &ctx.customer, &derived) {
        return Err(e);
    }
    let record = ctx.subscription.record.unwrap();
    if !record.is_active {
        return Err(ErrorCode::SubscriptionInactive);
    }
    if !record.is_paused {
        return Err(ErrorCode::NotPaused);
    }
    let due = match next_due(now, record.interval_seconds) {
        Some(due) => due,
        None => {
            return Err(ErrorCode::InvalidArgument);
        },
    };
    ctx.subscription.record = Some(
        Subscription { is_paused: false, next_payment_due: due, paused_at: None, ..record },
    );
    Ok(SubscriptionResumed { subscription: ctx.subscription.address, resumed_at: now })
}

/// Resumes a paused subscription: derives the address from what the record
/// holds, then does as [`resume_subscription_at`].
pub fn resume_subscription(ctx: &mut ResumeSubscription, program_id: &Key, now: u64) -> (outcome:
    Result<SubscriptionResumed, ErrorCode>)
    ensures
        resume_subscription_spec(
            *old(ctx),
            *final(ctx),
            outcome,
            stored_subscription_address(*program_id, old(ctx).subscription),
            now,
        ),
{
    let derived = stored_address(program_id, &ctx.subscription);
    resume_subscription_at(ctx, derived, now)
}

// ---------------------------------------------------------------------------
// What holds of the life of a subscription

/// A subscription that was created stands at the address derived from the
/// identities and plan that it holds.
pub proof fn law_subscription_address_round_trip(
    pre: InitializeSubscription,
    post: InitializeSubscription,
    program: Key,
    now: u64,
    plan_id: u64,
    amount: u64,
    interval_seconds: u64,
    max_payments: Option<u32>,
    outcome: Result<(), ErrorCode>,
)
    requires
        initialize_subscription_spec(
            pre,
            post,
            outcome,
            spec_subscription_address(program, pre.merchant.key, pre.customer.key, plan_id),
            now,
            plan_id,
            amount,
            interval_seconds,
            max_payments,
        ),
        outcome is Ok,
    ensures
        stored_subscription_address(program, post.subscription) == Some(post.subscription.address),
{
}

/// A charge that is refused, for whatever reason, moves no funds and
/// changes no record.
pub proof fn law_refused_payment_changes_nothing(
    pre: ProcessPayment,
    post: ProcessPayment,
    outcome: Result<PaymentProcessed, ErrorCode>,
    derived: Option<Key>,
    now: u64,
)
    requires
        process_payment_spec(pre, post, outcome, derived, now),
        outcome is Err,
    ensures
        post == pre,
{
}

/// Before its due time a charge on a running subscription is refused as not
/// due, and moves and changes nothing. The subscription is one that the
/// customer has reached at its own address, active and not paused.
pub proof fn law_payment_not_due(
    pre: ProcessPayment,
    post: ProcessPayment,
    outcome: Result<PaymentProcessed, ErrorCode>,
    derived: Option<Key>,
    now: u64,
)
    requires
        process_payment_spec(pre, post, outcome, derived, now),
        access_refusal(pre.subscription, pre.customer, derived) is None,
        pre.subscription.record->0.is_active,
        !pre.subscription.record->0.is_paused,
        now < pre.subscription.record->0.next_payment_due,
    ensures
        outcome == Err::<PaymentProcessed, ErrorCode>(ErrorCode::PaymentNotDue),
        post == pre,
{
}

/// A paused subscription is never charged, due or not.
pub proof fn law_paused_never_pays(
    pre: ProcessPayment,
    post: ProcessPayment,
    outcome: Result<PaymentProcessed, ErrorCode>,
    derived: Option<Key>,
    now: u64,
)
    requires
        process_payment_spec(pre, post, outcome, derived, now),
        pre.subscription.record is Some,
        pre.subscription.record->0.is_paused,
    ensures
        outcome is Err,
        post == pre,
{
}

/// A charge that goes through counts one payment more and stays within the
/// agreed number; the due time moves on by exactly one interval from where
/// it stood, not from the time of the charge.
pub proof fn law_payment_counts_within_max(
    pre: ProcessPayment,
    post: ProcessPayment,
    outcome: Result<PaymentProcessed, ErrorCode>,
    derived: Option<Key>,
    now: u64,
)
    requires
        process_payment_spec(pre, post, outcome, derived, now),
        outcome is Ok,
    ensures
        post.subscription.record is Some,
        post.subscription.record->0.total_payments == pre.subscription.record->0.total_payments + 1,
        post.subscription.record->0.next_payment_due == pre.subscription.record->0.next_payment_due
            + pre.subscription.record->0.interval_seconds,
        pre.subscription.record->0.max_payments matches Some(max)
            ==> post.subscription.record->0.total_payments <= max,
        post.customer_token_account.amount + post.merchant_token_account.amount
            == pre.customer_token_account.amount + pre.merchant_token_account.amount,
{
}

/// Once the agreed number of payments is made, a charge that is due on a
/// running subscription is refused as exhausted and the count stays.
pub proof fn law_max_payments_reached(
    pre: ProcessPayment,
    post: ProcessPayment,
    outcome: Result<PaymentProcessed, ErrorCode>,
    derived: Option<Key>,
    now: u64,
)
    requires
        process_payment_spec(pre, post, outcome, derived, now),
        access_refusal(pre.subscription, pre.customer, derived) is None,
        pre.subscription.record->0.is_active,
        !pre.subscription.record->0.is_paused,
        now >= pre.subscription.record->0.next_payment_due,
        pre.subscription.record->0.max_payments matches Some(max)
            && pre.subscription.record->0.total_payments >= max,
    ensures
        outcome == Err::<PaymentProcessed, ErrorCode>(ErrorCode::MaxPaymentsReached),
        post == pre,
{
}

/// A resumption that goes through owes nothing for the pause: the next
/// payment is due one interval after the resumption, whenever the pause
/// began and whatever was due before.
pub proof fn law_resume_resets_due(
    pre: ResumeSubscription,
    post: ResumeSubscription,
    outcome: Result<SubscriptionResumed, ErrorCode>,
    derived: Option<Key>,
    now: u64,
)
    requires
        resume_subscription_spec(pre, post, outcome, derived, now),
        outcome is Ok,
    ensures
        post.subscription.record is Some,
        post.subscription.record->0.next_payment_due == now
            + pre.subscription.record->0.interval_seconds,
        !post.subscription.record->0.is_paused,
        post.subscription.record->0.paused_at is None,
{
}

/// A cancelled subscription stays cancelled: no later charge, pause,
/// resumption or second cancellation goes through.
pub proof fn law_cancelled_is_terminal(
    record: Subscription,
    payer: TokenAccount,
    payee: TokenAccount,
    now: u64,
)
    requires
        !record.is_active,
    ensures
        payment_refusal(record, payer, payee, now) is Some,
        cancel_refusal(record) is Some,
        pause_refusal(record) is Some,
        resume_refusal(record, now) is Some,
{
}

/// A subscription that was created is well formed.
pub proof fn law_created_is_well_formed(
    pre: InitializeSubscription,
    post: InitializeSubscription,
    outcome: Result<(), ErrorCode>,
    derived: Option<Key>,
    now: u64,
    plan_id: u64,
    amount: u64,
    interval_seconds: u64,
    max_payments: Option<u32>,
)
    requires
        initialize_subscription_spec(
            pre,
            post,
            outcome,
            derived,
            now,
            plan_id,
            amount,
            interval_seconds,
            max_payments,
        ),
        outcome is Ok,
    ensures
        post.subscription.record is Some,
        post.subscription.record->0.well_formed(),
        post.subscription.record->0.next_payment_due == now + interval_seconds,
        post.subscription.record->0.total_payments == 0,
{
}

/// A charge keeps a well-formed record well formed, keeps its terms, its
/// address and whether it is cancelled or paused.
pub proof fn law_payment_preserves(
    pre: ProcessPayment,
    post: ProcessPayment,
    outcome: Result<PaymentProcessed, ErrorCode>,
    derived: Option<Key>,
    now: u64,
)
    requires
        process_payment_spec(pre, post, outcome, derived, now),
        pre.subscription.record is Some,
        pre.subscription.record->0.well_formed(),
    ensures
        post.subscription.address == pre.subscription.address,
        post.subscription.record is Some,
        post.subscription.record->0.well_formed(),
        post.subscription.record->0.same_terms(pre.subscription.record->0),
        post.subscription.record->0.cancelled_at == pre.subscription.record->0.cancelled_at,
        post.subscription.record->0.paused_at == pre.subscription.record->0.paused_at,
{
}

/// A cancellation keeps a well-formed record well formed and keeps its
/// terms, its address, its schedule and its count.
pub proof fn law_cancel_preserves(
    pre: CancelSubscription,
    post: CancelSubscription,
    outcome: Result<SubscriptionCancelled, ErrorCode>,
    derived: Option<Key>,
    now: u64,
)
    requires
        cancel_subscription_spec(pre, post, outcome, derived, now),
        pre.subscription.record is Some,
        pre.subscription.record->0.well_formed(),
    ensures
        post.subscription.address == pre.subscription.address,
        post.subscription.record is Some,
        post.subscription.record->0.well_formed(),
        post.subscription.record->0.same_terms(pre.subscription.record->0),
        post.subscription.record->0.next_payment_due
            == pre.subscription.record->0.next_payment_due,
        post.subscription.record->0.total_payments == pre.subscription.record->0.total_payments,
        outcome is Ok ==> !post.subscription.record->0.is_active
            && post.subscription.record->0.cancelled_at == Some(now),
{
}

/// A pause keeps a well-formed record well formed and keeps its terms, its
/// address, its schedule, its count and its cancellation.
pub proof fn law_pause_preserves(
    pre: PauseSubscription,
    post: PauseSubscription,
    outcome: Result<SubscriptionPaused, ErrorCode>,
    derived: Option<Key>,
    now: u64,
)
    requires
        pause_subscription_spec(pre, post, outcome, derived, now),
        pre.subscription.record is Some,
        pre.subscription.record->0.well_formed(),
    ensures
        post.subscription.address == pre.subscription.address,
        post.subscription.record is Some,
        post.subscription.record->0.well_formed(),
        post.subscription.record->0.same_terms(pre.subscription.record->0),
        post.subscription.record->0.next_payment_due
            == pre.subscription.record->0.next_payment_due,
        post.subscription.record->0.total_payments == pre.subscription.record->0.total_payments,
        post.subscription.record->0.cancelled_at == pre.subscription.record->0.cancelled_at,
        outcome is Ok ==> post.subscription.record->0.is_paused
            && post.subscription.record->0.paused_at == Some(now),
{
}

/// A resumption keeps a well-formed record well formed and keeps its terms,
/// its address, its count and its cancellation.
pub proof fn law_resume_preserves(
    pre: ResumeSubscription,
    post: ResumeSubscription,
    outcome: Result<SubscriptionResumed, ErrorCode>,
    derived: Option<Key>,
    now: u64,
)
    requires
        resume_subscription_spec(pre, post, outcome, derived, now),
        pre.subscription.record is Some,
        pre.subscription.record->0.well_formed(),
    ensures
        post.subscription.address == pre.subscription.address,
        post.subscription.record is Some,
        post.subscription.record->0.well_formed(),
        post.subscription.record->0.same_terms(pre.subscription.record->0),
        post.subscription.record->0.total_payments == pre.subscription.record->0.total_payments,
        post.subscription.record->0.cancelled_at == pre.subscription.record->0.cancelled_at,
{
}

/// A pause that is followed by a resumption leaves the subscription running
/// as before but for its due time.
pub proof fn law_pause_then_resume(
    start: PauseSubscription,
    held: PauseSubscription,
    paused: Result<SubscriptionPaused, ErrorCode>,
    back: ResumeSubscription,
    resumed: Result<SubscriptionResumed, ErrorCode>,
    derived: Option<Key>,
    t1: u64,
    t2: u64,
)
    requires
        pause_subscription_spec(start, held, paused, derived, t1),
        paused is Ok,
        resume_subscription_spec(
            ResumeSubscription { subscription: held.subscription, customer: held.customer },
            back,
            resumed,
            derived,
            t2,
        ),
        resumed is Ok,
        start.subscription.record->0.well_formed(),
    ensures
        back.subscription.record == Some(
            Subscription {
                next_payment_due: (t2 + start.subscription.record->0.interval_seconds) as u64,
                ..start.subscription.record->0
            },
        ),
{
}

} // verus!
