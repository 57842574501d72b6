use receipt_billing::address::{subscription_address, Key, Signer};
use receipt_billing::ledger::TokenAccount;
use receipt_billing::subscription::{
    cancel_subscription, cancel_subscription_at, initialize_subscription,
    initialize_subscription_at, pause_subscription, pause_subscription_at, process_payment,
    process_payment_at, resume_subscription, resume_subscription_at, CancelSubscription,
    ErrorCode, InitializeSubscription, PauseSubscription, PaymentProcessed, ProcessPayment,
    ResumeSubscription, Subscription, SubscriptionAccount, SubscriptionCancelled,
    SubscriptionPaused, SubscriptionResumed,
};

const PROGRAM: Key = Key { bytes: [9; 32] };
const MERCHANT: Key = Key { bytes: [1; 32] };
const CUSTOMER: Key = Key { bytes: [2; 32] };
const T0: u64 = 1_700_000_000;
const MONTH: u64 = 2_592_000;

fn signed(key: Key) -> Signer {
    Signer { key, is_signer: true }
}

fn empty_account(plan_id: u64) -> SubscriptionAccount {
    SubscriptionAccount {
        address: subscription_address(&PROGRAM, &MERCHANT, &CUSTOMER, plan_id).unwrap(),
        record: None,
    }
}

fn created(plan_id: u64, amount: u64, interval: u64, max: Option<u32>, now: u64) -> SubscriptionAccount {
    let mut ctx = InitializeSubscription {
        subscription: empty_account(plan_id),
        merchant: signed(MERCHANT),
        customer: signed(CUSTOMER),
    };
    initialize_subscription(&mut ctx, &PROGRAM, now, plan_id, amount, interval, max).unwrap();
    ctx.subscription
}

fn payment_ctx(account: SubscriptionAccount, balance: u64) -> ProcessPayment {
    ProcessPayment {
        subscription: account,
        customer: signed(CUSTOMER),
        customer_token_account: TokenAccount { amount: balance },
        merchant_token_account: TokenAccount { amount: 0 },
    }
}

fn paused(account: SubscriptionAccount, now: u64) -> SubscriptionAccount {
    let mut ctx = PauseSubscription { subscription: account, customer: signed(CUSTOMER) };
    pause_subscription(&mut ctx, &PROGRAM, now).unwrap();
    ctx.subscription
}

fn cancelled(account: SubscriptionAccount, now: u64) -> SubscriptionAccount {
    let mut ctx = CancelSubscription { subscription: account, customer: signed(CUSTOMER) };
    cancel_subscription(&mut ctx, &PROGRAM, now).unwrap();
    ctx.subscription
}

#[test]
fn initialize_creates_an_active_subscription_due_one_interval_later() {
    let account = created(1, 100, MONTH, None, T0);
    assert_eq!(
        account.record,
        Some(Subscription {
            plan_id: 1,
            merchant: MERCHANT,
            customer: CUSTOMER,
            amount: 100,
            interval_seconds: MONTH,
            next_payment_due: T0 + 2_592_000,
            total_payments: 0,
            max_payments: None,
            is_active: true,
            is_paused: false,
            created_at: T0,
            last_payment_at: None,
            cancelled_at: None,
            paused_at: None,
        })
    );
}

#[test]
fn created_subscription_stands_at_the_address_of_its_stored_fields() {
    let account = created(5, 100, MONTH, Some(2), T0);
    let record = account.record.unwrap();
    assert_eq!(
        subscription_address(&PROGRAM, &record.merchant, &record.customer, record.plan_id),
        Some(account.address)
    );
}

#[test]
fn monthly_subscription_is_charged_when_due_and_not_before() {
    let account = created(1, 100, MONTH, None, T0);
    let mut ctx = payment_ctx(account, 250);
    let before = ctx;
    assert_eq!(process_payment(&mut ctx, &PROGRAM, T0 + 1000), Err(ErrorCode::PaymentNotDue));
    assert_eq!(ctx, before);
    let notice = process_payment(&mut ctx, &PROGRAM, T0 + 2_592_000).unwrap();
    assert_eq!(
        notice,
        PaymentProcessed { subscription: account.address, amount: 100, payment_number: 1 }
    );
    let record = ctx.subscription.record.unwrap();
    assert_eq!(record.total_payments, 1);
    assert_eq!(record.next_payment_due, T0 + 5_184_000);
    assert_eq!(record.last_payment_at, Some(T0 + 2_592_000));
    assert_eq!(ctx.customer_token_account.amount, 150);
    assert_eq!(ctx.merchant_token_account.amount, 100);
    assert_eq!(
        record,
        Subscription {
            total_payments: 1,
            next_payment_due: T0 + 5_184_000,
            last_payment_at: Some(T0 + 2_592_000),
            ..account.record.unwrap()
        }
    );
}

#[test]
fn payment_one_second_early_is_not_due() {
    let account = created(1, 100, MONTH, None, T0);
    let mut ctx = payment_ctx(account, 250);
    let before = ctx;
    assert_eq!(
        process_payment(&mut ctx, &PROGRAM, T0 + MONTH - 1),
        Err(ErrorCode::PaymentNotDue)
    );
    assert_eq!(ctx, before);
}

#[test]
fn late_payment_keeps_the_nominal_schedule() {
    let account = created(1, 100, 60, None, 1000);
    let mut ctx = payment_ctx(account, 250);
    process_payment(&mut ctx, &PROGRAM, 1500).unwrap();
    let record = ctx.subscription.record.unwrap();
    assert_eq!(record.next_payment_due, 1120);
    assert_eq!(record.last_payment_at, Some(1500));
    process_payment(&mut ctx, &PROGRAM, 1500).unwrap();
    assert_eq!(ctx.subscription.record.unwrap().next_payment_due, 1180);
    assert_eq!(ctx.subscription.record.unwrap().total_payments, 2);
    assert_eq!(ctx.customer_token_account.amount, 50);
}

#[test]
fn three_payments_allowed_means_the_fourth_is_refused() {
    let account = created(1, 10, 60, Some(3), 0);
    let mut ctx = payment_ctx(account, 1000);
    for n in 1u32..=3 {
        let notice = process_payment(&mut ctx, &PROGRAM, 10_000).unwrap();
        assert_eq!(notice.payment_number, n);
    }
    let before = ctx;
    assert_eq!(process_payment(&mut ctx, &PROGRAM, 10_000), Err(ErrorCode::MaxPaymentsReached));
    assert_eq!(ctx, before);
    let record = ctx.subscription.record.unwrap();
    assert_eq!(record.total_payments, 3);
    assert!(record.is_active);
    assert_eq!(ctx.customer_token_account.amount, 970);
    assert_eq!(ctx.merchant_token_account.amount, 30);
}

#[test]
fn zero_payments_allowed_means_none_is_charged() {
    let account = created(1, 10, 60, Some(0), 0);
    let mut ctx = payment_ctx(account, 1000);
    assert_eq!(process_payment(&mut ctx, &PROGRAM, 60), Err(ErrorCode::MaxPaymentsReached));
}

#[test]
fn payment_counter_does_not_run_over() {
    let mut account = created(1, 10, 60, None, 0);
    let mut record = account.record.unwrap();
    record.total_payments = u32::MAX;
    account.record = Some(record);
    let mut ctx = payment_ctx(account, 1000);
    let before = ctx;
    assert_eq!(process_payment(&mut ctx, &PROGRAM, 60), Err(ErrorCode::MaxPaymentsReached));
    assert_eq!(ctx, before);
}

#[test]
fn payment_without_funds_changes_nothing() {
    let account = created(1, 100, 60, None, 0);
    let mut ctx = payment_ctx(account, 99);
    let before = ctx;
    assert_eq!(process_payment(&mut ctx, &PROGRAM, 60), Err(ErrorCode::InsufficientFunds));
    assert_eq!(ctx, before);
}

#[test]
fn payment_whose_next_due_time_is_out_of_range_is_refused() {
    let mut account = created(1, 100, 60, None, 0);
    let mut record = account.record.unwrap();
    record.next_payment_due = u64::MAX - 59;
    account.record = Some(record);
    let mut ctx = payment_ctx(account, 500);
    let before = ctx;
    assert_eq!(process_payment(&mut ctx, &PROGRAM, u64::MAX), Err(ErrorCode::InvalidArgument));
    assert_eq!(ctx, before);
    record.next_payment_due = u64::MAX - 60;
    ctx.subscription.record = Some(record);
    assert!(process_payment(&mut ctx, &PROGRAM, u64::MAX).is_ok());
    assert_eq!(ctx.subscription.record.unwrap().next_payment_due, u64::MAX);
}

#[test]
fn payment_needs_the_customer_of_the_record() {
    let account = created(1, 100, 60, None, 0);
    let mut ctx = payment_ctx(account, 500);
    ctx.customer = signed(MERCHANT);
    let before = ctx;
    assert_eq!(process_payment(&mut ctx, &PROGRAM, 60), Err(ErrorCode::Unauthorized));
    assert_eq!(ctx, before);
    ctx.customer = Signer { key: CUSTOMER, is_signer: false };
    assert_eq!(process_payment(&mut ctx, &PROGRAM, 60), Err(ErrorCode::Unauthorized));
}

#[test]
fn payment_without_a_record_is_not_found() {
    let mut ctx = payment_ctx(empty_account(1), 500);
    assert_eq!(process_payment(&mut ctx, &PROGRAM, 60), Err(ErrorCode::NotFound));
    let address = ctx.subscription.address;
    assert_eq!(process_payment_at(&mut ctx, Some(address), 60), Err(ErrorCode::NotFound));
}

#[test]
fn payment_on_a_record_at_a_foreign_address_is_refused() {
    let mut account = created(1, 100, 60, None, 0);
    account.address = Key { bytes: [3; 32] };
    let mut ctx = payment_ctx(account, 500);
    let before = ctx;
    assert_eq!(process_payment(&mut ctx, &PROGRAM, 60), Err(ErrorCode::InvalidArgument));
    assert_eq!(ctx, before);
    assert_eq!(process_payment_at(&mut ctx, None, 60), Err(ErrorCode::InvalidArgument));
    assert!(process_payment_at(&mut ctx, Some(Key { bytes: [3; 32] }), 60).is_ok());
}

#[test]
fn paused_subscription_is_not_charged_and_resumes_without_debt() {
    let account = created(1, 100, MONTH, None, T0);
    let t1 = T0 + 5;
    let mut pause = PauseSubscription { subscription: account, customer: signed(CUSTOMER) };
    let notice = pause_subscription(&mut pause, &PROGRAM, t1).unwrap();
    assert_eq!(notice, SubscriptionPaused { subscription: account.address, paused_at: t1 });
    let record = pause.subscription.record.unwrap();
    assert_eq!(
        record,
        Subscription { is_paused: true, paused_at: Some(t1), ..account.record.unwrap() }
    );

    let mut pay = payment_ctx(pause.subscription, 500);
    let before = pay;
    assert_eq!(process_payment(&mut pay, &PROGRAM, t1 + 1), Err(ErrorCode::SubscriptionInactive));
    assert_eq!(
        process_payment(&mut pay, &PROGRAM, T0 + 10 * MONTH),
        Err(ErrorCode::SubscriptionInactive)
    );
    assert_eq!(pay, before);

    let t2 = T0 + 10 * MONTH;
    let mut resume = ResumeSubscription { subscription: pause.subscription, customer: signed(CUSTOMER) };
    let notice = resume_subscription(&mut resume, &PROGRAM, t2).unwrap();
    assert_eq!(notice, SubscriptionResumed { subscription: account.address, resumed_at: t2 });
    let record = resume.subscription.record.unwrap();
    assert_eq!(record.next_payment_due, t2 + MONTH);
    assert_eq!(
        record,
        Subscription { next_payment_due: t2 + MONTH, ..account.record.unwrap() }
    );

    let mut pay = payment_ctx(resume.subscription, 500);
    assert_eq!(process_payment(&mut pay, &PROGRAM, t2 + MONTH - 1), Err(ErrorCode::PaymentNotDue));
    assert!(process_payment(&mut pay, &PROGRAM, t2 + MONTH).is_ok());
    assert_eq!(pay.subscription.record.unwrap().total_payments, 1);
}

#[test]
fn pausing_twice_is_refused() {
    let account = paused(created(1, 100, 60, None, 0), 5);
    let mut ctx = PauseSubscription { subscription: account, customer: signed(CUSTOMER) };
    assert_eq!(pause_subscription(&mut ctx, &PROGRAM, 6), Err(ErrorCode::AlreadyPaused));
    assert_eq!(ctx.subscription, account);
    let address = account.address;
    assert_eq!(pause_subscription_at(&mut ctx, Some(address), 6), Err(ErrorCode::AlreadyPaused));
}

#[test]
fn resuming_what_is_not_paused_is_refused() {
    let account = created(1, 100, 60, None, 0);
    let mut ctx = ResumeSubscription { subscription: account, customer: signed(CUSTOMER) };
    assert_eq!(resume_subscription(&mut ctx, &PROGRAM, 6), Err(ErrorCode::NotPaused));
    assert_eq!(ctx.subscription, account);
    let address = account.address;
    assert_eq!(resume_subscription_at(&mut ctx, Some(address), 6), Err(ErrorCode::NotPaused));
}

#[test]
fn resuming_too_late_for_a_due_time_is_refused() {
    let account = paused(created(1, 100, 60, None, 0), 5);
    let mut ctx = ResumeSubscription { subscription: account, customer: signed(CUSTOMER) };
    assert_eq!(resume_subscription(&mut ctx, &PROGRAM, u64::MAX - 59), Err(ErrorCode::InvalidArgument));
    assert_eq!(ctx.subscription, account);
    assert!(resume_subscription(&mut ctx, &PROGRAM, u64::MAX - 60).is_ok());
    assert_eq!(ctx.subscription.record.unwrap().next_payment_due, u64::MAX);
}

#[test]
fn cancelling_ends_the_subscription_for_good() {
    let account = created(1, 100, 60, None, 0);
    let mut ctx = CancelSubscription { subscription: account, customer: signed(CUSTOMER) };
    let notice = cancel_subscription(&mut ctx, &PROGRAM, 30).unwrap();
    assert_eq!(notice, SubscriptionCancelled { subscription: account.address, cancelled_at: 30 });
    let gone = ctx.subscription;
    assert_eq!(
        gone.record.unwrap(),
        Subscription { is_active: false, cancelled_at: Some(30), ..account.record.unwrap() }
    );

    assert_eq!(cancel_subscription(&mut ctx, &PROGRAM, 31), Err(ErrorCode::SubscriptionInactive));
    assert_eq!(ctx.subscription, gone);
    let mut pay = payment_ctx(gone, 500);
    assert_eq!(process_payment(&mut pay, &PROGRAM, 60), Err(ErrorCode::SubscriptionInactive));
    assert_eq!(pay.customer_token_account.amount, 500);
    let mut pause = PauseSubscription { subscription: gone, customer: signed(CUSTOMER) };
    assert_eq!(pause_subscription(&mut pause, &PROGRAM, 31), Err(ErrorCode::SubscriptionInactive));
    let mut resume = ResumeSubscription { subscription: gone, customer: signed(CUSTOMER) };
    assert_eq!(resume_subscription(&mut resume, &PROGRAM, 31), Err(ErrorCode::SubscriptionInactive));
}

#[test]
fn cancelling_while_paused_goes_through() {
    let account = paused(created(1, 100, 60, None, 0), 5);
    let gone = cancelled(account, 9);
    let record = gone.record.unwrap();
    assert!(!record.is_active);
    assert!(record.is_paused);
    assert_eq!(record.cancelled_at, Some(9));
    assert_eq!(record.paused_at, Some(5));
}

#[test]
fn cancel_pause_resume_need_the_customer_of_the_record() {
    let account = created(1, 100, 60, None, 0);
    let mut cancel = CancelSubscription { subscription: account, customer: signed(MERCHANT) };
    assert_eq!(cancel_subscription(&mut cancel, &PROGRAM, 1), Err(ErrorCode::Unauthorized));
    assert_eq!(cancel.subscription, account);
    let mut pause = PauseSubscription {
        subscription: account,
        customer: Signer { key: CUSTOMER, is_signer: false },
    };
    assert_eq!(pause_subscription(&mut pause, &PROGRAM, 1), Err(ErrorCode::Unauthorized));
    let mut resume = ResumeSubscription { subscription: paused(account, 1), customer: signed(MERCHANT) };
    assert_eq!(resume_subscription(&mut resume, &PROGRAM, 2), Err(ErrorCode::Unauthorized));
}

#[test]
fn cancel_pause_resume_without_a_record_are_not_found() {
    let account = empty_account(1);
    let mut cancel = CancelSubscription { subscription: account, customer: signed(CUSTOMER) };
    assert_eq!(cancel_subscription(&mut cancel, &PROGRAM, 1), Err(ErrorCode::NotFound));
    let mut pause = PauseSubscription { subscription: account, customer: signed(CUSTOMER) };
    assert_eq!(pause_subscription(&mut pause, &PROGRAM, 1), Err(ErrorCode::NotFound));
    let mut resume = ResumeSubscription { subscription: account, customer: signed(CUSTOMER) };
    assert_eq!(resume_subscription(&mut resume, &PROGRAM, 1), Err(ErrorCode::NotFound));
}

#[test]
fn cancel_at_goes_by_the_address_it_is_given() {
    let account = created(1, 100, 60, None, 0);
    let mut ctx = CancelSubscription { subscription: account, customer: signed(CUSTOMER) };
    assert_eq!(
        cancel_subscription_at(&mut ctx, Some(Key { bytes: [3; 32] }), 1),
        Err(ErrorCode::InvalidArgument)
    );
    assert_eq!(ctx.subscription, account);
    let address = account.address;
    assert!(cancel_subscription_at(&mut ctx, Some(address), 1).is_ok());
}

#[test]
fn initialize_refuses_a_zero_interval_and_a_due_time_out_of_range() {
    let mut ctx = InitializeSubscription {
        subscription: empty_account(1),
        merchant: signed(MERCHANT),
        customer: signed(CUSTOMER),
    };
    let before = ctx;
    assert_eq!(
        initialize_subscription(&mut ctx, &PROGRAM, T0, 1, 100, 0, None),
        Err(ErrorCode::InvalidArgument)
    );
    assert_eq!(
        initialize_subscription(&mut ctx, &PROGRAM, u64::MAX, 1, 100, 1, None),
        Err(ErrorCode::InvalidArgument)
    );
    assert_eq!(ctx, before);
    assert!(initialize_subscription(&mut ctx, &PROGRAM, u64::MAX - 1, 1, 100, 1, None).is_ok());
    assert_eq!(ctx.subscription.record.unwrap().next_payment_due, u64::MAX);
}

#[test]
fn initialize_twice_is_refused_and_keeps_the_first() {
    let account = created(1, 100, 60, Some(4), 0);
    let mut ctx = InitializeSubscription {
        subscription: account,
        merchant: signed(MERCHANT),
        customer: signed(CUSTOMER),
    };
    assert_eq!(
        initialize_subscription(&mut ctx, &PROGRAM, 50, 1, 7, 30, None),
        Err(ErrorCode::AlreadyExists)
    );
    assert_eq!(ctx.subscription, account);
}

#[test]
fn initialize_needs_both_signatures_and_the_derived_address() {
    let mut ctx = InitializeSubscription {
        subscription: empty_account(1),
        merchant: Signer { key: MERCHANT, is_signer: false },
        customer: signed(CUSTOMER),
    };
    assert_eq!(
        initialize_subscription(&mut ctx, &PROGRAM, 0, 1, 100, 60, None),
        Err(ErrorCode::Unauthorized)
    );
    ctx.merchant.is_signer = true;
    ctx.customer.is_signer = false;
    assert_eq!(
        initialize_subscription(&mut ctx, &PROGRAM, 0, 1, 100, 60, None),
        Err(ErrorCode::Unauthorized)
    );
    ctx.customer.is_signer = true;
    assert_eq!(
        initialize_subscription(&mut ctx, &PROGRAM, 0, 2, 100, 60, None),
        Err(ErrorCode::InvalidArgument)
    );
    assert_eq!(
        initialize_subscription_at(&mut ctx, None, 0, 1, 100, 60, None),
        Err(ErrorCode::InvalidArgument)
    );
    assert_eq!(ctx.subscription.record, None);
    assert_eq!(initialize_subscription(&mut ctx, &PROGRAM, 0, 1, 100, 60, None), Ok(()));
}
