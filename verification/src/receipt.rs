//! Purchase receipts: issued once at a derived address, frozen but for their
//! metadata link.

use vstd::prelude::*;
use crate::address::Key;
use crate::address::Signer;
use crate::address::receipt_address;
use crate::address::spec_receipt_address;
use crate::ledger::TokenAccount;
use crate::ledger::can_transfer;
use crate::ledger::transfer;
use crate::ledger::transfer_completes;

verus! {

/// Why a receipt operation was refused.
#[derive(Clone, Copy, Debug, PartialEq, Eq, Structural)]
pub enum ErrorCode {
    /// A record already stands at the derived address.
    AlreadyExists,
    /// No record stands at the address.
    NotFound,
    /// A required identity has not proved itself.
    Unauthorized,
    /// The payment cannot complete.
    InsufficientFunds,
    /// The address handed in is not the one derived from the identities.
    InvalidArgument,
}

/// The attestation of one completed purchase.
#[derive(Clone, Debug, PartialEq, Eq)]
pub struct Receipt {
    pub receipt_id: u64,
    pub merchant: Key,
    pub customer: Key,
    pub product_name: String,
    pub amount: u64,
    pub currency: String,
    pub metadata_uri: String,
    pub minted_at: u64,
    pub updated_at: Option<u64>,
    pub is_subscription: bool,
    pub subscription_id: Option<u64>,
}

/// What the record store holds at one address: a receipt, or nothing yet.
#[derive(Clone, Debug, PartialEq, Eq)]
pub struct ReceiptAccount {
    pub address: Key,
    pub record: Option<Receipt>,
}

/// What issuing a plain receipt touches.
#[derive(Clone, Debug, PartialEq, Eq)]
pub struct MintReceipt {
    pub receipt: ReceiptAccount,
    pub merchant: Signer,
    pub customer: Signer,
    pub customer_token_account: TokenAccount,
    pub merchant_token_account: TokenAccount,
}

/// What issuing a receipt for a subscription payment touches.
#[derive(Clone, Debug, PartialEq, Eq)]
pub struct MintSubscriptionReceipt {
    pub receipt: ReceiptAccount,
    pub merchant: Signer,
    pub customer: Signer,
    pub customer_token_account: TokenAccount,
    pub merchant_token_account: TokenAccount,
}

/// What changing a receipt's metadata link touches.
#[derive(Clone, Debug, PartialEq, Eq)]
pub struct UpdateReceiptMetadata {
    pub receipt: ReceiptAccount,
    pub merchant: Signer,
}

/// Notice that a plain receipt was issued.
#[derive(Clone, Debug, PartialEq, Eq)]
pub struct ReceiptMinted {
    pub receipt: Key,
    pub merchant: Key,
    pub customer: Key,
    pub amount: u64,
    pub product_name: String,
}

/// Notice that a subscription receipt was issued.
#[derive(Clone, Debug, PartialEq, Eq)]
pub struct SubscriptionReceiptMinted {
    pub receipt: Key,
    pub subscription_id: u64,
    pub merchant: Key,
    pub customer: Key,
    pub amount: u64,
    pub product_name: String,
}

/// Why issuing is refused, if it is: the first of these that applies.
pub open spec fn mint_refusal(
    receipt: ReceiptAccount,
    merchant: Signer,
    customer: Signer,
    payer: TokenAccount,
    payee: TokenAccount,
    derived: Option<Key>,
    amount: u64,
) -> Option<ErrorCode> {
    if !merchant.is_signer || !customer.is_signer {
        Some(ErrorCode::Unauthorized)
    } else if derived != Some(receipt.address) {
        Some(ErrorCode::InvalidArgument)
    } else if receipt.record is Some {
        Some(ErrorCode::AlreadyExists)
    } else if !can_transfer(payer, payee, amount) {
        Some(ErrorCode::InsufficientFunds)
    } else {
        None
    }
}

/// Decides [`mint_refusal`].
fn check_mint(
    receipt: &ReceiptAccount,
    merchant: &Signer,
    customer: &Signer,
    payer: &TokenAccount,
    payee: &TokenAccount,
    derived: &Option<Key>,
    amount: u64,
) -> (refusal: Option<ErrorCode>)
    ensures
        refusal == mint_refusal(*receipt, *merchant, *customer, *payer, *payee, *derived, amount),
{
    if !merchant.is_signer || !customer.is_signer {
        return Some(ErrorCode::Unauthorized);
    }
    match derived {
        None => {
            return Some(ErrorCode::InvalidArgument);
        },
        Some(address) => {
            if !address.same_as(&receipt.address) {
                return Some(ErrorCode::InvalidArgument);
            }
        },
    }
    if receipt.record.is_some() {
        return Some(ErrorCode::AlreadyExists);
    }
    if !transfer_completes(payer, payee, amount) {
        return Some(ErrorCode::InsufficientFunds);
    }
    None
}

/// What [`mint_receipt_at`] does: either it is refused for the reason that
/// [`mint_refusal`] gives and nothing changes, or the record is created at
/// the derived address, `amount` moves from the customer to the merchant, and
/// the notice describes the record.
pub open spec fn mint_receipt_spec(
    pre: MintReceipt,
    post: MintReceipt,
    outcome: Result<ReceiptMinted, ErrorCode>,
    derived: Option<Key>,
    now: u64,
    receipt_id: u64,
    product_name: String,
    amount: u64,
    currency: String,
    metadata_uri: String,
) -> bool {
    let refusal = mint_refusal(
        pre.receipt,
        pre.merchant,
        pre.customer,
        pre.customer_token_account,
        pre.merchant_token_account,
        derived,
        amount,
    );
    match outcome {
        Err(e) => refusal == Some(e) && post == pre,
        Ok(notice) => {
            &&& refusal is None
            &&& post == (MintReceipt {
                receipt: ReceiptAccount {
                    address: pre.receipt.address,
                    record: Some(
                        Receipt {
                            receipt_id,
                            merchant: pre.merchant.key,
                            customer: pre.customer.key,
                            product_name,
                            amount,
                            currency,
                            metadata_uri,
                            minted_at: now,
                            updated_at: None,
                            is_subscription: false,
                            subscription_id: None,
                        },
                    ),
                },
                merchant: pre.merchant,
                customer: pre.customer,
                customer_token_account: TokenAccount {
                    amount: (pre.customer_token_account.amount - amount) as u64,
                },
                merchant_token_account: TokenAccount {
                    amount: (pre.merchant_token_account.amount + amount) as u64,
                },
            })
            &&& notice == (ReceiptMinted {
                receipt: pre.receipt.address,
                merchant: pre.merchant.key,
                customer: pre.customer.key,
                amount,
                product_name,
            })
        },
    }
}

/// Issues a plain receipt, given the address `derived` for its merchant,
/// customer and number.
pub fn mint_receipt_at(
    ctx: &mut MintReceipt,
    derived: Option<Key>,
    now: u64,
    receipt_id: u64,
    product_name: String,
    amount: u64,
    currency: String,
    metadata_uri: String,
) -> (outcome: Result<ReceiptMinted, ErrorCode>)
    ensures
        mint_receipt_spec(
            *old(ctx),
            *final(ctx),
            outcome,
            derived,
            now,
            receipt_id,
            product_name,
            amount,
            currency,
            metadata_uri,
        ),
{
    let refusal = check_mint(
        &ctx.receipt,
        &ctx.merchant,
        &ctx.customer,
        &ctx.customer_token_account,
        &ctx.merchant_token_account,
        &derived,
        amount,
    );
    if let Some(e) = refusal {
        return Err(e);
    }
    let notice = ReceiptMinted {
        receipt: ctx.receipt.address,
        merchant: ctx.merchant.key,
        customer: ctx.customer.key,
        amount,
        product_name: product_name.clone(),
    };
    ctx.receipt.record = Some(
        Receipt {
            receipt_id,
            merchant: ctx.merchant.key,
            customer: ctx.customer.key,
            product_name,
            amount,
            currency,
            metadata_uri,
            minted_at: now,
            updated_at: None,
            is_subscription: false,
            subscription_id: None,
        },
    );
    let moved = transfer(&mut ctx.customer_token_account, &mut ctx.merchant_token_account, amount);
    assert(moved is Ok);
    Ok(notice)
}

/// Issues a plain receipt for a purchase: derives the address from the two
/// identities and `receipt_id`, then does as [`mint_receipt_at`].
pub fn mint_receipt(
    ctx: &mut MintReceipt,
    program_id: &Key,
    now: u64,
    receipt_id: u64,
    product_name: String,
    amount: u64,
    currency: String,
    metadata_uri: String,
) -> (outcome: Result<ReceiptMinted, ErrorCode>)
    ensures
        mint_receipt_spec(
            *old(ctx),
            *final(ctx),
            outcome,
            spec_receipt_address(*program_id, old(ctx).merchant.key, old(ctx).customer.key, receipt_id),
            now,
            receipt_id,
            product_name,
            amount,
            currency,
            metadata_uri,
        ),
        outcome is Ok ==> Some(final(ctx).receipt.address) == spec_receipt_address(
            *program_id,
            final(ctx).receipt.record->0.merchant,
            final(ctx).receipt.record->0.customer,
            final(ctx).receipt.record->0.receipt_id,
        ),
{
    let derived = receipt_address(program_id, &ctx.merchant.key, &ctx.customer.key, receipt_id);
    mint_receipt_at(ctx, derived, now, receipt_id, product_name, amount, currency, metadata_uri)
}

/// What [`mint_subscription_receipt_at`] does: as [`mint_receipt_spec`], but the
/// record is marked as belonging to a subscription and carries
/// `subscription_id`, as does the notice. No subscription is read or changed.
pub open spec fn mint_subscription_receipt_spec(
    pre: MintSubscriptionReceipt,
    post: MintSubscriptionReceipt,
    outcome: Result<SubscriptionReceiptMinted, ErrorCode>,
    derived: Option<Key>,
    now: u64,
    receipt_id: u64,
    subscription_id: u64,
    product_name: String,
    amount: u64,
    currency: String,
    metadata_uri: String,
) -> bool {
    let refusal = mint_refusal(
        pre.receipt,
        pre.merchant,
        pre.customer,
        pre.customer_token_account,
        pre.merchant_token_account,
        derived,
        amount,
    );
    match outcome {
        Err(e) => refusal == Some(e) && post == pre,
        Ok(notice) => {
            &&& refusal is None
            &&& post == (MintSubscriptionReceipt {
                receipt: ReceiptAccount {
                    address: pre.receipt.address,
                    record: Some(
                        Receipt {
                            receipt_id,
                            merchant: pre.merchant.key,
                            customer: pre.customer.key,
                            product_name,
                            amount,
                            currency,
                            metadata_uri,
                            minted_at: now,
                            updated_at: None,
                            is_subscription: true,
                            subscription_id: Some(subscription_id),
                        },
                    ),
                },
                merchant: pre.merchant,
                customer: pre.customer,
                customer_token_account: TokenAccount {
                    amount: (pre.customer_token_account.amount - amount) as u64,
                },
                merchant_token_account: TokenAccount {
                    amount: (pre.merchant_token_account.amount + amount) as u64,
                },
            })
            &&& notice == (SubscriptionReceiptMinted {
                receipt: pre.receipt.address,
                subscription_id,
                merchant: pre.merchant.key,
                customer: pre.customer.key,
                amount,
                product_name,
            })
        },
    }
}

/// Issues a receipt for a subscription payment, given the address `derived`
/// for its merchant, customer and number.
pub fn mint_subscription_receipt_at(
    ctx: &mut MintSubscriptionReceipt,
    derived: Option<Key>,
    now: u64,
    receipt_id: u64,
    subscription_id: u64,
    product_name: String,
    amount: u64,
    currency: String,
    metadata_uri: String,
) -> (outcome: Result<SubscriptionReceiptMinted, ErrorCode>)
    ensures
        mint_subscription_receipt_spec(
            *old(ctx),
            *final(ctx),
            outcome,
            derived,
            now,
            receipt_id,
            subscription_id,
            product_name,
            amount,
            currency,
            metadata_uri,
        ),
{
    let refusal = check_mint(
        &ctx.receipt,
        &ctx.merchant,
        &ctx.customer,
        &ctx.customer_token_account,
        &ctx.merchant_token_account,
        &derived,
        amount,
    );
    if let Some(e) = refusal {
        return Err(e);
    }
    let notice = SubscriptionReceiptMinted {
        receipt: ctx.receipt.address,
        subscription_id,
        merchant: ctx.merchant.key,
        customer: ctx.customer.key,
        amount,
        product_name: product_name.clone(),
    };
    ctx.receipt.record = Some(
        Receipt {
            receipt_id,
            merchant: ctx.merchant.key,
            customer: ctx.customer.key,
            product_name,
            amount,
            currency,
            metadata_uri,
            minted_at: now,
            updated_at: None,
            is_subscription: true,
            subscription_id: Some(subscription_id),
        },
    );
    let moved = transfer(&mut ctx.customer_token_account, &mut ctx.merchant_token_account, amount);
    assert(moved is Ok);
    Ok(notice)
}

/// Issues a receipt for a subscription payment: derives the address from the
/// two identities and `receipt_id`, then does as
/// [`mint_subscription_receipt_at`].
pub fn mint_subscription_receipt(
    ctx: &mut MintSubscriptionReceipt,
    program_id: &Key,
    now: u64,
    receipt_id: u64,
    subscription_id: u64,
    product_name: String,
    amount: u64,
    currency: String,
    metadata_uri: String,
) -> (outcome: Result<SubscriptionReceiptMinted, ErrorCode>)
    ensures
        mint_subscription_receipt_spec(
            *old(ctx),
            *final(ctx),
            outcome,
            spec_receipt_address(*program_id, old(ctx).merchant.key, old(ctx).customer.key, receipt_id),
            now,
            receipt_id,
            subscription_id,
            product_name,
            amount,
            currency,
            metadata_uri,
        ),
        outcome is Ok ==> Some(final(ctx).receipt.address) == spec_receipt_address(
            *program_id,
            final(ctx).receipt.record->0.merchant,
            final(ctx).receipt.record->0.customer,
            final(ctx).receipt.record->0.receipt_id,
        ),
{
    let derived = receipt_address(program_id, &ctx.merchant.key, &ctx.customer.key, receipt_id);
    mint_subscription_receipt_at(
        ctx,
        derived,
        now,
        receipt_id,
        subscription_id,
        product_name,
        amount,
        currency,
        metadata_uri,
    )
}

/// Why a metadata update is refused, if it is: the first of these that
/// applies.
pub open spec fn update_refusal(pre: UpdateReceiptMetadata, derived: Option<Key>) -> Option<
    ErrorCode,
> {
    match pre.receipt.record {
        None => Some(ErrorCode::NotFound),
        Some(record) => if !pre.merchant.proves(record.merchant) {
            Some(ErrorCode::Unauthorized)
        } else if derived != Some(pre.receipt.address) {
            Some(ErrorCode::InvalidArgument)
        } else {
            None
        },
    }
}

/// What [`update_receipt_metadata_at`] does: either it is refused for the
/// reason that [`update_refusal`] gives and nothing changes, or the record
/// gets the new link and the time of the update, and keeps every other field.
pub open spec fn update_receipt_metadata_spec(
    pre: UpdateReceiptMetadata,
    post: UpdateReceiptMetadata,
    outcome: Result<(), ErrorCode>,
    derived: Option<Key>,
    now: u64,
    new_metadata_uri: String,
) -> bool {
    match outcome {
        Err(e) => update_refusal(pre, derived) == Some(e) && post == pre,
        Ok(_) => {
            &&& update_refusal(pre, derived) is None
            &&& post == (UpdateReceiptMetadata {
                receipt: ReceiptAccount {
                    address: pre.receipt.address,
                    record: Some(
                        Receipt {
                            metadata_uri: new_metadata_uri,
                            updated_at: Some(now),
                            ..pre.receipt.record->0
                        },
                    ),
                },
                merchant: pre.merchant,
            })
        },
    }
}

/// Replaces the metadata link of a receipt, given the address `derived` for
/// the identities and number that the record holds.
pub fn update_receipt_metadata_at(
    ctx: &mut UpdateReceiptMetadata,
    derived: Option<Key>,
    now: u64,
    new_metadata_uri: String,
) -> (outcome: Result<(), ErrorCode>)
    ensures
        update_receipt_metadata_spec(*old(ctx), *final(ctx), outcome, derived, now, new_metadata_uri),
{
    let at_derived = match &derived {
        Some(address) => address.same_as(&ctx.receipt.address),
        None => false,
    };
    let merchant = ctx.merchant;
    match &mut ctx.receipt.record {
        None => Err(ErrorCode::NotFound),
        Some(record) => {
            if !merchant.verify(&record.merchant) {
                return Err(ErrorCode::Unauthorized);
            }
            if !at_derived {
                return Err(ErrorCode::InvalidArgument);
            }
            record.metadata_uri = new_metadata_uri;
            record.updated_at = Some(now);
            Ok(())
        },
    }
}

/// The address derived from what the record in `account` holds, where it
/// holds one.
pub open spec fn stored_receipt_address(program: Key, account: ReceiptAccount) -> Option<Key> {
    match account.record {
        Some(record) => spec_receipt_address(
            program,
            record.merchant,
            record.customer,
            record.receipt_id,
        ),
        None => None,
    }
}

/// Replaces the metadata link of a receipt: derives the address from what
/// the record holds, then does as [`update_receipt_metadata_at`].
pub fn update_receipt_metadata(
    ctx: &mut UpdateReceiptMetadata,
    program_id: &Key,
    now: u64,
    new_metadata_uri: String,
) -> (outcome: Result<(), ErrorCode>)
    ensures
        update_receipt_metadata_spec(
            *old(ctx),
            *final(ctx),
            outcome,
            stored_receipt_address(*program_id, old(ctx).receipt),
            now,
            new_metadata_uri,
        ),
{
    let derived = match &ctx.receipt.record {
        Some(record) => receipt_address(
            program_id,
            &record.merchant,
            &record.customer,
            record.receipt_id,
        ),
        None => None,
    };
    update_receipt_metadata_at(ctx, derived, now, new_metadata_uri)
}

/// A second issue at an address where a receipt was issued changes nothing
/// and is refused as a duplicate, whatever it asks for, as long as both
/// identities have signed again.
pub proof fn law_second_mint_refused(
    first: MintReceipt,
    after: MintReceipt,
    derived: Option<Key>,
    now: u64,
    receipt_id: u64,
    product_name: String,
    amount: u64,
    currency: String,
    metadata_uri: String,
    issued: Result<ReceiptMinted, ErrorCode>,
    later: MintReceipt,
    again: Result<ReceiptMinted, ErrorCode>,
    now2: u64,
    product_name2: String,
    amount2: u64,
    currency2: String,
    metadata_uri2: String,
)
    requires
        mint_receipt_spec(
            first,
            after,
            issued,
            derived,
            now,
            receipt_id,
            product_name,
            amount,
            currency,
            metadata_uri,
        ),
        issued is Ok,
        mint_receipt_spec(
            after,
            later,
            again,
            derived,
            now2,
            receipt_id,
            product_name2,
            amount2,
            currency2,
            metadata_uri2,
        ),
    ensures
        again == Err::<ReceiptMinted, ErrorCode>(ErrorCode::AlreadyExists),
        later == after,
{
}

/// A receipt that was issued stands at the address derived from the
/// identities and number that it holds.
pub proof fn law_receipt_address_round_trip(
    pre: MintReceipt,
    post: MintReceipt,
    program: Key,
    now: u64,
    receipt_id: u64,
    product_name: String,
    amount: u64,
    currency: String,
    metadata_uri: String,
    issued: Result<ReceiptMinted, ErrorCode>,
)
    requires
        mint_receipt_spec(
            pre,
            post,
            issued,
            spec_receipt_address(program, pre.merchant.key, pre.customer.key, receipt_id),
            now,
            receipt_id,
            product_name,
            amount,
            currency,
            metadata_uri,
        ),
        issued is Ok,
    ensures
        stored_receipt_address(program, post.receipt) == Some(post.receipt.address),
{
}

/// A receipt is frozen but for its metadata link: an update that goes through
/// leaves every other field, and the address, as they were.
pub proof fn law_update_keeps_receipt_frozen(
    pre: UpdateReceiptMetadata,
    post: UpdateReceiptMetadata,
    outcome: Result<(), ErrorCode>,
    derived: Option<Key>,
    now: u64,
    new_metadata_uri: String,
)
    requires
        update_receipt_metadata_spec(pre, post, outcome, derived, now, new_metadata_uri),
        outcome is Ok,
    ensures
        post.receipt.address == pre.receipt.address,
        post.receipt.record is Some,
        post.receipt.record->0.metadata_uri == new_metadata_uri,
        post.receipt.record->0.updated_at == Some(now),
        post.receipt.record->0.receipt_id == pre.receipt.record->0.receipt_id,
        post.receipt.record->0.merchant == pre.receipt.record->0.merchant,
        post.receipt.record->0.customer == pre.receipt.record->0.customer,
        post.receipt.record->0.product_name == pre.receipt.record->0.product_name,
        post.receipt.record->0.amount == pre.receipt.record->0.amount,
        post.receipt.record->0.currency == pre.receipt.record->0.currency,
        post.receipt.record->0.minted_at == pre.receipt.record->0.minted_at,
        post.receipt.record->0.is_subscription == pre.receipt.record->0.is_subscription,
        post.receipt.record->0.subscription_id == pre.receipt.record->0.subscription_id,
{
}

} // verus!
