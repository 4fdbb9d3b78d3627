//! Taking a transaction: the request is checked, the merchant is loaded,
//! the payment is routed to an acquirer account, and the transaction is
//! assembled. Each lookup is somebody else's work: a step here says which
//! lookup is wanted next, and is resumed with what the lookup found.

use vstd::prelude::*;
use crate::account::{
    account_outcome, account_query_outcome, acquirer_of, load, no_account_message, route,
    route_query_outcome, select_for, AccountQuery, AccountRow, AccountView, Acquirer, RouteQuery,
    RouteRow,
};
use crate::amount::Amount;
use crate::api::error::{
    field_errors_message, gateway_kind, gateway_message, ErrorKind, GatewayError,
};
use crate::api::requests::transaction::billing::billing_of;
use crate::api::requests::transaction::payment::payment_of;
use crate::api::requests::transaction::{
    billing_request_view, payment_request_view, TransactionRequest,
};
use crate::billing::{Billing, BillingView};
use crate::currency::Currency;
use crate::error::{failure_kind, failure_message, DbFailure, ErrorKind as CoreErrorKind};
use crate::merchant::{
    load_outcome, lookup_view, Merchant, MerchantRecord, MerchantRecordView,
    MerchantView,
};
use crate::payment::{payment_errors, payment_valid, Payment, PaymentView};
use crate::text::text_of;
use crate::transaction::transaction_builder::{is_reference, TransactionBuilder};
use crate::transaction::{Transaction, TransactionStatus, TransactionType, TransactionView};

verus! {

/// A request that passed every check: what the transaction will be made
/// of, as far as the request says it.
#[derive(Debug, PartialEq, Eq)]
pub struct Accepted {
    pub transaction_type: TransactionType,
    pub amount: u64,
    pub currency: Currency,
    pub merchant_id: String,
    pub payment: Payment,
    pub billing: Billing,
}

/// An accepted request with its texts as sequences of characters.
pub struct AcceptedView {
    pub transaction_type: TransactionType,
    pub amount: u64,
    pub currency: Currency,
    pub merchant_id: Seq<char>,
    pub payment: PaymentView,
    pub billing: BillingView,
}

impl View for Accepted {
    type V = AcceptedView;

    open spec fn view(&self) -> AcceptedView {
        AcceptedView {
            transaction_type: self.transaction_type,
            amount: self.amount,
            currency: self.currency,
            merchant_id: self.merchant_id@,
            payment: self.payment@,
            billing: self.billing@,
        }
    }
}

/// How far the taking of a transaction has come: which lookup it waits
/// for, with everything that is known so far.
#[derive(Debug, PartialEq, Eq)]
pub enum Stage {
    /// Waiting for the merchant.
    Merchant(Accepted),
    /// Waiting for the row of the routing table.
    Route(Accepted, Merchant),
    /// Waiting for the account at the acquirer that the route named.
    Account(Accepted, Merchant, Acquirer),
}

/// A lookup that a step asks for.
#[derive(Debug, PartialEq, Eq)]
pub enum Lookup {
    /// The merchant with this id.
    Merchant(String),
    /// The row of the routing table for a scheme, currency and merchant.
    Route(RouteQuery),
    /// One account of one acquirer.
    Account(AccountQuery),
}

/// What a lookup found.
#[derive(Debug, PartialEq, Eq)]
pub enum Found {
    Merchant(Result<MerchantRecord, DbFailure>),
    Route(Result<RouteRow, DbFailure>),
    Account(Result<AccountRow, DbFailure>),
}

/// What a step decides: to ask for a lookup and go on from a stage, or to
/// end with the transaction or with an error.
#[derive(Debug, PartialEq, Eq)]
pub enum Step {
    Ask(Stage, Lookup),
    Done(Result<Transaction, GatewayError>),
}

/// The message for a request without one of its parts.
pub open spec fn missing_data_message(field: Seq<char>) -> Seq<char> {
    "missing "@ + field + " data"@
}

/// The message for a merchant that does not exist.
pub open spec fn no_merchant_message(merchant_id: Seq<char>) -> Seq<char> {
    "merchant "@ + merchant_id + " does not exist"@
}

/// The message for a lookup's answer that the stage did not ask for.
pub open spec fn unexpected_answer_message() -> Seq<char> {
    "unexpected answer to a lookup"@
}

/// The payment instrument that a request asks for, checked, or the message
/// of the validation error that refuses the request.
pub open spec fn accepted_payment(request: TransactionRequest) -> Result<PaymentView, Seq<char>> {
    match payment_request_view(request.payment) {
        None => Err(missing_data_message("payment"@)),
        Some(payment) => match payment_of(payment) {
            Err(message) => Err(message),
            Ok(instrument) => if payment_valid(instrument) {
                Ok(instrument)
            } else {
                Err(field_errors_message(payment_errors(instrument)))
            },
        },
    }
}

/// The billing address that a request asks for, trimmed, or the message of
/// the validation error that refuses the request.
pub open spec fn accepted_billing(request: TransactionRequest) -> Result<BillingView, Seq<char>> {
    match billing_request_view(request.billing) {
        None => Err(missing_data_message("billing"@)),
        Some(billing) => match billing_of(billing) {
            Err(message) => Err(message),
            Ok(address) => Ok(address.normalized()),
        },
    }
}

/// What a request is accepted as, or the message of the validation error
/// that refuses it. The payment is looked at first, then the billing
/// address.
pub open spec fn accepted_of(request: TransactionRequest) -> Result<AcceptedView, Seq<char>> {
    match accepted_payment(request) {
        Err(message) => Err(message),
        Ok(payment) => match accepted_billing(request) {
            Err(message) => Err(message),
            Ok(billing) => Ok(
                AcceptedView {
                    transaction_type: request.transaction_type,
                    amount: request.amount,
                    currency: request.currency,
                    merchant_id: request.merchant_id@,
                    payment,
                    billing,
                },
            ),
        },
    }
}

/// The transaction that is assembled from an accepted request, its
/// merchant and its account, under a reference.
pub open spec fn assembled(
    accepted: AcceptedView,
    merchant: MerchantView,
    account: AccountView,
    reference: Seq<char>,
) -> TransactionView {
    TransactionView {
        reference,
        transaction_type: accepted.transaction_type,
        amount: Amount::Base { val: accepted.amount, cur: accepted.currency },
        payment: accepted.payment,
        billing: accepted.billing,
        merchant,
        account,
        customer: None,
        status: TransactionStatus::Success,
        currency: accepted.currency,
    }
}

/// Whether a step ends with an error of the given kind and message.
pub open spec fn fails_with(step: Step, kind: ErrorKind, message: Seq<char>) -> bool {
    step matches Step::Done(Err(e)) && e.says(kind, message)
}

/// Whether a step ends with what a caller sees of an error of the core.
pub open spec fn fails_as(step: Step, error: (CoreErrorKind, Seq<char>)) -> bool {
    fails_with(step, gateway_kind(error.0), gateway_message(error.0, error.1))
}

/// The first step: a request that passes every check asks for its
/// merchant; any other ends with a validation error, before any lookup.
pub open spec fn begins(request: TransactionRequest, step: Step) -> bool {
    match accepted_of(request) {
        Ok(accepted) => {
            &&& step matches Step::Ask(Stage::Merchant(a), Lookup::Merchant(id))
            &&& a@ == accepted
            &&& id@ == accepted.merchant_id
        },
        Err(message) => fails_with(step, ErrorKind::Validation, message),
    }
}

/// The step after the merchant lookup. A merchant that is not there is a
/// missing resource; any other failure, and a stored merchant that cannot
/// be read, is fatal. With the merchant, a card payment asks for its route;
/// an account payment has none, which is a missing resource.
pub open spec fn after_merchant(
    accepted: AcceptedView,
    lookup: Result<MerchantRecordView, DbFailure>,
    step: Step,
) -> bool {
    match lookup {
        Err(DbFailure::RowNotFound) => fails_with(
            step,
            ErrorKind::Resource,
            no_merchant_message(accepted.merchant_id),
        ),
        Err(DbFailure::Other) => fails_as(
            step,
            (failure_kind(DbFailure::Other), failure_message(DbFailure::Other)),
        ),
        Ok(record) => match load_outcome(lookup) {
            Err(e) => fails_as(step, e),
            Ok(merchant) => match route_query_outcome(
                accepted.merchant_id,
                accepted.payment,
                accepted.currency,
            ) {
                Err(e) => fails_as(step, e),
                Ok((scheme, currency, merchant_id)) => {
                    &&& step matches Step::Ask(Stage::Route(a, m), Lookup::Route(query))
                    &&& a@ == accepted
                    &&& m@ == merchant
                    &&& query.scheme@ == scheme
                    &&& query.currency@ == currency
                    &&& query.merchant_id@ == merchant_id
                },
            },
        },
    }
}

/// The step after the routing lookup: a route to a known acquirer asks for
/// the account there; no route is a missing resource; a route to an unknown
/// acquirer, and any other failure, is fatal.
pub open spec fn after_route(
    accepted: AcceptedView,
    merchant: MerchantView,
    lookup: Result<(Seq<char>, i32), DbFailure>,
    step: Step,
) -> bool {
    match account_query_outcome(lookup) {
        Ok(query) => {
            &&& step matches Step::Ask(Stage::Account(a, m, acquirer), Lookup::Account(q))
            &&& a@ == accepted
            &&& m@ == merchant
            &&& acquirer == query.acquirer
            &&& q == query
        },
        Err(e) => fails_as(step, e),
    }
}

/// The step after the account lookup: with the account, the transaction is
/// assembled under a fresh reference and the taking ends; an account that
/// is not there is a missing resource, any other failure is fatal.
pub open spec fn after_account(
    accepted: AcceptedView,
    merchant: MerchantView,
    acquirer: Acquirer,
    lookup: Result<(Option<Seq<char>>, Option<Seq<char>>), DbFailure>,
    step: Step,
) -> bool {
    match account_outcome(acquirer, lookup) {
        Ok(account) => {
            &&& step matches Step::Done(Ok(t))
            &&& is_reference(t@.reference)
            &&& t@ == assembled(accepted, merchant, account, t@.reference)
        },
        Err(e) => fails_as(step, e),
    }
}

/// A payment without a route ends as a missing resource that says that no
/// account was found.
pub proof fn lemma_no_route_is_not_found(accepted: AcceptedView, merchant: MerchantView, step: Step)
    requires
        after_route(accepted, merchant, Err(DbFailure::RowNotFound), step),
    ensures
        fails_with(step, ErrorKind::Resource, no_account_message()),
{
}

/// A route to an acquirer that the gateway does not know ends as a fatal
/// error, whatever the name and the account are.
pub proof fn lemma_unknown_acquirer_is_fatal(
    accepted: AcceptedView,
    merchant: MerchantView,
    name: Seq<char>,
    account_id: i32,
    step: Step,
)
    requires
        acquirer_of(name) is None,
        after_route(accepted, merchant, Ok((name, account_id)), step),
    ensures
        step matches Step::Done(Err(e)) && e.kind == ErrorKind::Fatal,
{
}

/// A request is refused before any lookup, or not at all: the first step
/// either ends with a validation error or asks for the merchant.
pub proof fn lemma_checks_come_first(request: TransactionRequest, step: Step)
    requires
        begins(request, step),
    ensures
        step matches Step::Done(Err(e)) ==> e.kind == ErrorKind::Validation,
        step matches Step::Ask(stage, lookup) ==> stage is Merchant && lookup is Merchant,
        !(step matches Step::Done(Ok(_))),
{
}

/// What a lookup of a route found, over views.
pub open spec fn route_lookup_view(lookup: Result<RouteRow, DbFailure>) -> Result<
    (Seq<char>, i32),
    DbFailure,
> {
    match lookup {
        Ok(row) => Ok((row.acquirer@, row.account_id)),
        Err(failure) => Err(failure),
    }
}

/// What a lookup of an account found, over views.
pub open spec fn account_lookup_view(lookup: Result<AccountRow, DbFailure>) -> Result<
    (Option<Seq<char>>, Option<Seq<char>>),
    DbFailure,
> {
    match lookup {
        Ok(row) => Ok((text_of(row.merchant_identification_value), text_of(row.merchant_reference))),
        Err(failure) => Err(failure),
    }
}

/// The step that follows a stage once its lookup has been answered. An
/// answer to another lookup than the stage waits for is fatal.
pub open spec fn resumes(stage: Stage, found: Found, step: Step) -> bool {
    match (stage, found) {
        (Stage::Merchant(a), Found::Merchant(lookup)) => after_merchant(
            a@,
            lookup_view(lookup),
            step,
        ),
        (Stage::Route(a, m), Found::Route(lookup)) => after_route(
            a@,
            m@,
            route_lookup_view(lookup),
            step,
        ),
        (Stage::Account(a, m, acquirer), Found::Account(lookup)) => after_account(
            a@,
            m@,
            acquirer,
            account_lookup_view(lookup),
            step,
        ),
        _ => fails_with(step, ErrorKind::Fatal, unexpected_answer_message()),
    }
}

/// One part of a request, converted, or the validation error for a part
/// that is missing or was refused.
pub fn extract_trx_data<T>(converted: Option<Result<T, GatewayError>>, field: &str) -> (r: Result<
    T,
    GatewayError,
>)
    ensures
        match converted {
            Some(Ok(data)) => r == Ok::<T, GatewayError>(data),
            Some(Err(e)) => r is Err && r->Err_0.says(ErrorKind::Validation, e.message@),
            None => r is Err && r->Err_0.says(
                ErrorKind::Validation,
                missing_data_message(field@),
            ),
        },
{
    match converted {
        Some(Ok(data)) => Ok(data),
        Some(Err(e)) => Err(GatewayError { kind: ErrorKind::Validation, message: e.message }),
        None => {
            let mut message = "missing ".to_string();
            message.append(field);
            message.append(" data");
            Err(GatewayError { kind: ErrorKind::Validation, message })
        },
    }
}

/// Takes the payment out of a request and converts it.
pub fn extract_payment_data(payload: &mut TransactionRequest) -> (r: Result<Payment, GatewayError>)
    ensures
        match payment_request_view(old(payload).payment) {
            None => r is Err && r->Err_0.says(
                ErrorKind::Validation,
                missing_data_message("payment"@),
            ),
            Some(payment) => match payment_of(payment) {
                Ok(instrument) => r is Ok && r->Ok_0@ == instrument,
                Err(message) => r is Err && r->Err_0.says(ErrorKind::Validation, message),
            },
        },
        final(payload).payment is None,
        final(payload).amount == old(payload).amount,
        final(payload).currency == old(payload).currency,
        final(payload).transaction_type == old(payload).transaction_type,
        final(payload).merchant_id == old(payload).merchant_id,
        final(payload).billing == old(payload).billing,
        final(payload).customer == old(payload).customer,
{
    let converted = match payload.take_payment_data() {
        Some(request) => Some(request.try_into()),
        None => None,
    };
    extract_trx_data(converted, "payment")
}

/// Takes the billing address out of a request and converts it.
pub fn extract_billing_data(payload: &mut TransactionRequest) -> (r: Result<Billing, GatewayError>)
    ensures
        match billing_request_view(old(payload).billing) {
            None => r is Err && r->Err_0.says(
                ErrorKind::Validation,
                missing_data_message("billing"@),
            ),
            Some(billing) => match billing_of(billing) {
                Ok(address) => r is Ok && r->Ok_0@ == address,
                Err(message) => r is Err && r->Err_0.says(ErrorKind::Validation, message),
            },
        },
        final(payload).billing is None,
        final(payload).amount == old(payload).amount,
        final(payload).currency == old(payload).currency,
        final(payload).transaction_type == old(payload).transaction_type,
        final(payload).merchant_id == old(payload).merchant_id,
        final(payload).payment == old(payload).payment,
        final(payload).customer == old(payload).customer,
{
    let converted = match payload.take_billing_data() {
        Some(request) => Some(request.try_into()),
        None => None,
    };
    extract_trx_data(converted, "billing")
}

/// The first step of taking a transaction: checks the request, and asks
/// for its merchant if it passes.
pub fn handle_post_transaction(payload: TransactionRequest) -> (step: Step)
    ensures
        begins(payload, step),
{
    let mut payload = payload;
    let payment = match extract_payment_data(&mut payload) {
        Ok(payment) => payment,
        Err(e) => {
            return Step::Done(Err(e));
        },
    };
    match payment.validate() {
        Ok(()) => {},
        Err(errors) => {
            return Step::Done(Err(GatewayError::from_field_errors(&errors)));
        },
    }
    let mut billing = match extract_billing_data(&mut payload) {
        Ok(billing) => billing,
        Err(e) => {
            return Step::Done(Err(e));
        },
    };
    let _ = billing.validify();
    let lookup = Lookup::Merchant(payload.merchant_id.clone());
    let accepted = Accepted {
        transaction_type: payload.transaction_type,
        amount: payload.amount,
        currency: payload.currency,
        merchant_id: payload.merchant_id,
        payment,
        billing,
    };
    Step::Ask(Stage::Merchant(accepted), lookup)
}

fn with_merchant(accepted: Accepted, lookup: Result<MerchantRecord, DbFailure>) -> (step: Step)
    ensures
        after_merchant(accepted@, lookup_view(lookup), step),
{
    match lookup {
        Err(DbFailure::RowNotFound) => {
            let mut message = "merchant ".to_string();
            message.append(accepted.merchant_id.as_str());
            message.append(" does not exist");
            Step::Done(Err(GatewayError { kind: ErrorKind::Resource, message }))
        },
        Err(DbFailure::Other) => Step::Done(
            Err(GatewayError::from_error(crate::error::Error::from_failure(DbFailure::Other))),
        ),
        Ok(record) => {
            let loaded = Merchant::load(Ok(record));
            match loaded {
                Err(e) => Step::Done(Err(GatewayError::from_error(e))),
                Ok(merchant) => match select_for(
                    accepted.merchant_id.as_str(),
                    &accepted.payment,
                    accepted.currency,
                ) {
                    Err(e) => Step::Done(Err(GatewayError::from_error(e))),
                    Ok(query) => Step::Ask(Stage::Route(accepted, merchant), Lookup::Route(query)),
                },
            }
        },
    }
}

fn with_route(accepted: Accepted, merchant: Merchant, lookup: Result<RouteRow, DbFailure>) -> (step:
    Step)
    ensures
        after_route(accepted@, merchant@, route_lookup_view(lookup), step),
{
    match route(lookup) {
        Ok(query) => Step::Ask(
            Stage::Account(accepted, merchant, query.acquirer),
            Lookup::Account(query),
        ),
        Err(e) => Step::Done(Err(GatewayError::from_error(e))),
    }
}

fn with_account(
    accepted: Accepted,
    merchant: Merchant,
    acquirer: Acquirer,
    lookup: Result<AccountRow, DbFailure>,
) -> (step: Step)
    ensures
        after_account(accepted@, merchant@, acquirer, account_lookup_view(lookup), step),
{
    match load(acquirer, lookup) {
        Ok(account) => {
            let Accepted { transaction_type, amount, currency, merchant_id: _, payment, billing } =
                accepted;
            let transaction = TransactionBuilder::new().transaction_type(transaction_type).amount(
                (amount, currency),
            ).currency(currency).payment(payment).billing(billing).merchant(merchant).account(
                account,
            ).build();
            Step::Done(Ok(transaction))
        },
        Err(e) => Step::Done(Err(GatewayError::from_error(e))),
    }
}

/// The next step of taking a transaction, once the lookup that the stage
/// waits for has been answered.
pub fn resume(stage: Stage, found: Found) -> (step: Step)
    ensures
        resumes(stage, found, step),
{
    match (stage, found) {
        (Stage::Merchant(accepted), Found::Merchant(lookup)) => with_merchant(accepted, lookup),
        (Stage::Route(accepted, merchant), Found::Route(lookup)) => with_route(
            accepted,
            merchant,
            lookup,
        ),
        (Stage::Account(accepted, merchant, acquirer), Found::Account(lookup)) => with_account(
            accepted,
            merchant,
            acquirer,
            lookup,
        ),
        _ => Step::Done(
            Err(
                GatewayError {
                    kind: ErrorKind::Fatal,
                    message: "unexpected answer to a lookup".to_string(),
                },
            ),
        ),
    }
}

} // verus!
