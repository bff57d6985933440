use vstd::prelude::*;
use crate::errors::ConnectorError;
use crate::transformers::{
    pay_sale_envelope, sale_query_envelope, GenerateSaleResponse, NotifyType,
    PaymePaySaleResponse, PaymePaymentsResponse, PaymeQueryTransactionResponse,
    PaymeRefundResponse, RawEnvelope, SaleQuery, SaleQueryResponse, SaleStatus, TransactionQuery,
    WebhookEventDataResource, WebhookEventDataResourceEvent, WebhookEventDataResourceSignature,
};
use crate::transformers::{attempt_status_of, is_merge_of, is_merge_outcome};
use crate::types::{PaymentsResponseData, RouterData, Secret};
use crate::utils::same_text;

verus! {

/// One member of an inbound payload, as far as the shapes here tell members
/// apart: not there (or null), a string, or something else.
#[derive(Clone, Debug, PartialEq, Eq)]
pub enum Field {
    Absent,
    Text(String),
    Other,
}

/// One element of the `items` member of an inbound payload.
#[derive(Clone, Debug, PartialEq, Eq)]
pub struct InboundItem {
    pub sale_status: Field,
    pub sale_payme_id: Field,
    pub payme_transaction_id: Field,
}

/// The `items` member of an inbound payload: not there, a list, or
/// something else.
#[derive(Clone, Debug, PartialEq, Eq)]
pub enum ItemsField {
    Absent,
    List(Vec<InboundItem>),
    Other,
}

/// An inbound payload, already decoded, with the members that any of the
/// known shapes reads. Members that no shape reads are not kept.
#[derive(Clone, Debug, PartialEq, Eq)]
pub struct InboundPayload {
    pub sale_status: Field,
    pub payme_sale_id: Field,
    pub payme_transaction_id: Field,
    pub buyer_key: Field,
    pub payme_signature: Field,
    pub notify_type: Field,
    pub items: ItemsField,
}

/// What a payload is about.
#[derive(Clone, Copy, Debug, PartialEq, Eq, Structural)]
pub enum EntityKind {
    Attempt,
    Refund,
}

/// The gateway status that a tag spells.
pub open spec fn sale_status_of_tag(tag: Seq<char>) -> Option<SaleStatus> {
    if tag == "initial"@ {
        Some(SaleStatus::Initial)
    } else if tag == "completed"@ {
        Some(SaleStatus::Completed)
    } else if tag == "refunded"@ {
        Some(SaleStatus::Refunded)
    } else if tag == "partial-refund"@ {
        Some(SaleStatus::PartialRefund)
    } else if tag == "authorized"@ {
        Some(SaleStatus::Authorized)
    } else if tag == "voided"@ {
        Some(SaleStatus::Voided)
    } else if tag == "partial-void"@ {
        Some(SaleStatus::PartialVoid)
    } else if tag == "failed"@ {
        Some(SaleStatus::Failed)
    } else if tag == "chargeback"@ {
        Some(SaleStatus::Chargeback)
    } else {
        None
    }
}

/// The tag that spells a gateway status.
pub open spec fn sale_status_tag(status: SaleStatus) -> Seq<char> {
    match status {
        SaleStatus::Initial => "initial"@,
        SaleStatus::Completed => "completed"@,
        SaleStatus::Refunded => "refunded"@,
        SaleStatus::PartialRefund => "partial-refund"@,
        SaleStatus::Authorized => "authorized"@,
        SaleStatus::Voided => "voided"@,
        SaleStatus::PartialVoid => "partial-void"@,
        SaleStatus::Failed => "failed"@,
        SaleStatus::Chargeback => "chargeback"@,
    }
}

/// The kind of push that a tag spells.
pub open spec fn notify_type_of_tag(tag: Seq<char>) -> Option<NotifyType> {
    if tag == "sale-complete"@ {
        Some(NotifyType::SaleComplete)
    } else if tag == "sale-authorized"@ {
        Some(NotifyType::SaleAuthorized)
    } else if tag == "refund"@ {
        Some(NotifyType::Refund)
    } else if tag == "sale-failure"@ {
        Some(NotifyType::SaleFailure)
    } else if tag == "sale-chargeback"@ {
        Some(NotifyType::SaleChargeback)
    } else if tag == "sale-chargeback-refund"@ {
        Some(NotifyType::SaleChargebackRefund)
    } else {
        None
    }
}

/// The string in a member that has to be there.
pub open spec fn required_text(field: Field) -> Option<String> {
    match field {
        Field::Text(text) => Some(text),
        _ => None,
    }
}

/// The secret string in a member that has to be there.
pub open spec fn required_secret(field: Field) -> Option<Secret<String>> {
    match field {
        Field::Text(text) => Some(Secret::of(text)),
        _ => None,
    }
}

/// The secret string in a member that may be missing: the outer `None`
/// means that the member holds something that is no string.
pub open spec fn optional_secret(field: Field) -> Option<Option<Secret<String>>> {
    match field {
        Field::Absent => Some(None),
        Field::Text(text) => Some(Some(Secret::of(text))),
        Field::Other => None,
    }
}

/// The gateway status in a member that has to be there.
pub open spec fn required_status(field: Field) -> Option<SaleStatus> {
    match field {
        Field::Text(text) => sale_status_of_tag(text@),
        _ => None,
    }
}

/// The kind of push in a member that has to be there.
pub open spec fn required_notify_type(field: Field) -> Option<NotifyType> {
    match field {
        Field::Text(text) => notify_type_of_tag(text@),
        _ => None,
    }
}

/// The payment reply that a payload is, if it has that shape: a status, a
/// sale id and a transaction id, and a buyer's key or none.
pub open spec fn pay_sale_shape(payload: InboundPayload) -> Option<PaymePaySaleResponse> {
    match (
        required_status(payload.sale_status),
        required_text(payload.payme_sale_id),
        required_text(payload.payme_transaction_id),
        optional_secret(payload.buyer_key),
    ) {
        (Some(sale_status), Some(payme_sale_id), Some(payme_transaction_id), Some(buyer_key)) => {
            Some(PaymePaySaleResponse { sale_status, payme_sale_id, payme_transaction_id, buyer_key })
        },
        _ => None,
    }
}

/// The sale that an element of `items` is, if it has that shape.
pub open spec fn sale_query_item(item: InboundItem) -> Option<SaleQuery> {
    match (required_status(item.sale_status), required_text(item.sale_payme_id)) {
        (Some(sale_status), Some(sale_payme_id)) => Some(SaleQuery { sale_status, sale_payme_id }),
        _ => None,
    }
}

/// The sales of the sale query reply that a payload is, if it has that
/// shape: a list under `items`, each element of which is a sale.
pub open spec fn sale_query_shape(payload: InboundPayload) -> Option<Seq<SaleQuery>> {
    match payload.items {
        ItemsField::List(items) => {
            if forall|i: int| 0 <= i < items@.len() ==> sale_query_item(#[trigger] items@[i]) is Some {
                Some(Seq::new(items@.len(), |i: int| sale_query_item(items@[i])->Some_0))
            } else {
                None
            }
        },
        _ => None,
    }
}

/// The refund reply that a payload is, if it has that shape.
pub open spec fn refund_shape(payload: InboundPayload) -> Option<PaymeRefundResponse> {
    match (required_status(payload.sale_status), required_text(payload.payme_transaction_id)) {
        (Some(sale_status), Some(payme_transaction_id)) => Some(
            PaymeRefundResponse { sale_status, payme_transaction_id },
        ),
        _ => None,
    }
}

/// The transaction that an element of `items` is, if it has that shape.
pub open spec fn transaction_query_item(item: InboundItem) -> Option<TransactionQuery> {
    match (required_status(item.sale_status), required_text(item.payme_transaction_id)) {
        (Some(sale_status), Some(payme_transaction_id)) => Some(
            TransactionQuery { sale_status, payme_transaction_id },
        ),
        _ => None,
    }
}

/// The transactions of the transaction query reply that a payload is, if it
/// has that shape.
pub open spec fn transaction_query_shape(payload: InboundPayload) -> Option<Seq<TransactionQuery>> {
    match payload.items {
        ItemsField::List(items) => {
            if forall|i: int|
                0 <= i < items@.len() ==> transaction_query_item(#[trigger] items@[i]) is Some {
                Some(Seq::new(items@.len(), |i: int| transaction_query_item(items@[i])->Some_0))
            } else {
                None
            }
        },
        _ => None,
    }
}

/// The webhook body that a payload is, if it has that shape.
pub open spec fn webhook_shape(payload: InboundPayload) -> Option<WebhookEventDataResource> {
    match (
        required_status(payload.sale_status),
        required_secret(payload.payme_signature),
        optional_secret(payload.buyer_key),
        required_notify_type(payload.notify_type),
        required_text(payload.payme_sale_id),
        required_text(payload.payme_transaction_id),
    ) {
        (
            Some(sale_status),
            Some(payme_signature),
            Some(buyer_key),
            Some(notify_type),
            Some(payme_sale_id),
            Some(payme_transaction_id),
        ) => Some(
            WebhookEventDataResource {
                sale_status,
                payme_signature,
                buyer_key,
                notify_type,
                payme_sale_id,
                payme_transaction_id,
            },
        ),
        _ => None,
    }
}

/// What a payload says its push is about, if it says so.
pub open spec fn webhook_event_shape(payload: InboundPayload) -> Option<
    WebhookEventDataResourceEvent,
> {
    match required_notify_type(payload.notify_type) {
        Some(notify_type) => Some(WebhookEventDataResourceEvent { notify_type }),
        None => None,
    }
}

/// The signature that a payload carries, if it carries one.
pub open spec fn webhook_signature_shape(payload: InboundPayload) -> Option<
    WebhookEventDataResourceSignature,
> {
    match required_secret(payload.payme_signature) {
        Some(payme_signature) => Some(WebhookEventDataResourceSignature { payme_signature }),
        None => None,
    }
}

/// The reply to the opening of a sale that a payload is, if it has that
/// shape.
pub open spec fn generate_sale_shape(payload: InboundPayload) -> Option<GenerateSaleResponse> {
    match required_text(payload.payme_sale_id) {
        Some(payme_sale_id) => Some(GenerateSaleResponse { payme_sale_id }),
        None => None,
    }
}

/// The envelope of a refund reply: status and transaction id.
pub open spec fn refund_envelope(response: PaymeRefundResponse) -> RawEnvelope {
    RawEnvelope {
        raw_status: response.sale_status,
        resource_id: response.payme_transaction_id,
        secondary_id: None,
        token: None,
    }
}

/// The envelope of a transaction query reply: status and id of the first
/// transaction. A reply without transactions has none.
pub open spec fn transaction_query_envelope(items: Seq<TransactionQuery>) -> Option<RawEnvelope> {
    if items.len() == 0 {
        None
    } else {
        Some(
            RawEnvelope {
                raw_status: items[0].sale_status,
                resource_id: items[0].payme_transaction_id,
                secondary_id: None,
                token: None,
            },
        )
    }
}

/// The envelope that a payload resolves to. The shapes are tried in a fixed
/// order, the one with more required members first, and the first that fits
/// is read; a payload that fits none, or a query reply without elements,
/// resolves to nothing.
pub open spec fn resolved_envelope(payload: InboundPayload, kind: EntityKind) -> Option<
    RawEnvelope,
> {
    match kind {
        EntityKind::Attempt => match pay_sale_shape(payload) {
            Some(response) => Some(pay_sale_envelope(response)),
            None => match sale_query_shape(payload) {
                Some(items) => sale_query_envelope(items),
                None => None,
            },
        },
        EntityKind::Refund => match refund_shape(payload) {
            Some(response) => Some(refund_envelope(response)),
            None => match transaction_query_shape(payload) {
                Some(items) => transaction_query_envelope(items),
                None => None,
            },
        },
    }
}

/// The payload fits both payment shapes, so that only the order of trial
/// decides how it is read.
pub open spec fn fits_both_payment_shapes(payload: InboundPayload) -> bool {
    pay_sale_shape(payload) is Some && sale_query_shape(payload) is Some
}

/// Reads a gateway status from its tag.
pub fn parse_sale_status(tag: &str) -> (status: Option<SaleStatus>)
    ensures
        status == sale_status_of_tag(tag@),
{
    if same_text(tag, "initial") {
        Some(SaleStatus::Initial)
    } else if same_text(tag, "completed") {
        Some(SaleStatus::Completed)
    } else if same_text(tag, "refunded") {
        Some(SaleStatus::Refunded)
    } else if same_text(tag, "partial-refund") {
        Some(SaleStatus::PartialRefund)
    } else if same_text(tag, "authorized") {
        Some(SaleStatus::Authorized)
    } else if same_text(tag, "voided") {
        Some(SaleStatus::Voided)
    } else if same_text(tag, "partial-void") {
        Some(SaleStatus::PartialVoid)
    } else if same_text(tag, "failed") {
        Some(SaleStatus::Failed)
    } else if same_text(tag, "chargeback") {
        Some(SaleStatus::Chargeback)
    } else {
        None
    }
}

/// Spells a gateway status as its tag.
pub fn sale_status_as_tag(status: SaleStatus) -> (tag: &'static str)
    ensures
        tag@ == sale_status_tag(status),
{
    match status {
        SaleStatus::Initial => "initial",
        SaleStatus::Completed => "completed",
        SaleStatus::Refunded => "refunded",
        SaleStatus::PartialRefund => "partial-refund",
        SaleStatus::Authorized => "authorized",
        SaleStatus::Voided => "voided",
        SaleStatus::PartialVoid => "partial-void",
        SaleStatus::Failed => "failed",
        SaleStatus::Chargeback => "chargeback",
    }
}

/// Reads the kind of a push from its tag.
pub fn parse_notify_type(tag: &str) -> (notify_type: Option<NotifyType>)
    ensures
        notify_type == notify_type_of_tag(tag@),
{
    if same_text(tag, "sale-complete") {
        Some(NotifyType::SaleComplete)
    } else if same_text(tag, "sale-authorized") {
        Some(NotifyType::SaleAuthorized)
    } else if same_text(tag, "refund") {
        Some(NotifyType::Refund)
    } else if same_text(tag, "sale-failure") {
        Some(NotifyType::SaleFailure)
    } else if same_text(tag, "sale-chargeback") {
        Some(NotifyType::SaleChargeback)
    } else if same_text(tag, "sale-chargeback-refund") {
        Some(NotifyType::SaleChargebackRefund)
    } else {
        None
    }
}

/// Every gateway status is read back from its own tag: no two statuses
/// share a tag.
pub proof fn lemma_status_tag_round_trip(status: SaleStatus)
    ensures
        sale_status_of_tag(sale_status_tag(status)) == Some(status),
{
    reveal_strlit("initial");
    reveal_strlit("completed");
    reveal_strlit("refunded");
    reveal_strlit("partial-refund");
    reveal_strlit("authorized");
    reveal_strlit("voided");
    reveal_strlit("partial-void");
    reveal_strlit("failed");
    reveal_strlit("chargeback");
    assert("initial"@.len() == 7);
    assert("completed"@.len() == 9);
    assert("refunded"@.len() == 8);
    assert("partial-refund"@.len() == 14);
    assert("authorized"@.len() == 10);
    assert("voided"@.len() == 6);
    assert("partial-void"@.len() == 12);
    assert("failed"@.len() == 6);
    assert("chargeback"@.len() == 10);
    assert("voided"@[0] == 'v' && "failed"@[0] == 'f');
    assert("authorized"@[0] == 'a' && "chargeback"@[0] == 'c');
}

impl Field {
    /// The string in a member that has to be there.
    pub fn text(&self) -> (text: Option<String>)
        ensures
            text == required_text(*self),
    {
        match self {
            Field::Text(text) => Some(text.clone()),
            _ => None,
        }
    }

    /// The secret string in a member that has to be there.
    pub fn secret(&self) -> (secret: Option<Secret<String>>)
        ensures
            secret == required_secret(*self),
    {
        match self {
            Field::Text(text) => Some(Secret::new(text.clone())),
            _ => None,
        }
    }

    /// The secret string in a member that may be missing.
    pub fn optional_secret(&self) -> (secret: Option<Option<Secret<String>>>)
        ensures
            secret == optional_secret(*self),
    {
        match self {
            Field::Absent => Some(None),
            Field::Text(text) => Some(Some(Secret::new(text.clone()))),
            Field::Other => None,
        }
    }

    /// The gateway status in a member that has to be there.
    pub fn status(&self) -> (status: Option<SaleStatus>)
        ensures
            status == required_status(*self),
    {
        match self {
            Field::Text(text) => parse_sale_status(text.as_str()),
            _ => None,
        }
    }

    /// The kind of push in a member that has to be there.
    pub fn notify_type(&self) -> (notify_type: Option<NotifyType>)
        ensures
            notify_type == required_notify_type(*self),
    {
        match self {
            Field::Text(text) => parse_notify_type(text.as_str()),
            _ => None,
        }
    }
}

impl InboundItem {
    /// Reads the element as a sale.
    pub fn as_sale(&self) -> (sale: Option<SaleQuery>)
        ensures
            sale == sale_query_item(*self),
    {
        match (self.sale_status.status(), self.sale_payme_id.text()) {
            (Some(sale_status), Some(sale_payme_id)) => Some(
                SaleQuery { sale_status, sale_payme_id },
            ),
            _ => None,
        }
    }

    /// Reads the element as a transaction.
    pub fn as_transaction(&self) -> (transaction: Option<TransactionQuery>)
        ensures
            transaction == transaction_query_item(*self),
    {
        match (self.sale_status.status(), self.payme_transaction_id.text()) {
            (Some(sale_status), Some(payme_transaction_id)) => Some(
                TransactionQuery { sale_status, payme_transaction_id },
            ),
            _ => None,
        }
    }
}

impl InboundPayload {
    /// Reads the payload as a payment reply.
    pub fn as_pay_sale(&self) -> (response: Option<PaymePaySaleResponse>)
        ensures
            response == pay_sale_shape(*self),
    {
        match (
            self.sale_status.status(),
            self.payme_sale_id.text(),
            self.payme_transaction_id.text(),
            self.buyer_key.optional_secret(),
        ) {
            (
                Some(sale_status),
                Some(payme_sale_id),
                Some(payme_transaction_id),
                Some(buyer_key),
            ) => Some(
                PaymePaySaleResponse { sale_status, payme_sale_id, payme_transaction_id, buyer_key },
            ),
            _ => None,
        }
    }

    /// Reads the payload as a sale query reply. One element that is no sale
    /// spoils the whole reply.
    pub fn as_sale_query(&self) -> (response: Option<SaleQueryResponse>)
        ensures
            match sale_query_shape(*self) {
                Some(items) => response matches Some(reply) && reply.items@ == items,
                None => response is None,
            },
    {
        match &self.items {
            ItemsField::List(items) => {
                let mut sales: Vec<SaleQuery> = Vec::new();
                let mut i: usize = 0;
                while i < items.len()
                    invariant
                        self.items == ItemsField::List(*items),
                        i <= items@.len(),
                        sales@.len() == i,
                        forall|j: int|
                            0 <= j < i ==> sale_query_item(#[trigger] items@[j]) == Some(sales@[j]),
                    decreases items@.len() - i,
                {
                    match items[i].as_sale() {
                        Some(sale) => {
                            sales.push(sale);
                        },
                        None => {
                            assert(sale_query_item(items@[i as int]) is None);
                            return None;
                        },
                    }
                    i += 1;
                }
                assert(sales@ =~= Seq::new(
                    items@.len(),
                    |i: int| sale_query_item(items@[i])->Some_0,
                ));
                Some(SaleQueryResponse { items: sales })
            },
            _ => None,
        }
    }

    /// Reads the payload as a refund reply.
    pub fn as_refund(&self) -> (response: Option<PaymeRefundResponse>)
        ensures
            response == refund_shape(*self),
    {
        match (self.sale_status.status(), self.payme_transaction_id.text()) {
            (Some(sale_status), Some(payme_transaction_id)) => Some(
                PaymeRefundResponse { sale_status, payme_transaction_id },
            ),
            _ => None,
        }
    }

    /// Reads the payload as a transaction query reply. One element that is
    /// no transaction spoils the whole reply.
    pub fn as_transaction_query(&self) -> (response: Option<PaymeQueryTransactionResponse>)
        ensures
            match transaction_query_shape(*self) {
                Some(items) => response matches Some(reply) && reply.items@ == items,
                None => response is None,
            },
    {
        match &self.items {
            ItemsField::List(items) => {
                let mut transactions: Vec<TransactionQuery> = Vec::new();
                let mut i: usize = 0;
                while i < items.len()
                    invariant
                        self.items == ItemsField::List(*items),
                        i <= items@.len(),
                        transactions@.len() == i,
                        forall|j: int|
                            0 <= j < i ==> transaction_query_item(#[trigger] items@[j]) == Some(
                                transactions@[j],
                            ),
                    decreases items@.len() - i,
                {
                    match items[i].as_transaction() {
                        Some(transaction) => {
                            transactions.push(transaction);
                        },
                        None => {
                            assert(transaction_query_item(items@[i as int]) is None);
                            return None;
                        },
                    }
                    i += 1;
                }
                assert(transactions@ =~= Seq::new(
                    items@.len(),
                    |i: int| transaction_query_item(items@[i])->Some_0,
                ));
                Some(PaymeQueryTransactionResponse { items: transactions })
            },
            _ => None,
        }
    }

    /// Reads the payload as a webhook body.
    pub fn as_webhook(&self) -> (body: Option<WebhookEventDataResource>)
        ensures
            body == webhook_shape(*self),
    {
        match (
            self.sale_status.status(),
            self.payme_signature.secret(),
            self.buyer_key.optional_secret(),
            self.notify_type.notify_type(),
            self.payme_sale_id.text(),
            self.payme_transaction_id.text(),
        ) {
            (
                Some(sale_status),
                Some(payme_signature),
                Some(buyer_key),
                Some(notify_type),
                Some(payme_sale_id),
                Some(payme_transaction_id),
            ) => Some(
                WebhookEventDataResource {
                    sale_status,
                    payme_signature,
                    buyer_key,
                    notify_type,
                    payme_sale_id,
                    payme_transaction_id,
                },
            ),
            _ => None,
        }
    }

    /// Reads what the push is about.
    pub fn as_webhook_event(&self) -> (event: Option<WebhookEventDataResourceEvent>)
        ensures
            event == webhook_event_shape(*self),
    {
        match self.notify_type.notify_type() {
            Some(notify_type) => Some(WebhookEventDataResourceEvent { notify_type }),
            None => None,
        }
    }

    /// Reads the signature of the push.
    pub fn as_webhook_signature(&self) -> (signature: Option<WebhookEventDataResourceSignature>)
        ensures
            signature == webhook_signature_shape(*self),
    {
        match self.payme_signature.secret() {
            Some(payme_signature) => Some(WebhookEventDataResourceSignature { payme_signature }),
            None => None,
        }
    }

    /// Reads the payload as the reply to the opening of a sale.
    pub fn as_generate_sale(&self) -> (response: Option<GenerateSaleResponse>)
        ensures
            response == generate_sale_shape(*self),
    {
        match self.payme_sale_id.text() {
            Some(payme_sale_id) => Some(GenerateSaleResponse { payme_sale_id }),
            None => None,
        }
    }

    /// Reads the payload as a payment reply in the first shape that fits:
    /// the single reply before the query reply. A payload that fits neither
    /// is a failure of response handling.
    pub fn as_payments_response(&self) -> (result: Result<PaymePaymentsResponse, ConnectorError>)
        ensures
            match pay_sale_shape(*self) {
                Some(response) => result == Ok::<PaymePaymentsResponse, ConnectorError>(
                    PaymePaymentsResponse::PaymePaySaleResponse(response),
                ),
                None => match sale_query_shape(*self) {
                    Some(items) => result matches Ok(
                        PaymePaymentsResponse::SaleQueryResponse(reply),
                    ) && reply.items@ == items,
                    None => result == Err::<PaymePaymentsResponse, ConnectorError>(
                        ConnectorError::ResponseHandlingFailed,
                    ),
                },
            },
    {
        match self.as_pay_sale() {
            Some(response) => Ok(PaymePaymentsResponse::PaymePaySaleResponse(response)),
            None => match self.as_sale_query() {
                Some(response) => Ok(PaymePaymentsResponse::SaleQueryResponse(response)),
                None => Err(ConnectorError::ResponseHandlingFailed),
            },
        }
    }

    /// Whether the payload fits both payment shapes. Such a payload is read
    /// as a single reply; a caller that wants to know can ask here.
    pub fn fits_both_payment_shapes(&self) -> (both: bool)
        ensures
            both == fits_both_payment_shapes(*self),
    {
        self.as_pay_sale().is_some() && self.as_sale_query().is_some()
    }

    /// Resolves the payload into an envelope, by the shapes that replies
    /// about the given kind of entity can have. A payload that fits no shape,
    /// or a query reply without elements, is a failure of response handling.
    pub fn resolve(&self, kind: EntityKind) -> (result: Result<RawEnvelope, ConnectorError>)
        ensures
            result == match resolved_envelope(*self, kind) {
                Some(envelope) => Ok::<RawEnvelope, ConnectorError>(envelope),
                None => Err::<RawEnvelope, ConnectorError>(ConnectorError::ResponseHandlingFailed),
            },
    {
        match kind {
            EntityKind::Attempt => match self.as_payments_response() {
                Ok(response) => response.into_envelope(),
                Err(error) => Err(error),
            },
            EntityKind::Refund => match self.as_refund() {
                Some(response) => Ok(
                    RawEnvelope {
                        raw_status: response.sale_status,
                        resource_id: response.payme_transaction_id,
                        secondary_id: None,
                        token: None,
                    },
                ),
                None => match self.as_transaction_query() {
                    Some(response) => {
                        if response.items.len() == 0 {
                            Err(ConnectorError::ResponseHandlingFailed)
                        } else {
                            Ok(
                                RawEnvelope {
                                    raw_status: response.items[0].sale_status,
                                    resource_id: response.items[0].payme_transaction_id.clone(),
                                    secondary_id: None,
                                    token: None,
                                },
                            )
                        }
                    },
                    None => Err(ConnectorError::ResponseHandlingFailed),
                },
            },
        }
    }
}

/// The shapes of a kind are told apart by the members they require: a
/// payload without a list under `items` fits no query shape, and one without
/// a status of its own fits no single reply. A payload with only one of the
/// two is therefore read the same way in whichever order the shapes are
/// tried.
pub proof fn lemma_shapes_differ_by_required_members(payload: InboundPayload)
    ensures
        !(payload.items is List) ==> sale_query_shape(payload) is None && transaction_query_shape(
            payload,
        ) is None,
        !(payload.sale_status is Text) ==> pay_sale_shape(payload) is None && refund_shape(payload)
            is None && webhook_shape(payload) is None,
        !(payload.items is List && payload.sale_status is Text) ==> !fits_both_payment_shapes(
            payload,
        ),
{
}

/// A webhook body is also a payment reply: whatever is read as the one is
/// read as the other, with status, ids and buyer's key unchanged.
pub proof fn lemma_webhook_body_is_payment_reply(payload: InboundPayload)
    requires
        webhook_shape(payload) is Some,
    ensures
        pay_sale_shape(payload) == Some(
            crate::transformers::webhook_as_pay_sale(webhook_shape(payload)->Some_0),
        ),
{
}

impl<T> RouterData<T, PaymentsResponseData> {
    /// Takes a payment payload from its decoded form to the record: the
    /// payload is resolved into an envelope, and the envelope is merged into
    /// the record. A payload that resolves to nothing fails; one that
    /// resolves to an envelope succeeds.
    pub fn apply_payload(previous: Self, payload: &InboundPayload) -> (result: Result<
        Self,
        ConnectorError,
    >)
        ensures
            match resolved_envelope(*payload, EntityKind::Attempt) {
                Some(envelope) => is_merge_outcome(previous, envelope, result),
                None => result == Err::<Self, ConnectorError>(ConnectorError::ResponseHandlingFailed),
            },
    {
        match payload.resolve(EntityKind::Attempt) {
            Ok(envelope) => Self::merge(previous, envelope),
            Err(error) => Err(error),
        }
    }
}

/// From one end to the other: whatever shape a payment payload has, the
/// record that comes of it has the canonical status of the gateway status
/// that the payload spells, and the resource id that the payload names.
pub proof fn lemma_status_goes_through<T>(
    previous: RouterData<T, PaymentsResponseData>,
    payload: InboundPayload,
    record: RouterData<T, PaymentsResponseData>,
)
    requires
        resolved_envelope(payload, EntityKind::Attempt) is Some,
        is_merge_of(previous, resolved_envelope(payload, EntityKind::Attempt)->Some_0, record),
    ensures
        record.status == attempt_status_of(
            resolved_envelope(payload, EntityKind::Attempt)->Some_0.raw_status,
        ),
        pay_sale_shape(payload) is Some ==> record.status == attempt_status_of(
            pay_sale_shape(payload)->Some_0.sale_status,
        ),
        pay_sale_shape(payload) is None ==> ({
            &&& sale_query_shape(payload) matches Some(items)
            &&& items.len() > 0
            &&& record.status == attempt_status_of(items[0].sale_status)
        }),
{
}

} // verus!
