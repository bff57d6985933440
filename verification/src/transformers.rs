use vstd::prelude::*;
use vstd::std_specs::convert::{FromSpecImpl, TryFromSpecImpl};
use crate::enums::{AttemptStatus, IncomingWebhookEvent, RefundStatus};
use crate::errors::ConnectorError;
use crate::types::{
    ErrorResponse, MandateReference, PaymentsResponseData, RefundsResponseData, ResponseId,
    ResponseRouterData, RouterData, Secret,
};

verus! {

/// Status of a sale in the gateway's own words, taken over as received.
#[derive(Clone, Copy, Debug, PartialEq, Eq, Structural)]
pub enum SaleStatus {
    Initial,
    Completed,
    Refunded,
    PartialRefund,
    Authorized,
    Voided,
    PartialVoid,
    Failed,
    Chargeback,
}

/// The canonical attempt status that each gateway status stands for. Every
/// gateway status has one; refunds of either extent and chargebacks all count
/// as refunded without the merchant's doing.
pub open spec fn attempt_status_of(raw: SaleStatus) -> AttemptStatus {
    match raw {
        SaleStatus::Initial => AttemptStatus::Authorizing,
        SaleStatus::Completed => AttemptStatus::Charged,
        SaleStatus::Refunded => AttemptStatus::AutoRefunded,
        SaleStatus::PartialRefund => AttemptStatus::AutoRefunded,
        SaleStatus::Authorized => AttemptStatus::Authorized,
        SaleStatus::Voided => AttemptStatus::Voided,
        SaleStatus::PartialVoid => AttemptStatus::Voided,
        SaleStatus::Failed => AttemptStatus::Failure,
        SaleStatus::Chargeback => AttemptStatus::AutoRefunded,
    }
}

/// The canonical refund status that a gateway status stands for, where it
/// means anything for a refund: only a refund of either extent and a failure
/// do.
pub open spec fn refund_status_of(raw: SaleStatus) -> Option<RefundStatus> {
    match raw {
        SaleStatus::Refunded => Some(RefundStatus::Success),
        SaleStatus::PartialRefund => Some(RefundStatus::Success),
        SaleStatus::Failed => Some(RefundStatus::Failure),
        _ => None,
    }
}

impl SaleStatus {
    /// Maps the gateway status of a sale to the canonical attempt status.
    pub fn to_attempt_status(self) -> (status: AttemptStatus)
        ensures
            status == attempt_status_of(self),
    {
        match self {
            SaleStatus::Initial => AttemptStatus::Authorizing,
            SaleStatus::Completed => AttemptStatus::Charged,
            SaleStatus::Refunded | SaleStatus::PartialRefund => AttemptStatus::AutoRefunded,
            SaleStatus::Authorized => AttemptStatus::Authorized,
            SaleStatus::Voided | SaleStatus::PartialVoid => AttemptStatus::Voided,
            SaleStatus::Failed => AttemptStatus::Failure,
            SaleStatus::Chargeback => AttemptStatus::AutoRefunded,
        }
    }

    /// Maps the gateway status of a sale to the canonical refund status, and
    /// fails on a status that no finished refund can have.
    pub fn to_refund_status(self) -> (result: Result<RefundStatus, ConnectorError>)
        ensures
            result == match refund_status_of(self) {
                Some(status) => Ok::<RefundStatus, ConnectorError>(status),
                None => Err::<RefundStatus, ConnectorError>(ConnectorError::ResponseHandlingFailed),
            },
    {
        match self {
            SaleStatus::Refunded | SaleStatus::PartialRefund => Ok(RefundStatus::Success),
            SaleStatus::Failed => Ok(RefundStatus::Failure),
            SaleStatus::Initial
            | SaleStatus::Completed
            | SaleStatus::Authorized
            | SaleStatus::Voided
            | SaleStatus::PartialVoid
            | SaleStatus::Chargeback => Err(ConnectorError::ResponseHandlingFailed),
        }
    }
}

impl From<SaleStatus> for AttemptStatus {
    fn from(item: SaleStatus) -> (status: Self) {
        item.to_attempt_status()
    }
}

impl FromSpecImpl<SaleStatus> for AttemptStatus {
    open spec fn obeys_from_spec() -> bool {
        true
    }

    open spec fn from_spec(item: SaleStatus) -> Self {
        attempt_status_of(item)
    }
}

impl TryFrom<SaleStatus> for RefundStatus {
    type Error = ConnectorError;

    fn try_from(sale_status: SaleStatus) -> (result: Result<Self, ConnectorError>) {
        sale_status.to_refund_status()
    }
}

impl TryFromSpecImpl<SaleStatus> for RefundStatus {
    open spec fn obeys_try_from_spec() -> bool {
        true
    }

    open spec fn try_from_spec(sale_status: SaleStatus) -> Result<Self, ConnectorError> {
        match refund_status_of(sale_status) {
            Some(status) => Ok(status),
            None => Err(ConnectorError::ResponseHandlingFailed),
        }
    }
}

/// One sale in a reply to a sale query.
#[derive(Clone, Debug, PartialEq, Eq)]
pub struct SaleQuery {
    pub sale_status: SaleStatus,
    pub sale_payme_id: String,
}

/// Reply to a sale query: the sales that matched.
#[derive(Clone, Debug, PartialEq, Eq)]
pub struct SaleQueryResponse {
    pub items: Vec<SaleQuery>,
}

/// Reply to a payment, and the shape into which a webhook push is brought.
#[derive(Clone, PartialEq, Eq)]
pub struct PaymePaySaleResponse {
    pub sale_status: SaleStatus,
    pub payme_sale_id: String,
    pub payme_transaction_id: String,
    pub buyer_key: Option<Secret<String>>,
}

/// A payment reply in either of its shapes.
#[derive(Clone, PartialEq, Eq)]
pub enum PaymePaymentsResponse {
    PaymePaySaleResponse(PaymePaySaleResponse),
    SaleQueryResponse(SaleQueryResponse),
}

/// Gateway data that is kept on the record for later calls.
#[derive(Clone, Debug, PartialEq, Eq)]
pub struct PaymeMetadata {
    pub payme_transaction_id: String,
}

/// Reply to the opening of a sale.
#[derive(Clone, Debug, PartialEq, Eq)]
pub struct GenerateSaleResponse {
    pub payme_sale_id: String,
}

/// Reply to a refund.
#[derive(Clone, Debug, PartialEq, Eq)]
pub struct PaymeRefundResponse {
    pub sale_status: SaleStatus,
    pub payme_transaction_id: String,
}

/// One transaction in a reply to a transaction query.
#[derive(Clone, Debug, PartialEq, Eq)]
pub struct TransactionQuery {
    pub sale_status: SaleStatus,
    pub payme_transaction_id: String,
}

/// Reply to a transaction query: the transactions that matched.
#[derive(Clone, Debug, PartialEq, Eq)]
pub struct PaymeQueryTransactionResponse {
    pub items: Vec<TransactionQuery>,
}

/// The gateway's account of a failed call.
#[derive(Clone, Debug, PartialEq, Eq)]
pub struct PaymeErrorResponse {
    pub status_code: u16,
    pub code: String,
    pub message: String,
    pub reason: Option<String>,
}

impl Default for PaymeErrorResponse {
    fn default() -> (response: Self)
        ensures
            response.status_code == 0,
            response.code@ == Seq::<char>::empty(),
            response.message@ == Seq::<char>::empty(),
            response.reason is None,
    {
        PaymeErrorResponse {
            status_code: 0,
            code: String::new(),
            message: String::new(),
            reason: None,
        }
    }
}

/// What a reply says once its shape no longer matters: the gateway status,
/// the gateway's id of the resource, and, where the reply carries them, the
/// id of the transaction behind it and the buyer's token.
#[derive(Clone, PartialEq, Eq)]
pub struct RawEnvelope {
    pub raw_status: SaleStatus,
    pub resource_id: String,
    pub secondary_id: Option<String>,
    pub token: Option<Secret<String>>,
}

/// The envelope of a payment reply: all four parts are there.
pub open spec fn pay_sale_envelope(response: PaymePaySaleResponse) -> RawEnvelope {
    RawEnvelope {
        raw_status: response.sale_status,
        resource_id: response.payme_sale_id,
        secondary_id: Some(response.payme_transaction_id),
        token: response.buyer_key,
    }
}

/// The envelope of a sale query reply: status and id of the first sale, and
/// never a transaction id or a token. A reply without sales has none.
pub open spec fn sale_query_envelope(items: Seq<SaleQuery>) -> Option<RawEnvelope> {
    if items.len() == 0 {
        None
    } else {
        Some(
            RawEnvelope {
                raw_status: items[0].sale_status,
                resource_id: items[0].sale_payme_id,
                secondary_id: None,
                token: None,
            },
        )
    }
}

/// The envelope of a payment reply in either shape.
pub open spec fn payments_envelope(response: PaymePaymentsResponse) -> Option<RawEnvelope> {
    match response {
        PaymePaymentsResponse::PaymePaySaleResponse(response) => Some(pay_sale_envelope(response)),
        PaymePaymentsResponse::SaleQueryResponse(response) => sale_query_envelope(response.items@),
    }
}

impl PaymePaySaleResponse {
    /// Reads the reply into an envelope.
    pub fn into_envelope(self) -> (envelope: RawEnvelope)
        ensures
            envelope == pay_sale_envelope(self),
    {
        RawEnvelope {
            raw_status: self.sale_status,
            resource_id: self.payme_sale_id,
            secondary_id: Some(self.payme_transaction_id),
            token: self.buyer_key,
        }
    }
}

impl SaleQueryResponse {
    /// Reads the reply into an envelope. One sale id was asked for, so the
    /// first sale is the answer; a reply without sales is a failure and never
    /// taken for "nothing new".
    pub fn into_envelope(self) -> (result: Result<RawEnvelope, ConnectorError>)
        ensures
            result == match sale_query_envelope(self.items@) {
                Some(envelope) => Ok::<RawEnvelope, ConnectorError>(envelope),
                None => Err::<RawEnvelope, ConnectorError>(ConnectorError::ResponseHandlingFailed),
            },
    {
        if self.items.len() == 0 {
            Err(ConnectorError::ResponseHandlingFailed)
        } else {
            let raw_status = self.items[0].sale_status;
            let resource_id = self.items[0].sale_payme_id.clone();
            Ok(RawEnvelope { raw_status, resource_id, secondary_id: None, token: None })
        }
    }
}

impl PaymePaymentsResponse {
    /// Reads the reply into an envelope, whichever shape it has.
    pub fn into_envelope(self) -> (result: Result<RawEnvelope, ConnectorError>)
        ensures
            result == match payments_envelope(self) {
                Some(envelope) => Ok::<RawEnvelope, ConnectorError>(envelope),
                None => Err::<RawEnvelope, ConnectorError>(ConnectorError::ResponseHandlingFailed),
            },
    {
        match self {
            PaymePaymentsResponse::PaymePaySaleResponse(response) => Ok(response.into_envelope()),
            PaymePaymentsResponse::SaleQueryResponse(response) => response.into_envelope(),
        }
    }
}

/// A sale query reply is read by its first sale alone: two replies that
/// begin with the same sale give the same envelope, whatever follows.
pub proof fn lemma_only_first_sale_counts(first: Seq<SaleQuery>, second: Seq<SaleQuery>)
    requires
        first.len() > 0,
        second.len() > 0,
        first[0] == second[0],
    ensures
        sale_query_envelope(first) is Some,
        sale_query_envelope(first) == sale_query_envelope(second),
{
}

/// The JSON text that `serde_json::to_string` writes for an object with the
/// one member `key`, whose value is the string `value`.
pub uninterp spec fn json_object_text(key: Seq<char>, value: Seq<char>) -> Seq<char>;

#[verifier::external_type_specification]
#[verifier::external_body]
pub struct ExJsonError(serde_json::Error);

/// Builds a `serde_json::Value` object with one string member and calls
/// `serde_json::to_string` on it. The text depends on the key and the value
/// alone, and is what `json_object_text` names. The call fails only where a
/// map has a key that is no string or where the writer fails; here the key is
/// a string and the writer a vector of bytes, so it gives a text.
#[verifier::external_body]
fn write_json_object(key: &str, value: &str) -> (result: Result<String, serde_json::Error>)
    ensures
        result is Ok,
        result matches Ok(text) ==> text@ == json_object_text(key@, value@),
{
    let mut members = serde_json::Map::new();
    members.insert(key.to_owned(), serde_json::Value::String(value.to_owned()));
    serde_json::to_string(&serde_json::Value::Object(members))
}

/// Name of the one member of the metadata object.
pub open spec fn metadata_key() -> Seq<char> {
    "payme_transaction_id"@
}

/// `outcome` is what comes of writing the metadata for a transaction id:
/// the JSON object with that id as its one member.
pub open spec fn is_metadata_outcome(
    transaction_id: Seq<char>,
    outcome: Result<String, ConnectorError>,
) -> bool {
    outcome matches Ok(text) && text@ == json_object_text(metadata_key(), transaction_id)
}

impl PaymeMetadata {
    /// Writes the metadata as a JSON object, which always succeeds. Were the
    /// writer ever to refuse, that would be a failure of response handling.
    pub fn to_json(&self) -> (outcome: Result<String, ConnectorError>)
        ensures
            is_metadata_outcome(self.payme_transaction_id@, outcome),
    {
        match write_json_object("payme_transaction_id", self.payme_transaction_id.as_str()) {
            Ok(text) => Ok(text),
            Err(_) => Err(ConnectorError::ResponseHandlingFailed),
        }
    }
}

/// The mandate reference on record, if the record holds a transaction.
pub open spec fn mandate_on_record(
    response: Result<PaymentsResponseData, ErrorResponse>,
) -> Option<MandateReference> {
    match response {
        Ok(PaymentsResponseData::TransactionResponse { mandate_reference, .. }) => mandate_reference,
        _ => None,
    }
}

/// The gateway metadata on record, if the record holds a transaction.
pub open spec fn metadata_on_record(
    response: Result<PaymentsResponseData, ErrorResponse>,
) -> Option<String> {
    match response {
        Ok(PaymentsResponseData::TransactionResponse { connector_metadata, .. }) => connector_metadata,
        _ => None,
    }
}

/// The redirection on record, if the record holds a transaction.
pub open spec fn redirection_on_record(
    response: Result<PaymentsResponseData, ErrorResponse>,
) -> Option<String> {
    match response {
        Ok(PaymentsResponseData::TransactionResponse { redirection_data, .. }) => redirection_data,
        _ => None,
    }
}

/// The network transaction id on record, if the record holds a transaction.
pub open spec fn network_txn_id_on_record(
    response: Result<PaymentsResponseData, ErrorResponse>,
) -> Option<String> {
    match response {
        Ok(PaymentsResponseData::TransactionResponse { network_txn_id, .. }) => network_txn_id,
        _ => None,
    }
}

/// The gateway's own reference on record, if the record holds a transaction.
pub open spec fn response_reference_on_record(
    response: Result<PaymentsResponseData, ErrorResponse>,
) -> Option<String> {
    match response {
        Ok(
            PaymentsResponseData::TransactionResponse { connector_response_reference_id, .. },
        ) => connector_response_reference_id,
        _ => None,
    }
}

/// The mandate reference that a buyer's token stands for.
pub open spec fn mandate_of_token(token: Secret<String>) -> MandateReference {
    MandateReference { connector_mandate_id: Some(token.exposed()), payment_method_id: None }
}

/// The transaction that a record holds after an update: the new resource id,
/// the token and the metadata where the update brings them, and for the rest
/// what was on record before.
pub open spec fn merged_response(
    previous: Result<PaymentsResponseData, ErrorResponse>,
    resource_id: String,
    token: Option<Secret<String>>,
    metadata: Option<String>,
) -> PaymentsResponseData {
    PaymentsResponseData::TransactionResponse {
        resource_id: ResponseId::ConnectorTransactionId(resource_id),
        redirection_data: redirection_on_record(previous),
        mandate_reference: match token {
            Some(token) => Some(mandate_of_token(token)),
            None => mandate_on_record(previous),
        },
        connector_metadata: match metadata {
            Some(metadata) => Some(metadata),
            None => metadata_on_record(previous),
        },
        network_txn_id: network_txn_id_on_record(previous),
        connector_response_reference_id: response_reference_on_record(previous),
    }
}

/// The record after an update: the canonical status of the gateway status,
/// the merged transaction, and every other field as it was.
pub open spec fn merged_record<T>(
    previous: RouterData<T, PaymentsResponseData>,
    raw_status: SaleStatus,
    resource_id: String,
    token: Option<Secret<String>>,
    metadata: Option<String>,
) -> RouterData<T, PaymentsResponseData> {
    RouterData {
        status: attempt_status_of(raw_status),
        response: Ok(merged_response(previous.response, resource_id, token, metadata)),
        ..previous
    }
}

/// `record` is `previous` after the update in `envelope`. Where the envelope
/// carries a transaction id, the metadata on the record is the JSON text
/// written for it.
pub open spec fn is_merge_of<T>(
    previous: RouterData<T, PaymentsResponseData>,
    envelope: RawEnvelope,
    record: RouterData<T, PaymentsResponseData>,
) -> bool {
    match envelope.secondary_id {
        None => record == merged_record(
            previous,
            envelope.raw_status,
            envelope.resource_id,
            envelope.token,
            None,
        ),
        Some(transaction_id) => {
            &&& metadata_on_record(record.response) matches Some(text)
            &&& text@ == json_object_text(metadata_key(), transaction_id@)
            &&& record == merged_record(
                previous,
                envelope.raw_status,
                envelope.resource_id,
                envelope.token,
                Some(text),
            )
        },
    }
}

/// `result` is what comes of applying `envelope` to `previous`: the merged
/// record, and never a failure.
pub open spec fn is_merge_outcome<T>(
    previous: RouterData<T, PaymentsResponseData>,
    envelope: RawEnvelope,
    result: Result<RouterData<T, PaymentsResponseData>, ConnectorError>,
) -> bool {
    result matches Ok(record) && is_merge_of(previous, envelope, record)
}

impl<T> RouterData<T, PaymentsResponseData> {
    /// Applies an update whose metadata, if it has any, is already written:
    /// status and resource id are set, token and metadata are set where they
    /// are given, and nothing else changes.
    pub fn merge_encoded(
        previous: Self,
        raw_status: SaleStatus,
        resource_id: String,
        token: Option<Secret<String>>,
        metadata: Option<String>,
    ) -> (record: Self)
        ensures
            record == merged_record(previous, raw_status, resource_id, token, metadata),
    {
        let mut record = previous;
        let (redirection_data, mandate_on_record, metadata_on_record, network_txn_id, reference) =
            match record.response {
            Ok(
                PaymentsResponseData::TransactionResponse {
                    redirection_data,
                    mandate_reference,
                    connector_metadata,
                    network_txn_id,
                    connector_response_reference_id,
                    ..
                },
            ) => (
                redirection_data,
                mandate_reference,
                connector_metadata,
                network_txn_id,
                connector_response_reference_id,
            ),
            _ => (None, None, None, None, None),
        };
        let mandate_reference = match token {
            Some(token) => Some(
                MandateReference {
                    connector_mandate_id: Some(token.expose()),
                    payment_method_id: None,
                },
            ),
            None => mandate_on_record,
        };
        let connector_metadata = match metadata {
            Some(metadata) => Some(metadata),
            None => metadata_on_record,
        };
        record.status = raw_status.to_attempt_status();
        record.response = Ok(
            PaymentsResponseData::TransactionResponse {
                resource_id: ResponseId::ConnectorTransactionId(resource_id),
                redirection_data,
                mandate_reference,
                connector_metadata,
                network_txn_id,
                connector_response_reference_id: reference,
            },
        );
        record
    }

    /// Applies an update once the JSON writer has spoken: `written` is what
    /// it gave for the envelope's transaction id, and is not looked at where
    /// the envelope has none. A failure of the writer, whatever it says, is
    /// a failure of response handling, and the metadata is never left out.
    pub fn merge_written(
        previous: Self,
        envelope: RawEnvelope,
        written: Result<String, ConnectorError>,
    ) -> (result: Result<Self, ConnectorError>)
        ensures
            result == match envelope.secondary_id {
                None => Ok::<Self, ConnectorError>(
                    merged_record(
                        previous,
                        envelope.raw_status,
                        envelope.resource_id,
                        envelope.token,
                        None,
                    ),
                ),
                Some(_) => match written {
                    Ok(text) => Ok::<Self, ConnectorError>(
                        merged_record(
                            previous,
                            envelope.raw_status,
                            envelope.resource_id,
                            envelope.token,
                            Some(text),
                        ),
                    ),
                    Err(_) => Err::<Self, ConnectorError>(ConnectorError::ResponseHandlingFailed),
                },
            },
    {
        let metadata = match envelope.secondary_id {
            None => None,
            Some(_) => match written {
                Ok(text) => Some(text),
                Err(_) => { return Err(ConnectorError::ResponseHandlingFailed); },
            },
        };
        Ok(
            Self::merge_encoded(
                previous,
                envelope.raw_status,
                envelope.resource_id,
                envelope.token,
                metadata,
            ),
        )
    }

    /// Applies the update in `envelope` to the record: sets status and
    /// resource id, sets the mandate reference where the envelope carries a
    /// token, writes the metadata where it carries a transaction id, and
    /// keeps every other field. The metadata of a transaction id can always
    /// be written, so the update succeeds on every record and envelope.
    pub fn merge(previous: Self, envelope: RawEnvelope) -> (result: Result<Self, ConnectorError>)
        ensures
            is_merge_outcome(previous, envelope, result),
    {
        let written = match &envelope.secondary_id {
            Some(transaction_id) => {
                let metadata = PaymeMetadata { payme_transaction_id: transaction_id.clone() };
                metadata.to_json()
            },
            None => Err(ConnectorError::ResponseHandlingFailed),
        };
        Self::merge_written(previous, envelope, written)
    }
}

impl<T> RouterData<T, PaymentsResponseData> {
    /// Updates the record from a payment reply or a webhook push brought
    /// into that shape. This is the one path on which a buyer's token reaches
    /// the record.
    pub fn try_from_pay_sale_response(
        item: ResponseRouterData<PaymePaySaleResponse, T, PaymentsResponseData>,
    ) -> (result: Result<Self, ConnectorError>)
        ensures
            is_merge_outcome(item.data, pay_sale_envelope(item.response), result),
    {
        let envelope = item.response.into_envelope();
        Self::merge(item.data, envelope)
    }

    /// Updates the record from a sale query reply: status and resource id
    /// come from the first sale, and the mandate reference and the metadata
    /// stay as they were on record. A reply without sales fails.
    pub fn try_from_sale_query_response(
        item: ResponseRouterData<SaleQueryResponse, T, PaymentsResponseData>,
    ) -> (result: Result<Self, ConnectorError>)
        ensures
            result == match sale_query_envelope(item.response.items@) {
                Some(envelope) => Ok::<Self, ConnectorError>(
                    merged_record(
                        item.data,
                        envelope.raw_status,
                        envelope.resource_id,
                        None,
                        None,
                    ),
                ),
                None => Err::<Self, ConnectorError>(ConnectorError::ResponseHandlingFailed),
            },
    {
        match item.response.into_envelope() {
            Ok(envelope) => Ok(
                Self::merge_encoded(
                    item.data,
                    envelope.raw_status,
                    envelope.resource_id,
                    None,
                    None,
                ),
            ),
            Err(error) => Err(error),
        }
    }

    /// Updates the record from a payment reply in either shape.
    pub fn try_from_payments_response(
        item: ResponseRouterData<PaymePaymentsResponse, T, PaymentsResponseData>,
    ) -> (result: Result<Self, ConnectorError>)
        ensures
            match payments_envelope(item.response) {
                Some(envelope) => is_merge_outcome(item.data, envelope, result),
                None => result == Err::<Self, ConnectorError>(
                    ConnectorError::ResponseHandlingFailed,
                ),
            },
    {
        match item.response {
            PaymePaymentsResponse::PaymePaySaleResponse(response) => {
                Self::try_from_pay_sale_response(
                    ResponseRouterData { response, data: item.data, http_code: item.http_code },
                )
            },
            PaymePaymentsResponse::SaleQueryResponse(response) => {
                Self::try_from_sale_query_response(
                    ResponseRouterData { response, data: item.data, http_code: item.http_code },
                )
            },
        }
    }
}

/// The record of a refund after a reply: the gateway's refund id and the
/// canonical refund status, and every other field as it was.
pub open spec fn refunded_record<T>(
    previous: RouterData<T, RefundsResponseData>,
    refund_status: RefundStatus,
    connector_refund_id: String,
) -> RouterData<T, RefundsResponseData> {
    RouterData {
        response: Ok(RefundsResponseData { connector_refund_id, refund_status }),
        ..previous
    }
}

/// What comes of a refund reply: the updated record, or a failure of
/// response handling where the gateway status means nothing for a refund.
pub open spec fn refund_outcome<T>(
    previous: RouterData<T, RefundsResponseData>,
    raw_status: SaleStatus,
    transaction_id: String,
) -> Result<RouterData<T, RefundsResponseData>, ConnectorError> {
    match refund_status_of(raw_status) {
        Some(refund_status) => Ok(refunded_record(previous, refund_status, transaction_id)),
        None => Err(ConnectorError::ResponseHandlingFailed),
    }
}

/// What comes of a transaction query reply: the outcome for its first
/// transaction, or a failure of response handling where it has none.
pub open spec fn refund_query_outcome<T>(
    previous: RouterData<T, RefundsResponseData>,
    items: Seq<TransactionQuery>,
) -> Result<RouterData<T, RefundsResponseData>, ConnectorError> {
    if items.len() == 0 {
        Err(ConnectorError::ResponseHandlingFailed)
    } else {
        refund_outcome(previous, items[0].sale_status, items[0].payme_transaction_id)
    }
}

impl<T> RouterData<T, RefundsResponseData> {
    /// Sets refund id and refund status on the record and keeps the rest.
    pub fn merge_refund(previous: Self, raw_status: SaleStatus, transaction_id: String) -> (result:
        Result<Self, ConnectorError>)
        ensures
            result == refund_outcome(previous, raw_status, transaction_id),
    {
        match raw_status.to_refund_status() {
            Ok(refund_status) => {
                let mut record = previous;
                record.response = Ok(
                    RefundsResponseData { connector_refund_id: transaction_id, refund_status },
                );
                Ok(record)
            },
            Err(error) => Err(error),
        }
    }

    /// Updates the record from the reply to a refund.
    pub fn try_from_refund_response(
        item: ResponseRouterData<PaymeRefundResponse, T, RefundsResponseData>,
    ) -> (result: Result<Self, ConnectorError>)
        ensures
            result == refund_outcome(
                item.data,
                item.response.sale_status,
                item.response.payme_transaction_id,
            ),
    {
        Self::merge_refund(item.data, item.response.sale_status, item.response.payme_transaction_id)
    }

    /// Updates the record from a transaction query reply, or a webhook push
    /// brought into that shape, by its first transaction.
    pub fn try_from_query_transaction_response(
        item: ResponseRouterData<PaymeQueryTransactionResponse, T, RefundsResponseData>,
    ) -> (result: Result<Self, ConnectorError>)
        ensures
            result == refund_query_outcome(item.data, item.response.items@),
    {
        if item.response.items.len() == 0 {
            Err(ConnectorError::ResponseHandlingFailed)
        } else {
            let raw_status = item.response.items[0].sale_status;
            let transaction_id = item.response.items[0].payme_transaction_id.clone();
            Self::merge_refund(item.data, raw_status, transaction_id)
        }
    }
}

/// What a webhook push is about.
#[derive(Clone, Copy, Debug, PartialEq, Eq, Structural)]
pub enum NotifyType {
    SaleComplete,
    SaleAuthorized,
    Refund,
    SaleFailure,
    SaleChargeback,
    SaleChargebackRefund,
}

/// Body of a webhook push.
#[derive(Clone, PartialEq, Eq)]
pub struct WebhookEventDataResource {
    pub sale_status: SaleStatus,
    pub payme_signature: Secret<String>,
    pub buyer_key: Option<Secret<String>>,
    pub notify_type: NotifyType,
    pub payme_sale_id: String,
    pub payme_transaction_id: String,
}

/// The part of a webhook body that tells what it is about.
#[derive(Clone, Copy, Debug, PartialEq, Eq, Structural)]
pub struct WebhookEventDataResourceEvent {
    pub notify_type: NotifyType,
}

/// The part of a webhook body that holds its signature.
#[derive(Clone, PartialEq, Eq)]
pub struct WebhookEventDataResourceSignature {
    pub payme_signature: Secret<String>,
}

/// The shared event that each kind of push stands for. Pushes about
/// authorisations and chargebacks are not acted on.
pub open spec fn webhook_event_of(notify_type: NotifyType) -> IncomingWebhookEvent {
    match notify_type {
        NotifyType::SaleComplete => IncomingWebhookEvent::PaymentIntentSuccess,
        NotifyType::Refund => IncomingWebhookEvent::RefundSuccess,
        NotifyType::SaleFailure => IncomingWebhookEvent::PaymentIntentFailure,
        _ => IncomingWebhookEvent::EventNotSupported,
    }
}

impl From<NotifyType> for IncomingWebhookEvent {
    fn from(value: NotifyType) -> (event: Self) {
        match value {
            NotifyType::SaleComplete => IncomingWebhookEvent::PaymentIntentSuccess,
            NotifyType::Refund => IncomingWebhookEvent::RefundSuccess,
            NotifyType::SaleFailure => IncomingWebhookEvent::PaymentIntentFailure,
            NotifyType::SaleAuthorized
            | NotifyType::SaleChargeback
            | NotifyType::SaleChargebackRefund => IncomingWebhookEvent::EventNotSupported,
        }
    }
}

impl FromSpecImpl<NotifyType> for IncomingWebhookEvent {
    open spec fn obeys_from_spec() -> bool {
        true
    }

    open spec fn from_spec(value: NotifyType) -> Self {
        webhook_event_of(value)
    }
}

/// A webhook push in the shape of a payment reply: status, sale id,
/// transaction id and buyer's token are taken over as they are.
pub open spec fn webhook_as_pay_sale(value: WebhookEventDataResource) -> PaymePaySaleResponse {
    PaymePaySaleResponse {
        sale_status: value.sale_status,
        payme_sale_id: value.payme_sale_id,
        payme_transaction_id: value.payme_transaction_id,
        buyer_key: value.buyer_key,
    }
}

/// A webhook push as the one transaction of a transaction query reply.
pub open spec fn webhook_as_transaction(value: WebhookEventDataResource) -> TransactionQuery {
    TransactionQuery {
        sale_status: value.sale_status,
        payme_transaction_id: value.payme_transaction_id,
    }
}

impl From<WebhookEventDataResource> for PaymePaySaleResponse {
    fn from(value: WebhookEventDataResource) -> (response: Self) {
        PaymePaySaleResponse {
            sale_status: value.sale_status,
            payme_sale_id: value.payme_sale_id,
            payme_transaction_id: value.payme_transaction_id,
            buyer_key: value.buyer_key,
        }
    }
}

impl FromSpecImpl<WebhookEventDataResource> for PaymePaySaleResponse {
    open spec fn obeys_from_spec() -> bool {
        true
    }

    open spec fn from_spec(value: WebhookEventDataResource) -> Self {
        webhook_as_pay_sale(value)
    }
}

impl PaymeQueryTransactionResponse {
    /// Brings a webhook push into the shape of a transaction query reply
    /// with one transaction.
    pub fn from_webhook(value: WebhookEventDataResource) -> (response: Self)
        ensures
            response.items@ == seq![webhook_as_transaction(value)],
    {
        let item = TransactionQuery {
            sale_status: value.sale_status,
            payme_transaction_id: value.payme_transaction_id,
        };
        let mut items: Vec<TransactionQuery> = Vec::new();
        items.push(item);
        assert(items@ =~= seq![webhook_as_transaction(value)]);
        PaymeQueryTransactionResponse { items }
    }
}

/// A webhook push brought into the shape of a payment reply says what the
/// push said: its envelope has the push's status, sale id and transaction id,
/// and the buyer's token where the push has one.
pub proof fn lemma_webhook_keeps_its_envelope(value: WebhookEventDataResource)
    ensures
        pay_sale_envelope(webhook_as_pay_sale(value)) == (RawEnvelope {
            raw_status: value.sale_status,
            resource_id: value.payme_sale_id,
            secondary_id: Some(value.payme_transaction_id),
            token: value.buyer_key,
        }),
{
}

/// A sale query reply never carries a token or a transaction id, and an
/// update without them leaves the mandate reference and the metadata on the
/// record as they were: a token reaches the record by a webhook push alone.
pub proof fn lemma_query_keeps_mandate_and_metadata<T>(
    previous: RouterData<T, PaymentsResponseData>,
    items: Seq<SaleQuery>,
)
    requires
        items.len() > 0,
    ensures
        sale_query_envelope(items) matches Some(envelope) && envelope.token is None
            && envelope.secondary_id is None && ({
            let record = merged_record(
                previous,
                envelope.raw_status,
                envelope.resource_id,
                envelope.token,
                None,
            );
            &&& mandate_on_record(record.response) == mandate_on_record(previous.response)
            &&& metadata_on_record(record.response) == metadata_on_record(previous.response)
        }),
{
}

/// An update overrides status, resource id and, where it brings them, token
/// and metadata; whatever else the record held, it still holds.
pub proof fn lemma_merge_keeps_untouched_fields<T>(
    previous: RouterData<T, PaymentsResponseData>,
    raw_status: SaleStatus,
    resource_id: String,
    token: Option<Secret<String>>,
    metadata: Option<String>,
)
    ensures
        ({
            let record = merged_record(previous, raw_status, resource_id, token, metadata);
            &&& record.merchant_id == previous.merchant_id
            &&& record.payment_id == previous.payment_id
            &&& record.attempt_id == previous.attempt_id
            &&& record.connector == previous.connector
            &&& record.connector_request_reference_id == previous.connector_request_reference_id
            &&& record.request == previous.request
            &&& record.status == attempt_status_of(raw_status)
            &&& token is None ==> mandate_on_record(record.response) == mandate_on_record(
                previous.response,
            )
            &&& token matches Some(t) ==> mandate_on_record(record.response) == Some(
                mandate_of_token(t),
            )
            &&& metadata is None ==> metadata_on_record(record.response) == metadata_on_record(
                previous.response,
            )
            &&& metadata is Some ==> metadata_on_record(record.response) == metadata
            &&& redirection_on_record(record.response) == redirection_on_record(previous.response)
            &&& network_txn_id_on_record(record.response) == network_txn_id_on_record(
                previous.response,
            )
            &&& response_reference_on_record(record.response) == response_reference_on_record(
                previous.response,
            )
        }),
{
}

/// An update that arrives twice does what it did the first time and nothing
/// more: applying it to the record that it already made leaves that record.
pub proof fn lemma_merge_is_idempotent<T>(
    previous: RouterData<T, PaymentsResponseData>,
    raw_status: SaleStatus,
    resource_id: String,
    token: Option<Secret<String>>,
    metadata: Option<String>,
)
    ensures
        merged_record(
            merged_record(previous, raw_status, resource_id, token, metadata),
            raw_status,
            resource_id,
            token,
            metadata,
        ) == merged_record(previous, raw_status, resource_id, token, metadata),
{
}

/// A query reply without elements is a failure and never "nothing new":
/// no envelope comes of an empty sale query, and no record of an empty
/// transaction query.
pub proof fn lemma_empty_reply_fails<T>(previous: RouterData<T, RefundsResponseData>)
    ensures
        sale_query_envelope(Seq::<SaleQuery>::empty()) is None,
        refund_query_outcome(previous, Seq::<TransactionQuery>::empty()) == Err::<
            RouterData<T, RefundsResponseData>,
            ConnectorError,
        >(ConnectorError::ResponseHandlingFailed),
{
}

/// The record that comes of a sale query reply has the canonical status and
/// the id of the first sale, whatever sales follow it.
pub proof fn lemma_first_sale_decides_the_record<T>(
    previous: RouterData<T, PaymentsResponseData>,
    items: Seq<SaleQuery>,
)
    requires
        items.len() > 0,
    ensures
        sale_query_envelope(items) matches Some(envelope) && ({
            let record = merged_record(
                previous,
                envelope.raw_status,
                envelope.resource_id,
                None,
                None,
            );
            &&& record.status == attempt_status_of(items[0].sale_status)
            &&& record.response == Ok::<PaymentsResponseData, ErrorResponse>(
                merged_response(previous.response, items[0].sale_payme_id, None, None),
            )
            &&& record == merged_record(
                previous,
                items[0].sale_status,
                items[0].sale_payme_id,
                None,
                None,
            )
        }),
{
}

/// A transaction query reply is read by its first transaction alone: two
/// replies that begin with the same transaction come to the same, which is
/// what a refund reply with that status and transaction id comes to.
pub proof fn lemma_only_first_transaction_counts<T>(
    previous: RouterData<T, RefundsResponseData>,
    first: Seq<TransactionQuery>,
    second: Seq<TransactionQuery>,
)
    requires
        first.len() > 0,
        second.len() > 0,
        first[0] == second[0],
    ensures
        refund_query_outcome(previous, first) == refund_query_outcome(previous, second),
        refund_query_outcome(previous, first) == refund_outcome(
            previous,
            first[0].sale_status,
            first[0].payme_transaction_id,
        ),
{
}

/// A webhook push brought into the shape of a transaction query reply is a
/// reply with one transaction, which has the push's status and its
/// transaction id, not its sale id. So a push never meets the failure of an
/// empty reply.
pub proof fn lemma_push_is_a_reply_of_one_transaction<T>(
    previous: RouterData<T, RefundsResponseData>,
    value: WebhookEventDataResource,
)
    ensures
        seq![webhook_as_transaction(value)].len() == 1,
        webhook_as_transaction(value).sale_status == value.sale_status,
        webhook_as_transaction(value).payme_transaction_id == value.payme_transaction_id,
        refund_query_outcome(previous, seq![webhook_as_transaction(value)]) == refund_outcome(
            previous,
            value.sale_status,
            value.payme_transaction_id,
        ),
{
}

} // verus!
