use vstd::prelude::*;
use crate::enums::{
    AttemptStatus, AuthenticationType, CaptureMethod, Currency, DisputeStatus, PaymentMethod,
    RefundStatus,
};
use vstd::string::*;
use crate::errors::{
    agrees, missing_field, missing_field_err, required, ConnectorError, ConnectorErrorView,
};

verus! {

/// A value that must not show up in logs or debug output. It is read only
/// through `expose` and `peek`.
#[derive(PartialEq, Eq)]
pub struct Secret<T> {
    inner: T,
}

impl<T> Secret<T> {
    /// The value that is kept from view.
    pub closed spec fn exposed(&self) -> T {
        self.inner
    }

    /// The secret that keeps `value` from view.
    pub closed spec fn of(value: T) -> Self {
        Secret { inner: value }
    }

    /// Wraps a value.
    pub fn new(value: T) -> (secret: Self)
        ensures
            secret == Self::of(value),
            secret.exposed() == value,
    {
        Secret { inner: value }
    }

    /// Gives the value up.
    pub fn expose(self) -> (value: T)
        ensures
            value == self.exposed(),
    {
        self.inner
    }

    /// Looks at the value without giving it up.
    pub fn peek(&self) -> (value: &T)
        ensures
            *value == self.exposed(),
    {
        &self.inner
    }
}

impl Clone for Secret<String> {
    fn clone(&self) -> (copy: Self)
        ensures
            copy == *self,
    {
        Secret { inner: self.inner.clone() }
    }
}

/// The gateway's handle on a payment.
#[derive(Clone, Debug, PartialEq, Eq)]
pub enum ResponseId {
    ConnectorTransactionId(String),
    EncodedData(String),
    NoResponseId,
}

/// A saved-credential handle that lets a later payment go through without
/// the payment details being collected again.
#[derive(Clone, Debug, PartialEq, Eq)]
pub struct MandateReference {
    pub connector_mandate_id: Option<String>,
    pub payment_method_id: Option<String>,
}

/// What a successful payment call leaves on the record.
#[derive(Clone, Debug, PartialEq, Eq)]
pub enum PaymentsResponseData {
    TransactionResponse {
        resource_id: ResponseId,
        redirection_data: Option<String>,
        mandate_reference: Option<MandateReference>,
        /// Gateway data kept for later calls, as JSON text.
        connector_metadata: Option<String>,
        network_txn_id: Option<String>,
        connector_response_reference_id: Option<String>,
    },
    SessionTokenResponse { session_token: String },
}

/// What a successful refund call leaves on the record.
#[derive(Clone, Debug, PartialEq, Eq)]
pub struct RefundsResponseData {
    pub connector_refund_id: String,
    pub refund_status: RefundStatus,
}

/// What a failed call leaves on the record.
#[derive(Clone, Debug, PartialEq, Eq)]
pub struct ErrorResponse {
    pub code: String,
    pub message: String,
    pub reason: Option<String>,
    pub status_code: u16,
}

/// The credentials a merchant holds with a gateway, in the shapes that
/// gateways ask for.
#[derive(PartialEq, Eq)]
pub enum ConnectorAuthType {
    HeaderKey { api_key: Secret<String> },
    BodyKey { api_key: Secret<String>, key1: Secret<String> },
    SignatureKey { api_key: Secret<String>, key1: Secret<String>, api_secret: Secret<String> },
    NoKey,
}

impl Clone for ConnectorAuthType {
    fn clone(&self) -> (copy: Self)
        ensures
            copy == *self,
    {
        match self {
            ConnectorAuthType::HeaderKey { api_key } => ConnectorAuthType::HeaderKey {
                api_key: api_key.clone(),
            },
            ConnectorAuthType::BodyKey { api_key, key1 } => ConnectorAuthType::BodyKey {
                api_key: api_key.clone(),
                key1: key1.clone(),
            },
            ConnectorAuthType::SignatureKey {
                api_key,
                key1,
                api_secret,
            } => ConnectorAuthType::SignatureKey {
                api_key: api_key.clone(),
                key1: key1.clone(),
                api_secret: api_secret.clone(),
            },
            ConnectorAuthType::NoKey => ConnectorAuthType::NoKey,
        }
    }
}

/// A postal address with the name it belongs to. The country is held by its
/// two-letter code.
#[derive(Clone, PartialEq, Eq)]
pub struct AddressDetails {
    pub city: Option<String>,
    pub country: Option<String>,
    pub line1: Option<Secret<String>>,
    pub line2: Option<Secret<String>>,
    pub line3: Option<Secret<String>>,
    pub zip: Option<Secret<String>>,
    pub state: Option<Secret<String>>,
    pub first_name: Option<Secret<String>>,
    pub last_name: Option<Secret<String>>,
}

/// A telephone number with its country's calling code.
#[derive(Clone, PartialEq, Eq)]
pub struct PhoneDetails {
    pub number: Option<Secret<String>>,
    pub country_code: Option<String>,
}

/// An address as a customer gives it.
#[derive(Clone, PartialEq, Eq)]
pub struct Address {
    pub address: Option<AddressDetails>,
    pub phone: Option<PhoneDetails>,
}

/// Where the money of a payout goes.
#[derive(PartialEq, Eq)]
pub enum PayoutMethodData {
    Card { card_number: Secret<String>, expiry_month: Secret<String>, expiry_year: Secret<String> },
    Bank { iban: Secret<String>, bic: Option<Secret<String>> },
}

impl Clone for PayoutMethodData {
    fn clone(&self) -> (copy: Self)
        ensures
            copy == *self,
    {
        match self {
            PayoutMethodData::Card {
                card_number,
                expiry_month,
                expiry_year,
            } => PayoutMethodData::Card {
                card_number: card_number.clone(),
                expiry_month: expiry_month.clone(),
                expiry_year: expiry_year.clone(),
            },
            PayoutMethodData::Bank { iban, bic } => PayoutMethodData::Bank {
                iban: iban.clone(),
                bic: bic.clone(),
            },
        }
    }
}

/// The addresses that go with a payment.
#[derive(Clone, PartialEq, Eq)]
pub struct PaymentAddress {
    pub shipping: Option<Address>,
    pub billing: Option<Address>,
}

/// The record of one payment, refund or dispute call across its lifetime:
/// who it belongs to, where it stands, what was asked and what came back.
/// The caller stores it; the functions here only transform it.
#[derive(PartialEq, Eq)]
pub struct RouterData<Request, Response> {
    pub merchant_id: String,
    pub customer_id: Option<String>,
    pub connector_customer: Option<String>,
    pub connector: String,
    pub payment_id: String,
    pub attempt_id: String,
    pub status: AttemptStatus,
    pub payment_method: PaymentMethod,
    pub connector_auth_type: ConnectorAuthType,
    pub description: Option<String>,
    pub return_url: Option<String>,
    pub address: PaymentAddress,
    pub auth_type: AuthenticationType,
    pub connector_meta_data: Option<String>,
    pub amount_captured: Option<i64>,
    pub session_token: Option<String>,
    pub reference_id: Option<String>,
    pub payment_method_token: Option<String>,
    pub preprocessing_id: Option<String>,
    pub payment_method_id: Option<String>,
    pub connector_request_reference_id: String,
    pub payout_method_data: Option<PayoutMethodData>,
    pub quote_id: Option<String>,
    pub test_mode: Option<bool>,
    pub request: Request,
    pub response: Result<Response, ErrorResponse>,
}

/// A gateway reply together with the record it answers.
#[derive(PartialEq, Eq)]
pub struct ResponseRouterData<R, Request, Response> {
    pub response: R,
    pub data: RouterData<Request, Response>,
    pub http_code: u16,
}

/// The stored attempt of a payment, as far as the flows here read it.
#[derive(Clone, Debug, PartialEq, Eq)]
pub struct PaymentAttempt {
    pub payment_id: String,
    pub merchant_id: String,
    pub attempt_id: String,
    pub status: AttemptStatus,
    pub payment_method: Option<PaymentMethod>,
    pub payment_method_id: Option<String>,
    pub authentication_type: Option<AuthenticationType>,
    pub connector_metadata: Option<String>,
    pub business_sub_label: Option<String>,
}

/// Merchants whose payment id, not attempt id, is sent to gateways as the
/// request reference.
#[derive(Clone, Debug, PartialEq, Eq)]
pub struct ConnectorRequestReferenceIdConfig {
    pub merchant_ids_send_payment_id_as_connector_request_id: Vec<String>,
}

/// The part of the service's settings that the flows here read.
#[derive(Clone, Debug, PartialEq, Eq)]
pub struct Settings {
    pub connector_request_reference_id_config: ConnectorRequestReferenceIdConfig,
}

/// A payment card as the customer entered it.
#[derive(Clone, PartialEq, Eq)]
pub struct Card {
    pub card_number: Secret<String>,
    pub card_exp_month: Secret<String>,
    pub card_exp_year: Secret<String>,
    pub card_holder_name: Secret<String>,
    pub card_cvc: Secret<String>,
}

/// The instrument a payment is made with. Only a card carries data that the
/// flows here read.
#[derive(Clone, PartialEq, Eq)]
pub enum PaymentMethodData {
    Card(Card),
    Wallet,
    PayLater,
    BankRedirect,
    BankDebit,
    BankTransfer,
    Crypto,
    MandatePayment,
    Reward,
    GiftCard,
    CardRedirect,
    Upi,
    Voucher,
}

/// The customer's consent to later payments, given with a first one.
#[derive(Clone, Copy, Debug, PartialEq, Eq, Structural)]
pub struct MandateData {
    pub single_use: bool,
}

/// The mandate that a payment is made under.
#[derive(Clone, Debug, PartialEq, Eq)]
pub struct MandateIds {
    pub mandate_id: String,
    pub connector_mandate_id: Option<String>,
}

/// One line of an order.
#[derive(Clone, Debug, PartialEq, Eq)]
pub struct OrderDetailsWithAmount {
    pub product_name: String,
    pub quantity: u16,
    pub amount: i64,
}

/// What is asked of the gateway when a payment is authorised.
#[derive(Clone, PartialEq, Eq)]
pub struct PaymentsAuthorizeData {
    pub payment_method_data: PaymentMethodData,
    pub amount: i64,
    pub currency: Currency,
    pub email: Option<Secret<String>>,
    pub capture_method: Option<CaptureMethod>,
    pub setup_mandate_details: Option<MandateData>,
    pub mandate_id: Option<MandateIds>,
    pub order_details: Option<Vec<OrderDetailsWithAmount>>,
    pub router_return_url: Option<String>,
    pub webhook_url: Option<String>,
    pub related_transaction_id: Option<String>,
}

/// What is asked of the gateway when a payment is looked up.
#[derive(Clone, Debug, PartialEq, Eq)]
pub struct PaymentsSyncData {
    pub connector_transaction_id: ResponseId,
    pub capture_method: Option<CaptureMethod>,
}

/// What is asked of the gateway when an authorised payment is captured.
#[derive(Clone, Debug, PartialEq, Eq)]
pub struct PaymentsCaptureData {
    pub amount_to_capture: i64,
    pub currency: Currency,
    pub connector_transaction_id: String,
    pub payment_amount: i64,
}

/// What is asked of the gateway when a payment is refunded or a refund is
/// looked up.
#[derive(Clone, Debug, PartialEq, Eq)]
pub struct RefundsData {
    pub refund_id: String,
    pub connector_transaction_id: String,
    pub connector_refund_id: Option<String>,
    pub currency: Currency,
    pub payment_amount: i64,
    pub reason: Option<String>,
    pub webhook_url: Option<String>,
    pub refund_amount: i64,
    pub connector_metadata: Option<String>,
}

pub type PaymentsAuthorizeRouterData = RouterData<PaymentsAuthorizeData, PaymentsResponseData>;

pub type PaymentsInitRouterData = RouterData<PaymentsAuthorizeData, PaymentsResponseData>;

pub type PaymentsSyncRouterData = RouterData<PaymentsSyncData, PaymentsResponseData>;

pub type PaymentsCaptureRouterData = RouterData<PaymentsCaptureData, PaymentsResponseData>;

pub type RefundsRouterData = RouterData<RefundsData, RefundsResponseData>;

/// The name of the first product of an order, where there is one.
pub open spec fn first_product_name(
    order_details: Option<Vec<OrderDetailsWithAmount>>,
) -> Option<String> {
    match order_details {
        Some(lines) => if lines@.len() > 0 {
            Some(lines@[0].product_name)
        } else {
            None
        },
        None => None,
    }
}

/// Whether funds are captured with the authorisation (`Some(true)`), by a
/// later call (`Some(false)`), or in a way that is not offered (`None`).
pub open spec fn auto_capture(capture_method: Option<CaptureMethod>) -> Option<bool> {
    match capture_method {
        None => Some(true),
        Some(CaptureMethod::Automatic) => Some(true),
        Some(CaptureMethod::Manual) => Some(false),
        Some(_) => None,
    }
}

/// The gateway's id of the mandate that a payment is made under.
pub open spec fn connector_mandate_id(mandate_id: Option<MandateIds>) -> Option<String> {
    match mandate_id {
        Some(ids) => ids.connector_mandate_id,
        None => None,
    }
}

impl PaymentsAuthorizeData {
    /// The name of the first product of the order.
    pub fn get_first_product_name(&self) -> (result: Result<String, ConnectorError>)
        ensures
            agrees(result, required(first_product_name(self.order_details), "order_details"@)),
    {
        match &self.order_details {
            Some(lines) => {
                if lines.len() > 0 {
                    Ok(lines[0].product_name.clone())
                } else {
                    Err(missing_field_err("order_details"))
                }
            },
            None => Err(missing_field_err("order_details")),
        }
    }

    /// The address the customer comes back to.
    pub fn get_return_url(&self) -> (result: Result<String, ConnectorError>)
        ensures
            agrees(result, required(self.router_return_url, "return_url"@)),
    {
        match &self.router_return_url {
            Some(url) => Ok(url.clone()),
            None => Err(missing_field_err("return_url")),
        }
    }

    /// The address the gateway pushes its webhooks to.
    pub fn get_webhook_url(&self) -> (result: Result<String, ConnectorError>)
        ensures
            agrees(result, required(self.webhook_url, "webhook_url"@)),
    {
        match &self.webhook_url {
            Some(url) => Ok(url.clone()),
            None => Err(missing_field_err("webhook_url")),
        }
    }

    /// The customer's e-mail address.
    pub fn get_email(&self) -> (result: Result<Secret<String>, ConnectorError>)
        ensures
            agrees(result, required(self.email, "email"@)),
    {
        match &self.email {
            Some(email) => Ok(email.clone()),
            None => Err(missing_field_err("email")),
        }
    }

    /// The gateway's id of the mandate that the payment is made under.
    pub fn get_connector_mandate_id(&self) -> (result: Result<String, ConnectorError>)
        ensures
            agrees(result, required(connector_mandate_id(self.mandate_id), "connector_mandate_id"@)),
    {
        match &self.mandate_id {
            Some(ids) => match &ids.connector_mandate_id {
                Some(id) => Ok(id.clone()),
                None => Err(missing_field_err("connector_mandate_id")),
            },
            None => Err(missing_field_err("connector_mandate_id")),
        }
    }

    /// Whether funds are captured with the authorisation.
    pub fn is_auto_capture(&self) -> (result: Result<bool, ConnectorError>)
        ensures
            result == match auto_capture(self.capture_method) {
                Some(auto) => Ok::<bool, ConnectorError>(auto),
                None => Err::<bool, ConnectorError>(ConnectorError::CaptureMethodNotSupported),
            },
    {
        match self.capture_method {
            None => Ok(true),
            Some(CaptureMethod::Automatic) => Ok(true),
            Some(CaptureMethod::Manual) => Ok(false),
            Some(_) => Err(ConnectorError::CaptureMethodNotSupported),
        }
    }
}

/// The gateway's id of the payment that is looked up.
pub open spec fn sync_transaction_id(request: PaymentsSyncData) -> Option<String> {
    match request.connector_transaction_id {
        ResponseId::ConnectorTransactionId(id) => Some(id),
        _ => None,
    }
}

impl PaymentsSyncData {
    /// The gateway's id of the payment that is looked up.
    pub fn get_connector_transaction_id(&self) -> (result: Result<String, ConnectorError>)
        ensures
            agrees(result, required(sync_transaction_id(*self), "connector_transaction_id"@)),
    {
        match &self.connector_transaction_id {
            ResponseId::ConnectorTransactionId(id) => Ok(id.clone()),
            _ => Err(missing_field_err("connector_transaction_id")),
        }
    }
}

/// What `str::trim` leaves of a text: the text without the white space at
/// its two ends, white space being what Unicode calls so.
pub uninterp spec fn trimmed_text(text: Seq<char>) -> Seq<char>;

/// Calls `str::trim` and copies what it leaves.
#[verifier::external_body]
fn trim_text(text: &str) -> (trimmed: String)
    ensures
        trimmed@ == trimmed_text(text@),
{
    text.trim().to_owned()
}

/// The last two characters of a year, where it has that many.
pub open spec fn two_digit_year(year: Seq<char>) -> Option<Seq<char>> {
    if year.len() >= 2 {
        Some(year.subrange(year.len() - 2, year.len() as int))
    } else {
        None
    }
}

/// The expiry of a card as month, delimiter and two-digit year.
pub open spec fn card_expiry(card: Card, delimiter: Seq<char>) -> Option<Seq<char>> {
    match two_digit_year(card.card_exp_year.exposed()@) {
        Some(year) => Some(card.card_exp_month.exposed()@ + delimiter + year),
        None => None,
    }
}

/// `result` holds a secret with the characters of `text`, or, where there
/// is no text, the given error.
pub open spec fn is_secret_text(
    result: Result<Secret<String>, ConnectorError>,
    text: Result<Seq<char>, ConnectorErrorView>,
) -> bool {
    match (result, text) {
        (Ok(secret), Ok(characters)) => secret.exposed()@ == characters,
        (Err(error), Err(expected)) => error@ == expected,
        _ => false,
    }
}

impl Card {
    /// The last two characters of the year of expiry. A year of fewer than
    /// two characters cannot be put into that form.
    pub fn get_card_expiry_year_2_digit(&self) -> (result: Result<Secret<String>, ConnectorError>)
        ensures
            is_secret_text(
                result,
                match two_digit_year(self.card_exp_year.exposed()@) {
                    Some(year) => Ok(year),
                    None => Err(ConnectorErrorView::RequestEncodingFailed),
                },
            ),
    {
        let year = self.card_exp_year.peek().as_str();
        let length = year.unicode_len();
        if length < 2 {
            Err(ConnectorError::RequestEncodingFailed)
        } else {
            let digits = year.substring_char(length - 2, length);
            Ok(Secret::new(String::from_str(digits)))
        }
    }

    /// The expiry as month, delimiter and two-digit year.
    pub fn get_card_expiry_month_year_2_digit_with_delimiter(&self, delimiter: &str) -> (result:
        Result<Secret<String>, ConnectorError>)
        ensures
            is_secret_text(
                result,
                match card_expiry(*self, delimiter@) {
                    Some(expiry) => Ok(expiry),
                    None => Err(ConnectorErrorView::RequestEncodingFailed),
                },
            ),
    {
        match self.get_card_expiry_year_2_digit() {
            Ok(year) => {
                let mut expiry = self.card_exp_month.peek().clone();
                expiry.append(delimiter);
                expiry.append(year.peek().as_str());
                Ok(Secret::new(expiry))
            },
            Err(error) => Err(error),
        }
    }
}

/// The full name on an address: first and last name with a blank between
/// them, trimmed. Both names have to be there.
pub open spec fn full_name(address: AddressDetails) -> Result<Seq<char>, ConnectorErrorView> {
    match address.first_name {
        None => Err(missing_field("address.first_name"@)),
        Some(first_name) => match address.last_name {
            None => Err(missing_field("address.last_name"@)),
            Some(last_name) => Ok(
                trimmed_text(first_name.exposed()@ + " "@ + last_name.exposed()@),
            ),
        },
    }
}

impl AddressDetails {
    /// The full name on the address.
    pub fn get_full_name(&self) -> (result: Result<Secret<String>, ConnectorError>)
        ensures
            is_secret_text(result, full_name(*self)),
    {
        match &self.first_name {
            None => Err(missing_field_err("address.first_name")),
            Some(first_name) => match &self.last_name {
                None => Err(missing_field_err("address.last_name")),
                Some(last_name) => {
                    let mut name = first_name.peek().clone();
                    name.append(" ");
                    name.append(last_name.peek().as_str());
                    Ok(Secret::new(trim_text(name.as_str())))
                },
            },
        }
    }
}

/// The postal part of the billing address, where the record has one.
pub open spec fn billing_address(address: PaymentAddress) -> Option<AddressDetails> {
    match address.billing {
        Some(billing) => billing.address,
        None => None,
    }
}

impl<Request, Response> RouterData<Request, Response> {
    /// The postal part of the billing address.
    pub fn get_billing_address(&self) -> (result: Result<&AddressDetails, ConnectorError>)
        ensures
            match billing_address(self.address) {
                Some(details) => result matches Ok(found) && *found == details,
                None => result matches Err(error) && error@ == missing_field("billing.address"@),
            },
    {
        match &self.address.billing {
            Some(billing) => match &billing.address {
                Some(details) => Ok(details),
                None => Err(missing_field_err("billing.address")),
            },
            None => Err(missing_field_err("billing.address")),
        }
    }
}

/// One line of business of a merchant: the country, by its two-letter code,
/// and the name of the business.
#[derive(Clone, Debug, PartialEq, Eq)]
pub struct PrimaryBusinessDetails {
    pub country: String,
    pub business: String,
}

/// The merchant on whose behalf a flow runs.
#[derive(Clone, Debug, PartialEq, Eq)]
pub struct MerchantAccount {
    pub merchant_id: String,
    pub primary_business_details: Vec<PrimaryBusinessDetails>,
}

/// A merchant's account with one gateway, as fetched and decoded by the
/// caller. The credentials are `None` where what is stored cannot be read as
/// credentials.
#[derive(PartialEq, Eq)]
pub struct MerchantConnectorAccount {
    pub connector_account_details: Option<ConnectorAuthType>,
    pub metadata: Option<String>,
    pub test_mode: Option<bool>,
}

impl Clone for MerchantConnectorAccount {
    fn clone(&self) -> (copy: Self)
        ensures
            copy == *self,
    {
        MerchantConnectorAccount {
            connector_account_details: self.connector_account_details.clone(),
            metadata: self.metadata.clone(),
            test_mode: self.test_mode,
        }
    }
}

/// The stored intent of a payment, as far as the flows here read it.
#[derive(Clone, Debug, PartialEq, Eq)]
pub struct PaymentIntent {
    pub customer_id: Option<String>,
    pub return_url: Option<String>,
    pub amount_captured: Option<i64>,
    pub business_country: String,
    pub business_label: String,
}

/// A stored refund.
#[derive(Clone, Debug, PartialEq, Eq)]
pub struct Refund {
    pub refund_id: String,
    pub connector_transaction_id: String,
    pub connector_refund_id: Option<String>,
    pub refund_amount: i64,
    pub refund_status: RefundStatus,
    pub refund_reason: Option<String>,
}

/// A stored dispute.
#[derive(Clone, Debug, PartialEq, Eq)]
pub struct Dispute {
    pub dispute_id: String,
    pub connector_dispute_id: String,
    pub connector: String,
}

/// What is stored about an uploaded file.
#[derive(Clone, Debug, PartialEq, Eq)]
pub struct FileMetadata {
    pub connector_label: Option<String>,
    pub provider_file_id: Option<String>,
}

/// A file that a merchant hands in.
#[derive(Clone, Debug, PartialEq, Eq)]
pub struct CreateFileRequest {
    pub file: Vec<u8>,
    pub file_type: String,
    pub file_size: i32,
}

/// What is asked of the gateway when a dispute is accepted.
#[derive(Clone, Debug, PartialEq, Eq)]
pub struct AcceptDisputeRequestData {
    pub dispute_id: String,
    pub connector_dispute_id: String,
}

/// What is asked of the gateway when a dispute is defended.
#[derive(Clone, Debug, PartialEq, Eq)]
pub struct DefendDisputeRequestData {
    pub dispute_id: String,
    pub connector_dispute_id: String,
}

/// What is asked of the gateway when evidence is handed in.
#[derive(Clone, Debug, PartialEq, Eq)]
pub struct SubmitEvidenceRequestData {
    pub dispute_id: String,
    pub connector_dispute_id: String,
    pub customer_email_address: Option<String>,
    pub customer_name: Option<String>,
    pub product_description: Option<String>,
    pub receipt: Option<Vec<u8>>,
    pub receipt_provider_file_id: Option<String>,
    pub uncategorized_text: Option<String>,
}

/// What is asked of the gateway when a file is uploaded.
#[derive(Clone, Debug, PartialEq, Eq)]
pub struct UploadFileRequestData {
    pub file_key: String,
    pub file: Vec<u8>,
    pub file_type: String,
    pub file_size: i32,
}

/// What is asked of the gateway when a file is fetched.
#[derive(Clone, Debug, PartialEq, Eq)]
pub struct RetrieveFileRequestData {
    pub provider_file_id: String,
}

/// What the gateway says of a dispute after a call about it.
#[derive(Clone, Debug, PartialEq, Eq)]
pub struct DisputeResponse {
    pub dispute_status: DisputeStatus,
    pub connector_status: Option<String>,
}

/// What the gateway says after an upload.
#[derive(Clone, Debug, PartialEq, Eq)]
pub struct UploadFileResponse {
    pub provider_file_id: String,
}

/// What the gateway hands out for a file.
#[derive(Clone, Debug, PartialEq, Eq)]
pub struct RetrieveFileResponse {
    pub file_data: Vec<u8>,
}

pub type AcceptDisputeRouterData = RouterData<AcceptDisputeRequestData, DisputeResponse>;

pub type SubmitEvidenceRouterData = RouterData<SubmitEvidenceRequestData, DisputeResponse>;

pub type DefendDisputeRouterData = RouterData<DefendDisputeRequestData, DisputeResponse>;

pub type UploadFileRouterData = RouterData<UploadFileRequestData, UploadFileResponse>;

pub type RetrieveFileRouterData = RouterData<RetrieveFileRequestData, RetrieveFileResponse>;

/// `response` says that something went wrong without saying what.
pub open spec fn is_default_error(response: ErrorResponse) -> bool {
    &&& response.code@ == "HE_00"@
    &&& response.message@ == "Something went wrong"@
    &&& response.reason is None
    &&& response.status_code == 500
}

/// `response` says that the call is not offered yet.
pub open spec fn is_not_implemented_error(response: ErrorResponse) -> bool {
    &&& response.code@ == "IR_00"@
    &&& response.message@ == "This API is under development and will be made available soon."@
    &&& response.reason is None
    &&& response.status_code == 500
}

impl Default for ErrorResponse {
    fn default() -> (response: Self)
        ensures
            is_default_error(response),
    {
        ErrorResponse {
            code: "HE_00".to_owned(),
            message: "Something went wrong".to_owned(),
            reason: None,
            status_code: 500,
        }
    }
}

impl ErrorResponse {
    /// The answer on record for a call that is not offered yet.
    pub fn get_not_implemented() -> (response: Self)
        ensures
            is_not_implemented_error(response),
    {
        ErrorResponse {
            code: "IR_00".to_owned(),
            message: "This API is under development and will be made available soon.".to_owned(),
            reason: None,
            status_code: 500,
        }
    }
}

impl Default for PaymentAddress {
    fn default() -> (address: Self)
        ensures
            address == (PaymentAddress { shipping: None, billing: None }),
    {
        PaymentAddress { shipping: None, billing: None }
    }
}

} // verus!
