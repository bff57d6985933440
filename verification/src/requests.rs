use vstd::prelude::*;
use crate::enums::{AttemptStatus, Currency};
use crate::errors::{agrees, missing_field, required, ConnectorError, ConnectorErrorView};
use crate::transformers::{merged_response, GenerateSaleResponse};
use crate::types::{
    auto_capture, billing_address, card_expiry, connector_mandate_id, first_product_name, full_name,
    sync_transaction_id, ConnectorAuthType, PaymentMethodData, PaymentsAuthorizeData,
    PaymentsAuthorizeRouterData, PaymentsCaptureRouterData, PaymentsInitRouterData,
    PaymentsResponseData, PaymentsSyncRouterData, RefundsRouterData, ResponseRouterData,
    RouterData, Secret,
};

verus! {

/// What a sale is opened for.
#[derive(Clone, Copy, Debug, PartialEq, Eq, Structural)]
pub enum SaleType {
    Sale,
    Authorize,
    Token,
}

/// How a sale is paid.
#[derive(Clone, Copy, Debug, PartialEq, Eq, Structural)]
pub enum SalePaymentMethod {
    CreditCard,
}

/// The merchant's credentials with the gateway.
#[derive(Clone, PartialEq, Eq)]
pub struct PaymeAuthType {
    pub payme_client_key: Secret<String>,
    pub seller_payme_id: Secret<String>,
}

/// The card of a payment, in the gateway's terms.
#[derive(Clone, PartialEq, Eq)]
pub struct PaymeCard {
    pub credit_card_cvv: Secret<String>,
    pub credit_card_exp: Secret<String>,
    pub credit_card_number: Secret<String>,
}

/// Request that pays an opened sale by card.
#[derive(Clone, PartialEq, Eq)]
pub struct PayRequest {
    pub buyer_name: Secret<String>,
    pub buyer_email: Secret<String>,
    pub payme_sale_id: String,
    pub card: PaymeCard,
}

/// Request that pays under a mandate, with the buyer's key in place of a
/// card.
#[derive(Clone, PartialEq, Eq)]
pub struct MandateRequest {
    pub currency: Currency,
    pub sale_price: i64,
    pub transaction_id: String,
    pub product_name: String,
    pub sale_return_url: String,
    pub seller_payme_id: Secret<String>,
    pub sale_callback_url: String,
    pub buyer_key: Secret<String>,
}

/// A payment request in either of its forms.
#[derive(Clone, PartialEq, Eq)]
pub enum PaymePaymentRequest {
    MandateRequest(MandateRequest),
    PayRequest(PayRequest),
}

/// Request that looks a sale up.
#[derive(Clone, PartialEq, Eq)]
pub struct PaymeQuerySaleRequest {
    pub sale_payme_id: String,
    pub seller_payme_id: Secret<String>,
}

/// Request that looks a transaction up.
#[derive(Clone, PartialEq, Eq)]
pub struct PaymeQueryTransactionRequest {
    pub payme_transaction_id: String,
    pub seller_payme_id: Secret<String>,
}

/// Request that opens a sale.
#[derive(Clone, PartialEq, Eq)]
pub struct GenerateSaleRequest {
    pub currency: Currency,
    pub sale_type: SaleType,
    pub sale_price: i64,
    pub transaction_id: String,
    pub product_name: String,
    pub sale_return_url: String,
    pub seller_payme_id: Secret<String>,
    pub sale_callback_url: String,
    pub sale_payment_method: SalePaymentMethod,
}

/// Request that captures an authorised sale.
#[derive(Clone, Debug, PartialEq, Eq)]
pub struct PaymentCaptureRequest {
    pub payme_sale_id: String,
    pub sale_price: i64,
}

/// Request that refunds a sale.
#[derive(Clone, PartialEq, Eq)]
pub struct PaymeRefundRequest {
    pub sale_refund_amount: i64,
    pub payme_sale_id: String,
    pub seller_payme_id: Secret<String>,
}

/// The gateway credentials in the stored ones. The gateway takes a pair of
/// keys and nothing else.
pub open spec fn auth_of(auth_type: ConnectorAuthType) -> Result<PaymeAuthType, ConnectorErrorView> {
    match auth_type {
        ConnectorAuthType::BodyKey { api_key, key1 } => Ok(
            PaymeAuthType { seller_payme_id: api_key, payme_client_key: key1 },
        ),
        _ => Err(ConnectorErrorView::FailedToObtainAuthType),
    }
}

/// What a sale is opened for: a token where a mandate is set up, and else a
/// sale or an authorisation by the way of capture.
pub open spec fn sale_type_of(request: PaymentsAuthorizeData) -> Result<
    SaleType,
    ConnectorErrorView,
> {
    if request.setup_mandate_details is Some {
        Ok(SaleType::Token)
    } else {
        match auto_capture(request.capture_method) {
            Some(true) => Ok(SaleType::Sale),
            Some(false) => Ok(SaleType::Authorize),
            None => Err(ConnectorErrorView::CaptureMethodNotSupported),
        }
    }
}

/// How a sale is paid: by card, the one instrument the gateway takes.
pub open spec fn sale_payment_method_of(data: PaymentMethodData) -> Result<
    SalePaymentMethod,
    ConnectorErrorView,
> {
    match data {
        PaymentMethodData::Card(_) => Ok(SalePaymentMethod::CreditCard),
        _ => Err(ConnectorErrorView::NotImplemented("Payment methods"@)),
    }
}

/// The request that opens a sale for a payment, or the first thing that
/// stands in its way.
pub open spec fn generate_sale_request_of(item: PaymentsInitRouterData) -> Result<
    GenerateSaleRequest,
    ConnectorErrorView,
> {
    match sale_type_of(item.request) {
        Err(error) => Err(error),
        Ok(sale_type) => match auth_of(item.connector_auth_type) {
            Err(error) => Err(error),
            Ok(auth) => match required(
                first_product_name(item.request.order_details),
                "order_details"@,
            ) {
                Err(error) => Err(error),
                Ok(product_name) => match required(item.request.router_return_url, "return_url"@) {
                    Err(error) => Err(error),
                    Ok(sale_return_url) => match required(item.request.webhook_url, "webhook_url"@) {
                        Err(error) => Err(error),
                        Ok(sale_callback_url) => match sale_payment_method_of(
                            item.request.payment_method_data,
                        ) {
                            Err(error) => Err(error),
                            Ok(sale_payment_method) => Ok(
                                GenerateSaleRequest {
                                    currency: item.request.currency,
                                    sale_type,
                                    sale_price: item.request.amount,
                                    transaction_id: item.payment_id,
                                    product_name,
                                    sale_return_url,
                                    seller_payme_id: auth.seller_payme_id,
                                    sale_callback_url,
                                    sale_payment_method,
                                },
                            ),
                        },
                    },
                },
            },
        },
    }
}

/// The request that pays under a mandate, or the first thing that stands in
/// its way.
pub open spec fn mandate_request_of(item: PaymentsAuthorizeRouterData) -> Result<
    MandateRequest,
    ConnectorErrorView,
> {
    match auth_of(item.connector_auth_type) {
        Err(error) => Err(error),
        Ok(auth) => match required(first_product_name(item.request.order_details), "order_details"@) {
            Err(error) => Err(error),
            Ok(product_name) => match required(item.request.router_return_url, "return_url"@) {
                Err(error) => Err(error),
                Ok(sale_return_url) => match required(item.request.webhook_url, "webhook_url"@) {
                    Err(error) => Err(error),
                    Ok(sale_callback_url) => match required(
                        connector_mandate_id(item.request.mandate_id),
                        "connector_mandate_id"@,
                    ) {
                        Err(error) => Err(error),
                        Ok(buyer_key) => Ok(
                            MandateRequest {
                                currency: item.request.currency,
                                sale_price: item.request.amount,
                                transaction_id: item.payment_id,
                                product_name,
                                sale_return_url,
                                seller_payme_id: auth.seller_payme_id,
                                sale_callback_url,
                                buyer_key: Secret::of(buyer_key),
                            },
                        ),
                    },
                },
            },
        },
    }
}

/// The first thing that stands in the way of paying a sale by card, if
/// anything does.
pub open spec fn pay_request_error(item: PaymentsAuthorizeRouterData) -> Option<ConnectorErrorView> {
    match item.request.payment_method_data {
        PaymentMethodData::Card(card) => {
            if card_expiry(card, Seq::<char>::empty()) is None {
                Some(ConnectorErrorView::RequestEncodingFailed)
            } else if item.request.email is None {
                Some(missing_field("email"@))
            } else if billing_address(item.address) is None {
                Some(missing_field("billing.address"@))
            } else if full_name(billing_address(item.address)->Some_0) is Err {
                Some(full_name(billing_address(item.address)->Some_0)->Err_0)
            } else if item.request.related_transaction_id is None {
                Some(ConnectorErrorView::MissingConnectorRelatedTransactionID { id: "payme_sale_id"@ })
            } else {
                None
            }
        },
        _ => Some(ConnectorErrorView::NotImplemented("Payment methods"@)),
    }
}

/// `request` pays the sale of `item` by the card of `item`: card number and
/// verification code as entered, the expiry as month and two-digit year, the
/// buyer's e-mail address and full name, and the id of the sale.
pub open spec fn is_pay_request_of(item: PaymentsAuthorizeRouterData, request: PayRequest) -> bool {
    &&& item.request.payment_method_data matches PaymentMethodData::Card(card)
    &&& request.card.credit_card_cvv == card.card_cvc
    &&& request.card.credit_card_number == card.card_number
    &&& Some(request.card.credit_card_exp.exposed()@) == card_expiry(card, Seq::<char>::empty())
    &&& Some(request.buyer_email) == item.request.email
    &&& billing_address(item.address) matches Some(address)
    &&& Ok::<Seq<char>, ConnectorErrorView>(request.buyer_name.exposed()@) == full_name(address)
    &&& Some(request.payme_sale_id) == item.request.related_transaction_id
}

/// `result` is the payment request for `item`: under the mandate where the
/// payment names one, by card otherwise.
pub open spec fn is_payment_request_of(
    item: PaymentsAuthorizeRouterData,
    result: Result<PaymePaymentRequest, ConnectorError>,
) -> bool {
    if item.request.mandate_id is Some {
        match mandate_request_of(item) {
            Ok(request) => result == Ok::<PaymePaymentRequest, ConnectorError>(
                PaymePaymentRequest::MandateRequest(request),
            ),
            Err(error) => result matches Err(e) && e@ == error,
        }
    } else {
        match pay_request_error(item) {
            None => result matches Ok(PaymePaymentRequest::PayRequest(request))
                && is_pay_request_of(item, request),
            Some(error) => result matches Err(e) && e@ == error,
        }
    }
}

/// The request that looks up the sale of a payment.
pub open spec fn query_sale_request_of(item: PaymentsSyncRouterData) -> Result<
    PaymeQuerySaleRequest,
    ConnectorErrorView,
> {
    match auth_of(item.connector_auth_type) {
        Err(error) => Err(error),
        Ok(auth) => match required(sync_transaction_id(item.request), "connector_transaction_id"@) {
            Err(error) => Err(error),
            Ok(sale_payme_id) => Ok(
                PaymeQuerySaleRequest { sale_payme_id, seller_payme_id: auth.seller_payme_id },
            ),
        },
    }
}

/// The request that looks up the transaction of a refund.
pub open spec fn query_transaction_request_of(item: RefundsRouterData) -> Result<
    PaymeQueryTransactionRequest,
    ConnectorErrorView,
> {
    match auth_of(item.connector_auth_type) {
        Err(error) => Err(error),
        Ok(auth) => match item.request.connector_refund_id {
            None => Err(ConnectorErrorView::MissingConnectorRefundID),
            Some(payme_transaction_id) => Ok(
                PaymeQueryTransactionRequest {
                    payme_transaction_id,
                    seller_payme_id: auth.seller_payme_id,
                },
            ),
        },
    }
}

/// The request that refunds a payment.
pub open spec fn refund_request_of(item: RefundsRouterData) -> Result<
    PaymeRefundRequest,
    ConnectorErrorView,
> {
    match auth_of(item.connector_auth_type) {
        Err(error) => Err(error),
        Ok(auth) => Ok(
            PaymeRefundRequest {
                payme_sale_id: item.request.connector_transaction_id,
                seller_payme_id: auth.seller_payme_id,
                sale_refund_amount: item.request.refund_amount,
            },
        ),
    }
}

/// The record of a payment once its sale is opened: it is being authorised,
/// the request names the sale for the payment that follows, and the sale id
/// is the resource id.
pub open spec fn sale_opened_record(
    previous: PaymentsAuthorizeRouterData,
    response: GenerateSaleResponse,
) -> PaymentsAuthorizeRouterData {
    RouterData {
        status: AttemptStatus::Authorizing,
        request: PaymentsAuthorizeData {
            related_transaction_id: Some(response.payme_sale_id),
            ..previous.request
        },
        response: Ok(merged_response(previous.response, response.payme_sale_id, None, None)),
        ..previous
    }
}

impl PaymeAuthType {
    /// Reads the gateway credentials from the stored ones.
    pub fn try_from(auth_type: &ConnectorAuthType) -> (result: Result<Self, ConnectorError>)
        ensures
            agrees(result, auth_of(*auth_type)),
    {
        match auth_type {
            ConnectorAuthType::BodyKey { api_key, key1 } => Ok(
                PaymeAuthType { seller_payme_id: api_key.clone(), payme_client_key: key1.clone() },
            ),
            _ => Err(ConnectorError::FailedToObtainAuthType),
        }
    }
}

impl SaleType {
    /// Decides what the sale of a payment is opened for.
    pub fn try_from(value: &PaymentsInitRouterData) -> (result: Result<Self, ConnectorError>)
        ensures
            agrees(result, sale_type_of(value.request)),
    {
        if value.request.setup_mandate_details.is_some() {
            Ok(SaleType::Token)
        } else {
            match value.request.is_auto_capture() {
                Ok(true) => Ok(SaleType::Sale),
                Ok(false) => Ok(SaleType::Authorize),
                Err(error) => Err(error),
            }
        }
    }
}

impl SalePaymentMethod {
    /// Decides how the sale is paid.
    pub fn try_from(item: &PaymentMethodData) -> (result: Result<Self, ConnectorError>)
        ensures
            agrees(result, sale_payment_method_of(*item)),
    {
        match item {
            PaymentMethodData::Card(_) => Ok(SalePaymentMethod::CreditCard),
            PaymentMethodData::Wallet
            | PaymentMethodData::PayLater
            | PaymentMethodData::BankRedirect
            | PaymentMethodData::BankDebit
            | PaymentMethodData::BankTransfer
            | PaymentMethodData::Crypto
            | PaymentMethodData::MandatePayment
            | PaymentMethodData::Reward
            | PaymentMethodData::GiftCard
            | PaymentMethodData::CardRedirect
            | PaymentMethodData::Upi
            | PaymentMethodData::Voucher => Err(
                ConnectorError::NotImplemented("Payment methods".to_owned()),
            ),
        }
    }
}

impl GenerateSaleRequest {
    /// Builds the request that opens a sale for a payment.
    pub fn try_from(item: &PaymentsInitRouterData) -> (result: Result<Self, ConnectorError>)
        ensures
            agrees(result, generate_sale_request_of(*item)),
    {
        let sale_type = match SaleType::try_from(item) {
            Ok(sale_type) => sale_type,
            Err(error) => { return Err(error); },
        };
        let seller_payme_id = match PaymeAuthType::try_from(&item.connector_auth_type) {
            Ok(auth) => auth.seller_payme_id,
            Err(error) => { return Err(error); },
        };
        let product_name = match item.request.get_first_product_name() {
            Ok(product_name) => product_name,
            Err(error) => { return Err(error); },
        };
        let sale_return_url = match item.request.get_return_url() {
            Ok(url) => url,
            Err(error) => { return Err(error); },
        };
        let sale_callback_url = match item.request.get_webhook_url() {
            Ok(url) => url,
            Err(error) => { return Err(error); },
        };
        let sale_payment_method = match SalePaymentMethod::try_from(
            &item.request.payment_method_data,
        ) {
            Ok(method) => method,
            Err(error) => { return Err(error); },
        };
        Ok(
            GenerateSaleRequest {
                currency: item.request.currency,
                sale_type,
                sale_price: item.request.amount,
                transaction_id: item.payment_id.clone(),
                product_name,
                sale_return_url,
                seller_payme_id,
                sale_callback_url,
                sale_payment_method,
            },
        )
    }
}

impl MandateRequest {
    /// Builds the request that pays under the mandate of a payment.
    pub fn try_from(item: &PaymentsAuthorizeRouterData) -> (result: Result<Self, ConnectorError>)
        ensures
            agrees(result, mandate_request_of(*item)),
    {
        let seller_payme_id = match PaymeAuthType::try_from(&item.connector_auth_type) {
            Ok(auth) => auth.seller_payme_id,
            Err(error) => { return Err(error); },
        };
        let product_name = match item.request.get_first_product_name() {
            Ok(product_name) => product_name,
            Err(error) => { return Err(error); },
        };
        let sale_return_url = match item.request.get_return_url() {
            Ok(url) => url,
            Err(error) => { return Err(error); },
        };
        let sale_callback_url = match item.request.get_webhook_url() {
            Ok(url) => url,
            Err(error) => { return Err(error); },
        };
        let buyer_key = match item.request.get_connector_mandate_id() {
            Ok(id) => Secret::new(id),
            Err(error) => { return Err(error); },
        };
        Ok(
            MandateRequest {
                currency: item.request.currency,
                sale_price: item.request.amount,
                transaction_id: item.payment_id.clone(),
                product_name,
                sale_return_url,
                seller_payme_id,
                sale_callback_url,
                buyer_key,
            },
        )
    }
}

impl PayRequest {
    /// Builds the request that pays the opened sale of a payment by card.
    pub fn try_from(item: &PaymentsAuthorizeRouterData) -> (result: Result<Self, ConnectorError>)
        ensures
            match pay_request_error(*item) {
                None => result matches Ok(request) && is_pay_request_of(*item, request),
                Some(error) => result matches Err(e) && e@ == error,
            },
    {
        match &item.request.payment_method_data {
            PaymentMethodData::Card(req_card) => {
                let credit_card_exp = match req_card.get_card_expiry_month_year_2_digit_with_delimiter(
                    "",
                ) {
                    Ok(expiry) => expiry,
                    Err(error) => { return Err(error); },
                };
                proof {
                    reveal_strlit("");
                    assert(""@ =~= Seq::<char>::empty());
                }
                let card = PaymeCard {
                    credit_card_cvv: req_card.card_cvc.clone(),
                    credit_card_exp,
                    credit_card_number: req_card.card_number.clone(),
                };
                let buyer_email = match item.request.get_email() {
                    Ok(email) => email,
                    Err(error) => { return Err(error); },
                };
                let address = match item.get_billing_address() {
                    Ok(address) => address,
                    Err(error) => { return Err(error); },
                };
                let buyer_name = match address.get_full_name() {
                    Ok(name) => name,
                    Err(error) => { return Err(error); },
                };
                let payme_sale_id = match &item.request.related_transaction_id {
                    Some(id) => id.clone(),
                    None => {
                        return Err(
                            ConnectorError::MissingConnectorRelatedTransactionID {
                                id: "payme_sale_id".to_owned(),
                            },
                        );
                    },
                };
                Ok(PayRequest { card, buyer_email, buyer_name, payme_sale_id })
            },
            _ => Err(ConnectorError::NotImplemented("Payment methods".to_owned())),
        }
    }
}

impl PaymePaymentRequest {
    /// Builds the payment request: under the mandate where the payment
    /// names one, by card otherwise.
    pub fn try_from(value: &PaymentsAuthorizeRouterData) -> (result: Result<Self, ConnectorError>)
        ensures
            is_payment_request_of(*value, result),
    {
        if value.request.mandate_id.is_some() {
            match MandateRequest::try_from(value) {
                Ok(request) => Ok(PaymePaymentRequest::MandateRequest(request)),
                Err(error) => Err(error),
            }
        } else {
            match PayRequest::try_from(value) {
                Ok(request) => Ok(PaymePaymentRequest::PayRequest(request)),
                Err(error) => Err(error),
            }
        }
    }
}

impl PaymeQuerySaleRequest {
    /// Builds the request that looks up the sale of a payment.
    pub fn try_from(value: &PaymentsSyncRouterData) -> (result: Result<Self, ConnectorError>)
        ensures
            agrees(result, query_sale_request_of(*value)),
    {
        let seller_payme_id = match PaymeAuthType::try_from(&value.connector_auth_type) {
            Ok(auth) => auth.seller_payme_id,
            Err(error) => { return Err(error); },
        };
        match value.request.get_connector_transaction_id() {
            Ok(sale_payme_id) => Ok(PaymeQuerySaleRequest { sale_payme_id, seller_payme_id }),
            Err(error) => Err(error),
        }
    }
}

impl PaymeQueryTransactionRequest {
    /// Builds the request that looks up the transaction of a refund.
    pub fn try_from(value: &RefundsRouterData) -> (result: Result<Self, ConnectorError>)
        ensures
            agrees(result, query_transaction_request_of(*value)),
    {
        let seller_payme_id = match PaymeAuthType::try_from(&value.connector_auth_type) {
            Ok(auth) => auth.seller_payme_id,
            Err(error) => { return Err(error); },
        };
        match &value.request.connector_refund_id {
            Some(id) => Ok(
                PaymeQueryTransactionRequest { payme_transaction_id: id.clone(), seller_payme_id },
            ),
            None => Err(ConnectorError::MissingConnectorRefundID),
        }
    }
}

impl PaymentCaptureRequest {
    /// Builds the request that captures the sale of a payment.
    pub fn try_from(item: &PaymentsCaptureRouterData) -> (result: Result<Self, ConnectorError>)
        ensures
            result == Ok::<Self, ConnectorError>(
                PaymentCaptureRequest {
                    payme_sale_id: item.request.connector_transaction_id,
                    sale_price: item.request.amount_to_capture,
                },
            ),
    {
        Ok(
            PaymentCaptureRequest {
                payme_sale_id: item.request.connector_transaction_id.clone(),
                sale_price: item.request.amount_to_capture,
            },
        )
    }
}

impl PaymeRefundRequest {
    /// Builds the request that refunds a payment.
    pub fn try_from(item: &RefundsRouterData) -> (result: Result<Self, ConnectorError>)
        ensures
            agrees(result, refund_request_of(*item)),
    {
        match PaymeAuthType::try_from(&item.connector_auth_type) {
            Ok(auth_type) => Ok(
                PaymeRefundRequest {
                    payme_sale_id: item.request.connector_transaction_id.clone(),
                    seller_payme_id: auth_type.seller_payme_id,
                    sale_refund_amount: item.request.refund_amount,
                },
            ),
            Err(error) => Err(error),
        }
    }
}

impl RouterData<PaymentsAuthorizeData, PaymentsResponseData> {
    /// Updates the record of a payment from the reply that opened its sale.
    pub fn try_from_generate_sale_response(
        item: ResponseRouterData<GenerateSaleResponse, PaymentsAuthorizeData, PaymentsResponseData>,
    ) -> (result: Result<Self, ConnectorError>)
        ensures
            result == Ok::<Self, ConnectorError>(sale_opened_record(item.data, item.response)),
    {
        let mut record = Self::merge_encoded(
            item.data,
            crate::transformers::SaleStatus::Initial,
            item.response.payme_sale_id.clone(),
            None,
            None,
        );
        record.request.related_transaction_id = Some(item.response.payme_sale_id);
        Ok(record)
    }
}

} // verus!
