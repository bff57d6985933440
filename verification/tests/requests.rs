use router::enums::{AttemptStatus, AuthenticationType, CaptureMethod, Currency, PaymentMethod};
use router::errors::{missing_field_err, ConnectorError};
use router::requests::{
    GenerateSaleRequest, MandateRequest, PayRequest, PaymeAuthType, PaymeCard,
    PaymePaymentRequest, PaymeQuerySaleRequest, PaymeQueryTransactionRequest, PaymeRefundRequest,
    PaymentCaptureRequest, SalePaymentMethod, SaleType,
};
use router::transformers::{GenerateSaleResponse, PaymeErrorResponse};
use router::types::{
    Address, AddressDetails, Card, ConnectorAuthType, ErrorResponse, MandateData, MandateIds,
    OrderDetailsWithAmount, PaymentAddress, PaymentMethodData, PaymentsAuthorizeData,
    PaymentsCaptureData, PaymentsResponseData, PaymentsSyncData, RefundsData, RefundsResponseData,
    ResponseId, ResponseRouterData, RouterData, Secret,
};
use router::enums::RefundStatus;

fn secret(value: &str) -> Secret<String> {
    Secret::new(value.to_string())
}

fn body_key() -> ConnectorAuthType {
    ConnectorAuthType::BodyKey { api_key: secret("SELLER"), key1: secret("CLIENT") }
}

fn billing(first: Option<&str>, last: Option<&str>) -> PaymentAddress {
    PaymentAddress {
        shipping: None,
        billing: Some(Address {
            address: Some(AddressDetails {
                city: None,
                country: None,
                line1: None,
                line2: None,
                line3: None,
                zip: None,
                state: None,
                first_name: first.map(secret),
                last_name: last.map(secret),
            }),
            phone: None,
        }),
    }
}

fn record<Req, Resp>(request: Req, response: Result<Resp, ErrorResponse>) -> RouterData<Req, Resp> {
    RouterData {
        merchant_id: "merchant_1".to_string(),
        customer_id: None,
        connector_customer: None,
        connector: "payme".to_string(),
        payment_id: "pay_1".to_string(),
        attempt_id: "pay_1_1".to_string(),
        status: AttemptStatus::Pending,
        payment_method: PaymentMethod::Card,
        connector_auth_type: body_key(),
        description: None,
        return_url: None,
        address: billing(Some("Ada"), Some("Lovelace")),
        auth_type: AuthenticationType::NoThreeDs,
        connector_meta_data: None,
        amount_captured: None,
        session_token: None,
        reference_id: None,
        payment_method_token: None,
        preprocessing_id: None,
        payment_method_id: None,
        connector_request_reference_id: "pay_1_1".to_string(),
        payout_method_data: None,
        quote_id: None,
        test_mode: None,
        request,
        response,
    }
}

fn failed() -> ErrorResponse {
    ErrorResponse::default()
}

fn card() -> Card {
    Card {
        card_number: secret("4111111111111111"),
        card_exp_month: secret("03"),
        card_exp_year: secret("2030"),
        card_holder_name: secret("Ada Lovelace"),
        card_cvc: secret("123"),
    }
}

fn authorize_data() -> PaymentsAuthorizeData {
    PaymentsAuthorizeData {
        payment_method_data: PaymentMethodData::Card(card()),
        amount: 1500,
        currency: Currency::ILS,
        email: Some(secret("ada@example.com")),
        capture_method: None,
        setup_mandate_details: None,
        mandate_id: None,
        order_details: Some(vec![
            OrderDetailsWithAmount { product_name: "book".to_string(), quantity: 1, amount: 1000 },
            OrderDetailsWithAmount { product_name: "pen".to_string(), quantity: 1, amount: 500 },
        ]),
        router_return_url: Some("https://shop.example/return".to_string()),
        webhook_url: Some("https://router.example/webhooks/merchant_1/payme".to_string()),
        related_transaction_id: Some("SALE-1".to_string()),
    }
}

fn authorize(data: PaymentsAuthorizeData) -> RouterData<PaymentsAuthorizeData, PaymentsResponseData> {
    record(data, Err(failed()))
}

fn refunds_data(connector_refund_id: Option<&str>) -> RefundsData {
    RefundsData {
        refund_id: "ref_1".to_string(),
        connector_transaction_id: "SALE-1".to_string(),
        connector_refund_id: connector_refund_id.map(|id| id.to_string()),
        currency: Currency::ILS,
        payment_amount: 1500,
        reason: None,
        webhook_url: None,
        refund_amount: 700,
        connector_metadata: None,
    }
}

fn refund_record(data: RefundsData) -> RouterData<RefundsData, RefundsResponseData> {
    record(
        data,
        Ok(RefundsResponseData {
            connector_refund_id: String::new(),
            refund_status: RefundStatus::Pending,
        }),
    )
}

#[test]
fn auth_type_takes_a_pair_of_keys() {
    let auth = PaymeAuthType::try_from(&body_key()).ok().unwrap();
    assert!(auth.seller_payme_id == secret("SELLER"));
    assert!(auth.payme_client_key == secret("CLIENT"));
    for other in [
        ConnectorAuthType::NoKey,
        ConnectorAuthType::HeaderKey { api_key: secret("k") },
        ConnectorAuthType::SignatureKey {
            api_key: secret("a"),
            key1: secret("b"),
            api_secret: secret("c"),
        },
    ] {
        assert!(PaymeAuthType::try_from(&other) == Err(ConnectorError::FailedToObtainAuthType));
    }
}

#[test]
fn sale_type_by_mandate_and_capture() {
    let sale = authorize(authorize_data());
    assert_eq!(SaleType::try_from(&sale), Ok(SaleType::Sale));
    let automatic = authorize(PaymentsAuthorizeData {
        capture_method: Some(CaptureMethod::Automatic),
        ..authorize_data()
    });
    assert_eq!(SaleType::try_from(&automatic), Ok(SaleType::Sale));
    let manual = authorize(PaymentsAuthorizeData {
        capture_method: Some(CaptureMethod::Manual),
        ..authorize_data()
    });
    assert_eq!(SaleType::try_from(&manual), Ok(SaleType::Authorize));
    let scheduled = authorize(PaymentsAuthorizeData {
        capture_method: Some(CaptureMethod::Scheduled),
        ..authorize_data()
    });
    assert_eq!(SaleType::try_from(&scheduled), Err(ConnectorError::CaptureMethodNotSupported));
    let token = authorize(PaymentsAuthorizeData {
        capture_method: Some(CaptureMethod::Scheduled),
        setup_mandate_details: Some(MandateData { single_use: false }),
        ..authorize_data()
    });
    assert_eq!(SaleType::try_from(&token), Ok(SaleType::Token));
}

#[test]
fn only_cards_are_taken() {
    assert_eq!(
        SalePaymentMethod::try_from(&PaymentMethodData::Card(card())),
        Ok(SalePaymentMethod::CreditCard)
    );
    for other in [
        PaymentMethodData::Wallet,
        PaymentMethodData::PayLater,
        PaymentMethodData::BankRedirect,
        PaymentMethodData::BankDebit,
        PaymentMethodData::BankTransfer,
        PaymentMethodData::Crypto,
        PaymentMethodData::MandatePayment,
        PaymentMethodData::Reward,
        PaymentMethodData::GiftCard,
        PaymentMethodData::CardRedirect,
        PaymentMethodData::Upi,
        PaymentMethodData::Voucher,
    ] {
        assert_eq!(
            SalePaymentMethod::try_from(&other),
            Err(ConnectorError::NotImplemented("Payment methods".to_string()))
        );
    }
}

#[test]
fn generate_sale_request_is_built() {
    let request = GenerateSaleRequest::try_from(&authorize(authorize_data())).ok().unwrap();
    assert!(
        request
            == GenerateSaleRequest {
                currency: Currency::ILS,
                sale_type: SaleType::Sale,
                sale_price: 1500,
                transaction_id: "pay_1".to_string(),
                product_name: "book".to_string(),
                sale_return_url: "https://shop.example/return".to_string(),
                seller_payme_id: secret("SELLER"),
                sale_callback_url: "https://router.example/webhooks/merchant_1/payme".to_string(),
                sale_payment_method: SalePaymentMethod::CreditCard,
            }
    );
}

#[test]
fn generate_sale_request_reports_the_first_obstacle() {
    let no_order = authorize(PaymentsAuthorizeData {
        order_details: None,
        router_return_url: None,
        ..authorize_data()
    });
    assert!(GenerateSaleRequest::try_from(&no_order) == Err(missing_field_err("order_details")));
    let empty_order = authorize(PaymentsAuthorizeData {
        order_details: Some(vec![]),
        ..authorize_data()
    });
    assert!(GenerateSaleRequest::try_from(&empty_order) == Err(missing_field_err("order_details")));
    let no_return = authorize(PaymentsAuthorizeData {
        router_return_url: None,
        webhook_url: None,
        ..authorize_data()
    });
    assert!(GenerateSaleRequest::try_from(&no_return) == Err(missing_field_err("return_url")));
    let no_webhook = authorize(PaymentsAuthorizeData {
        webhook_url: None,
        payment_method_data: PaymentMethodData::Wallet,
        ..authorize_data()
    });
    assert!(GenerateSaleRequest::try_from(&no_webhook) == Err(missing_field_err("webhook_url")));
    let wallet = authorize(PaymentsAuthorizeData {
        payment_method_data: PaymentMethodData::Wallet,
        ..authorize_data()
    });
    assert!(
        GenerateSaleRequest::try_from(&wallet)
            == Err(ConnectorError::NotImplemented("Payment methods".to_string()))
    );
    let mut no_keys = authorize(authorize_data());
    no_keys.connector_auth_type = ConnectorAuthType::NoKey;
    assert!(GenerateSaleRequest::try_from(&no_keys) == Err(ConnectorError::FailedToObtainAuthType));
}

#[test]
fn pay_request_is_built() {
    let request = PayRequest::try_from(&authorize(authorize_data())).ok().unwrap();
    assert!(
        request
            == PayRequest {
                buyer_name: secret("Ada Lovelace"),
                buyer_email: secret("ada@example.com"),
                payme_sale_id: "SALE-1".to_string(),
                card: PaymeCard {
                    credit_card_cvv: secret("123"),
                    credit_card_exp: secret("0330"),
                    credit_card_number: secret("4111111111111111"),
                },
            }
    );
}

#[test]
fn pay_request_trims_the_full_name() {
    let mut item = authorize(authorize_data());
    item.address = billing(Some(" Ada"), Some("Lovelace  "));
    let request = PayRequest::try_from(&item).ok().unwrap();
    assert!(request.buyer_name == secret("Ada Lovelace"));
}

#[test]
fn pay_request_reports_the_first_obstacle() {
    let short_year = authorize(PaymentsAuthorizeData {
        payment_method_data: PaymentMethodData::Card(Card { card_exp_year: secret("3"), ..card() }),
        email: None,
        ..authorize_data()
    });
    assert!(PayRequest::try_from(&short_year) == Err(ConnectorError::RequestEncodingFailed));
    let no_email = authorize(PaymentsAuthorizeData { email: None, ..authorize_data() });
    assert!(PayRequest::try_from(&no_email) == Err(missing_field_err("email")));
    let mut no_address = authorize(authorize_data());
    no_address.address = PaymentAddress { shipping: None, billing: None };
    assert!(PayRequest::try_from(&no_address) == Err(missing_field_err("billing.address")));
    let mut no_first = authorize(authorize_data());
    no_first.address = billing(None, None);
    assert!(PayRequest::try_from(&no_first) == Err(missing_field_err("address.first_name")));
    let mut no_last = authorize(authorize_data());
    no_last.address = billing(Some("Ada"), None);
    assert!(PayRequest::try_from(&no_last) == Err(missing_field_err("address.last_name")));
    let no_sale = authorize(PaymentsAuthorizeData {
        related_transaction_id: None,
        ..authorize_data()
    });
    assert!(
        PayRequest::try_from(&no_sale)
            == Err(ConnectorError::MissingConnectorRelatedTransactionID {
                id: "payme_sale_id".to_string()
            })
    );
    let wallet = authorize(PaymentsAuthorizeData {
        payment_method_data: PaymentMethodData::Wallet,
        ..authorize_data()
    });
    assert!(
        PayRequest::try_from(&wallet)
            == Err(ConnectorError::NotImplemented("Payment methods".to_string()))
    );
}

#[test]
fn card_expiry_forms() {
    assert!(card().get_card_expiry_year_2_digit() == Ok(secret("30")));
    assert!(
        card().get_card_expiry_month_year_2_digit_with_delimiter("/") == Ok(secret("03/30"))
    );
    let two = Card { card_exp_year: secret("30"), ..card() };
    assert!(two.get_card_expiry_year_2_digit() == Ok(secret("30")));
    let none = Card { card_exp_year: secret(""), ..card() };
    assert!(none.get_card_expiry_year_2_digit() == Err(ConnectorError::RequestEncodingFailed));
}

#[test]
fn mandate_request_is_built() {
    let data = PaymentsAuthorizeData {
        mandate_id: Some(MandateIds {
            mandate_id: "man_1".to_string(),
            connector_mandate_id: Some("BUYER-1".to_string()),
        }),
        ..authorize_data()
    };
    let expected = MandateRequest {
        currency: Currency::ILS,
        sale_price: 1500,
        transaction_id: "pay_1".to_string(),
        product_name: "book".to_string(),
        sale_return_url: "https://shop.example/return".to_string(),
        seller_payme_id: secret("SELLER"),
        sale_callback_url: "https://router.example/webhooks/merchant_1/payme".to_string(),
        buyer_key: secret("BUYER-1"),
    };
    assert!(MandateRequest::try_from(&authorize(data.clone())) == Ok(expected.clone()));
    assert!(
        PaymePaymentRequest::try_from(&authorize(data))
            == Ok(PaymePaymentRequest::MandateRequest(expected))
    );
    let without_id = PaymentsAuthorizeData {
        mandate_id: Some(MandateIds { mandate_id: "man_1".to_string(), connector_mandate_id: None }),
        ..authorize_data()
    };
    assert!(
        PaymePaymentRequest::try_from(&authorize(without_id))
            == Err(missing_field_err("connector_mandate_id"))
    );
    assert!(matches!(
        PaymePaymentRequest::try_from(&authorize(authorize_data())),
        Ok(PaymePaymentRequest::PayRequest(_))
    ));
}

#[test]
fn query_requests_are_built() {
    let sync = record::<_, PaymentsResponseData>(
        PaymentsSyncData {
            connector_transaction_id: ResponseId::ConnectorTransactionId("SALE-1".to_string()),
            capture_method: None,
        },
        Err(failed()),
    );
    assert!(
        PaymeQuerySaleRequest::try_from(&sync)
            == Ok(PaymeQuerySaleRequest {
                sale_payme_id: "SALE-1".to_string(),
                seller_payme_id: secret("SELLER"),
            })
    );
    let no_id = record::<_, PaymentsResponseData>(
        PaymentsSyncData { connector_transaction_id: ResponseId::NoResponseId, capture_method: None },
        Err(failed()),
    );
    assert!(
        PaymeQuerySaleRequest::try_from(&no_id) == Err(missing_field_err("connector_transaction_id"))
    );
    assert!(
        PaymeQueryTransactionRequest::try_from(&refund_record(refunds_data(Some("TXN-R"))))
            == Ok(PaymeQueryTransactionRequest {
                payme_transaction_id: "TXN-R".to_string(),
                seller_payme_id: secret("SELLER"),
            })
    );
    assert!(
        PaymeQueryTransactionRequest::try_from(&refund_record(refunds_data(None)))
            == Err(ConnectorError::MissingConnectorRefundID)
    );
}

#[test]
fn capture_and_refund_requests_are_built() {
    let capture = record::<_, PaymentsResponseData>(
        PaymentsCaptureData {
            amount_to_capture: 900,
            currency: Currency::ILS,
            connector_transaction_id: "SALE-1".to_string(),
            payment_amount: 1500,
        },
        Err(failed()),
    );
    assert_eq!(
        PaymentCaptureRequest::try_from(&capture),
        Ok(PaymentCaptureRequest { payme_sale_id: "SALE-1".to_string(), sale_price: 900 })
    );
    assert!(
        PaymeRefundRequest::try_from(&refund_record(refunds_data(None)))
            == Ok(PaymeRefundRequest {
                sale_refund_amount: 700,
                payme_sale_id: "SALE-1".to_string(),
                seller_payme_id: secret("SELLER"),
            })
    );
    let mut no_keys = refund_record(refunds_data(None));
    no_keys.connector_auth_type = ConnectorAuthType::NoKey;
    assert!(PaymeRefundRequest::try_from(&no_keys) == Err(ConnectorError::FailedToObtainAuthType));
}

#[test]
fn opened_sale_is_put_on_record() {
    let item = ResponseRouterData {
        response: GenerateSaleResponse { payme_sale_id: "SALE-9".to_string() },
        data: authorize(PaymentsAuthorizeData { related_transaction_id: None, ..authorize_data() }),
        http_code: 200,
    };
    let updated = RouterData::try_from_generate_sale_response(item).ok().unwrap();
    let mut expected =
        authorize(PaymentsAuthorizeData { related_transaction_id: None, ..authorize_data() });
    expected.status = AttemptStatus::Authorizing;
    expected.request.related_transaction_id = Some("SALE-9".to_string());
    expected.response = Ok(PaymentsResponseData::TransactionResponse {
        resource_id: ResponseId::ConnectorTransactionId("SALE-9".to_string()),
        redirection_data: None,
        mandate_reference: None,
        connector_metadata: None,
        network_txn_id: None,
        connector_response_reference_id: None,
    });
    assert!(updated == expected);
}

#[test]
fn error_response_default_is_empty() {
    assert_eq!(
        PaymeErrorResponse::default(),
        PaymeErrorResponse { status_code: 0, code: String::new(), message: String::new(), reason: None }
    );
}
