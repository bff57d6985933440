use router::errors::ConnectorError;
use router::resolver::{
    parse_notify_type, parse_sale_status, sale_status_as_tag, EntityKind, Field, InboundItem,
    InboundPayload, ItemsField,
};
use router::transformers::{
    GenerateSaleResponse, NotifyType, PaymePaySaleResponse, PaymePaymentsResponse, RawEnvelope,
    SaleQuery, SaleQueryResponse, SaleStatus, WebhookEventDataResourceEvent,
    WebhookEventDataResourceSignature,
};
use router::enums::{AttemptStatus, AuthenticationType, PaymentMethod};
use router::types::{
    ConnectorAuthType, ErrorResponse, PaymentAddress, PaymentsResponseData, ResponseId,
    RouterData, Secret,
};

fn text(value: &str) -> Field {
    Field::Text(value.to_string())
}

fn empty() -> InboundPayload {
    InboundPayload {
        sale_status: Field::Absent,
        payme_sale_id: Field::Absent,
        payme_transaction_id: Field::Absent,
        buyer_key: Field::Absent,
        payme_signature: Field::Absent,
        notify_type: Field::Absent,
        items: ItemsField::Absent,
    }
}

fn single() -> InboundPayload {
    InboundPayload {
        sale_status: text("completed"),
        payme_sale_id: text("SALE-1"),
        payme_transaction_id: text("TXN-1"),
        buyer_key: text("BUYER-1"),
        ..empty()
    }
}

fn item(status: &str, sale: &str, transaction: &str) -> InboundItem {
    InboundItem {
        sale_status: text(status),
        sale_payme_id: text(sale),
        payme_transaction_id: text(transaction),
    }
}

fn list(items: Vec<InboundItem>) -> InboundPayload {
    InboundPayload { items: ItemsField::List(items), ..empty() }
}

#[test]
fn status_tags() {
    let table = [
        ("initial", SaleStatus::Initial),
        ("completed", SaleStatus::Completed),
        ("refunded", SaleStatus::Refunded),
        ("partial-refund", SaleStatus::PartialRefund),
        ("authorized", SaleStatus::Authorized),
        ("voided", SaleStatus::Voided),
        ("partial-void", SaleStatus::PartialVoid),
        ("failed", SaleStatus::Failed),
        ("chargeback", SaleStatus::Chargeback),
    ];
    for (tag, status) in table {
        assert_eq!(parse_sale_status(tag), Some(status));
        assert_eq!(sale_status_as_tag(status), tag);
    }
    assert_eq!(parse_sale_status("Completed"), None);
    assert_eq!(parse_sale_status("partial_refund"), None);
    assert_eq!(parse_sale_status(""), None);
}

#[test]
fn notify_type_tags() {
    let table = [
        ("sale-complete", NotifyType::SaleComplete),
        ("sale-authorized", NotifyType::SaleAuthorized),
        ("refund", NotifyType::Refund),
        ("sale-failure", NotifyType::SaleFailure),
        ("sale-chargeback", NotifyType::SaleChargeback),
        ("sale-chargeback-refund", NotifyType::SaleChargebackRefund),
    ];
    for (tag, notify_type) in table {
        assert_eq!(parse_notify_type(tag), Some(notify_type));
    }
    assert_eq!(parse_notify_type("sale"), None);
}

#[test]
fn single_reply_is_read() {
    let reply = single().as_pay_sale().unwrap();
    assert!(
        reply
            == PaymePaySaleResponse {
                sale_status: SaleStatus::Completed,
                payme_sale_id: "SALE-1".to_string(),
                payme_transaction_id: "TXN-1".to_string(),
                buyer_key: Some(Secret::new("BUYER-1".to_string())),
            }
    );
    let without_key = InboundPayload { buyer_key: Field::Absent, ..single() };
    assert!(without_key.as_pay_sale().unwrap().buyer_key.is_none());
}

#[test]
fn single_reply_needs_its_members() {
    assert!(InboundPayload { sale_status: Field::Absent, ..single() }.as_pay_sale().is_none());
    assert!(InboundPayload { sale_status: text("done"), ..single() }.as_pay_sale().is_none());
    assert!(InboundPayload { payme_sale_id: Field::Other, ..single() }.as_pay_sale().is_none());
    assert!(InboundPayload { payme_transaction_id: Field::Absent, ..single() }
        .as_pay_sale()
        .is_none());
    assert!(InboundPayload { buyer_key: Field::Other, ..single() }.as_pay_sale().is_none());
}

#[test]
fn query_reply_is_read() {
    let payload = list(vec![item("completed", "SALE-1", "TXN-1"), item("failed", "SALE-2", "TXN-2")]);
    assert_eq!(
        payload.as_sale_query(),
        Some(SaleQueryResponse {
            items: vec![
                SaleQuery { sale_status: SaleStatus::Completed, sale_payme_id: "SALE-1".to_string() },
                SaleQuery { sale_status: SaleStatus::Failed, sale_payme_id: "SALE-2".to_string() },
            ],
        })
    );
    assert_eq!(list(vec![]).as_sale_query(), Some(SaleQueryResponse { items: vec![] }));
}

#[test]
fn one_bad_element_spoils_the_query_reply() {
    let payload = list(vec![item("completed", "SALE-1", "TXN-1"), item("unknown", "SALE-2", "TXN-2")]);
    assert_eq!(payload.as_sale_query(), None);
    assert!(payload.resolve(EntityKind::Attempt) == Err(ConnectorError::ResponseHandlingFailed));
    assert!(payload.as_transaction_query().is_none());
    assert!(empty().as_sale_query().is_none());
    assert!(InboundPayload { items: ItemsField::Other, ..empty() }.as_sale_query().is_none());
}

#[test]
fn resolve_tries_the_single_reply_first() {
    let both = InboundPayload {
        items: ItemsField::List(vec![item("failed", "SALE-2", "TXN-2")]),
        ..single()
    };
    assert!(both.fits_both_payment_shapes());
    assert!(!single().fits_both_payment_shapes());
    assert!(
        both.resolve(EntityKind::Attempt)
            == Ok(RawEnvelope {
                raw_status: SaleStatus::Completed,
                resource_id: "SALE-1".to_string(),
                secondary_id: Some("TXN-1".to_string()),
                token: Some(Secret::new("BUYER-1".to_string())),
            })
    );
    assert!(matches!(
        both.as_payments_response(),
        Ok(PaymePaymentsResponse::PaymePaySaleResponse(_))
    ));
}

#[test]
fn resolve_reads_the_first_element_of_a_query_reply() {
    let payload = list(vec![item("voided", "SALE-1", "TXN-1"), item("failed", "SALE-2", "TXN-2")]);
    assert!(
        payload.resolve(EntityKind::Attempt)
            == Ok(RawEnvelope {
                raw_status: SaleStatus::Voided,
                resource_id: "SALE-1".to_string(),
                secondary_id: None,
                token: None,
            })
    );
    assert!(
        payload.resolve(EntityKind::Refund)
            == Ok(RawEnvelope {
                raw_status: SaleStatus::Voided,
                resource_id: "TXN-1".to_string(),
                secondary_id: None,
                token: None,
            })
    );
}

#[test]
fn resolve_fails_on_no_shape_and_on_empty_list() {
    assert!(empty().resolve(EntityKind::Attempt) == Err(ConnectorError::ResponseHandlingFailed));
    assert!(empty().resolve(EntityKind::Refund) == Err(ConnectorError::ResponseHandlingFailed));
    assert!(list(vec![]).resolve(EntityKind::Attempt) == Err(ConnectorError::ResponseHandlingFailed));
    assert!(list(vec![]).resolve(EntityKind::Refund) == Err(ConnectorError::ResponseHandlingFailed));
    assert!(empty().as_payments_response() == Err(ConnectorError::ResponseHandlingFailed));
}

#[test]
fn refund_reply_is_read() {
    let payload = InboundPayload {
        sale_status: text("refunded"),
        payme_transaction_id: text("TXN-R"),
        ..empty()
    };
    let reply = payload.as_refund().unwrap();
    assert_eq!(reply.sale_status, SaleStatus::Refunded);
    assert_eq!(reply.payme_transaction_id, "TXN-R");
    assert!(
        payload.resolve(EntityKind::Refund)
            == Ok(RawEnvelope {
                raw_status: SaleStatus::Refunded,
                resource_id: "TXN-R".to_string(),
                secondary_id: None,
                token: None,
            })
    );
    assert!(payload.as_pay_sale().is_none());
}

#[test]
fn webhook_body_is_read() {
    let payload = InboundPayload {
        payme_signature: text("sig"),
        notify_type: text("sale-complete"),
        ..single()
    };
    let body = payload.as_webhook().unwrap();
    assert!(body.sale_status == SaleStatus::Completed);
    assert!(body.notify_type == NotifyType::SaleComplete);
    assert!(body.payme_signature == Secret::new("sig".to_string()));
    assert!(body.buyer_key == Some(Secret::new("BUYER-1".to_string())));
    assert_eq!(body.payme_sale_id, "SALE-1");
    assert_eq!(body.payme_transaction_id, "TXN-1");
    assert!(PaymePaySaleResponse::from(body) == payload.as_pay_sale().unwrap());
    assert!(single().as_webhook().is_none());
    assert!(InboundPayload { notify_type: text("sale"), ..payload }.as_webhook().is_none());
}

#[test]
fn webhook_parts_are_read() {
    let payload = InboundPayload {
        payme_signature: text("sig"),
        notify_type: text("refund"),
        ..empty()
    };
    assert_eq!(
        payload.as_webhook_event(),
        Some(WebhookEventDataResourceEvent { notify_type: NotifyType::Refund })
    );
    assert!(
        payload.as_webhook_signature()
            == Some(WebhookEventDataResourceSignature {
                payme_signature: Secret::new("sig".to_string())
            })
    );
    assert_eq!(empty().as_webhook_event(), None);
    assert!(empty().as_webhook_signature().is_none());
    assert!(InboundPayload { payme_signature: Field::Other, ..empty() }
        .as_webhook_signature()
        .is_none());
}

#[test]
fn generate_sale_reply_is_read() {
    assert_eq!(
        single().as_generate_sale(),
        Some(GenerateSaleResponse { payme_sale_id: "SALE-1".to_string() })
    );
    assert_eq!(empty().as_generate_sale(), None);
}

fn record() -> RouterData<(), PaymentsResponseData> {
    RouterData {
        merchant_id: "merchant_1".to_string(),
        customer_id: None,
        connector_customer: None,
        connector: "payme".to_string(),
        payment_id: "pay_1".to_string(),
        attempt_id: "pay_1_1".to_string(),
        status: AttemptStatus::Pending,
        payment_method: PaymentMethod::Card,
        connector_auth_type: ConnectorAuthType::NoKey,
        description: None,
        return_url: None,
        address: PaymentAddress { shipping: None, billing: None },
        auth_type: AuthenticationType::NoThreeDs,
        connector_meta_data: None,
        amount_captured: None,
        session_token: None,
        reference_id: None,
        payment_method_token: None,
        preprocessing_id: None,
        payment_method_id: None,
        connector_request_reference_id: "pay_1_1".to_string(),
        payout_method_data: None,
        quote_id: None,
        test_mode: None,
        request: (),
        response: Err(ErrorResponse::default()),
    }
}

#[test]
fn completed_payload_ends_as_charged() {
    let updated = RouterData::apply_payload(record(), &single()).ok().unwrap();
    assert_eq!(updated.status, AttemptStatus::Charged);
    match updated.response {
        Ok(PaymentsResponseData::TransactionResponse { resource_id, connector_metadata, .. }) => {
            assert_eq!(resource_id, ResponseId::ConnectorTransactionId("SALE-1".to_string()));
            assert_eq!(connector_metadata, Some("{\"payme_transaction_id\":\"TXN-1\"}".to_string()));
        }
        _ => panic!("no transaction on record"),
    }
}

#[test]
fn chargeback_payload_ends_as_auto_refunded() {
    let payload = list(vec![item("chargeback", "SALE-1", "TXN-1")]);
    let updated = RouterData::apply_payload(record(), &payload).ok().unwrap();
    assert_eq!(updated.status, AttemptStatus::AutoRefunded);
}

#[test]
fn unreadable_payload_fails() {
    assert!(
        RouterData::apply_payload(record(), &empty())
            == Err(ConnectorError::ResponseHandlingFailed)
    );
    assert!(
        RouterData::apply_payload(record(), &list(vec![]))
            == Err(ConnectorError::ResponseHandlingFailed)
    );
}
