use vstd::prelude::*;
use vstd::string::*;
use crate::consts::{
    IRRELEVANT_ATTEMPT_ID_IN_DISPUTE_FLOW, IRRELEVANT_CONNECTOR_REQUEST_REFERENCE_ID_IN_DISPUTE_FLOW,
    IRRELEVANT_PAYMENT_ID_IN_DISPUTE_FLOW,
};
use crate::enums::{AttemptStatus, AuthenticationType, Currency, PaymentMethod};
use crate::errors::{is_missing_api_field, ApiErrorResponse};
use crate::types::{
    is_default_error, is_not_implemented_error, AcceptDisputeRequestData, AcceptDisputeRouterData,
    ConnectorAuthType, CreateFileRequest, DefendDisputeRequestData, DefendDisputeRouterData,
    Dispute, ErrorResponse, FileMetadata, MerchantAccount, MerchantConnectorAccount,
    PaymentAddress, PaymentAttempt, PaymentIntent, Refund, RefundsData, RefundsResponseData,
    RefundsRouterData, RetrieveFileRequestData, RetrieveFileRouterData, RouterData, Settings,
    SubmitEvidenceRequestData, SubmitEvidenceRouterData, UploadFileRequestData,
    UploadFileRouterData,
};
use crate::utils::{get_connector_request_reference_id, merchant_listed};

verus! {

/// The request reference of a flow that has no attempt behind it.
pub open spec fn irrelevant_reference_id() -> Seq<char> {
    IRRELEVANT_CONNECTOR_REQUEST_REFERENCE_ID_IN_DISPUTE_FLOW@
}

/// The payment id of a flow that has no payment behind it.
pub open spec fn irrelevant_payment_id() -> Seq<char> {
    IRRELEVANT_PAYMENT_ID_IN_DISPUTE_FLOW@
}

/// The attempt id of a flow that has no attempt behind it.
pub open spec fn irrelevant_attempt_id() -> Seq<char> {
    IRRELEVANT_ATTEMPT_ID_IN_DISPUTE_FLOW@
}

/// The address at which a gateway reaches the merchant's webhooks.
pub open spec fn webhook_url_text(
    base_url: Seq<char>,
    merchant_id: Seq<char>,
    connector_name: Seq<char>,
) -> Seq<char> {
    base_url + "/webhooks/"@ + merchant_id + "/"@ + connector_name
}

/// Writes the address at which a gateway reaches the merchant's webhooks.
pub fn create_webhook_url(base_url: &str, merchant_id: &str, connector_name: &str) -> (url: String)
    ensures
        url@ == webhook_url_text(base_url@, merchant_id@, connector_name@),
{
    let mut url = String::from_str(base_url);
    url.append("/webhooks/");
    url.append(merchant_id);
    url.append("/");
    url.append(connector_name);
    url
}

/// The label under which a merchant's account with a gateway is stored:
/// gateway, country and business, and the sub-label where there is one, with
/// underscores between them.
pub open spec fn connector_label_text(
    business_country: Seq<char>,
    business_label: Seq<char>,
    business_sub_label: Option<Seq<char>>,
    connector_name: Seq<char>,
) -> Seq<char> {
    let label = connector_name + "_"@ + business_country + "_"@ + business_label;
    match business_sub_label {
        Some(sub_label) => label + "_"@ + sub_label,
        None => label,
    }
}

/// Writes the label under which a merchant's account with a gateway is
/// stored.
pub fn get_connector_label(
    business_country: &str,
    business_label: &str,
    business_sub_label: Option<&String>,
    connector_name: &str,
) -> (label: String)
    ensures
        label@ == connector_label_text(
            business_country@,
            business_label@,
            match business_sub_label {
                Some(sub_label) => Some(sub_label@),
                None => None,
            },
            connector_name@,
        ),
{
    let mut label = String::from_str(connector_name);
    label.append("_");
    label.append(business_country);
    label.append("_");
    label.append(business_label);
    match business_sub_label {
        Some(sub_label) => {
            label.append("_");
            label.append(sub_label.as_str());
        },
        None => {},
    }
    label
}

/// The authentication type on record, or the usual one where none is.
pub open spec fn authentication_type_or_default(
    authentication_type: Option<AuthenticationType>,
) -> AuthenticationType {
    match authentication_type {
        Some(auth) => auth,
        None => AuthenticationType::NoThreeDs,
    }
}

/// `record` is the record with which a flow about a stored attempt begins:
/// identity, status and payment method come from the attempt, credentials,
/// metadata and test mode from the merchant's account with the gateway, and
/// the request reference follows the settings. Request and response are not
/// spoken of.
pub open spec fn is_attempt_record<Request, Response>(
    record: RouterData<Request, Response>,
    conf: &Settings,
    connector_id: Seq<char>,
    merchant_account: MerchantAccount,
    merchant_connector_account: MerchantConnectorAccount,
    payment_intent: PaymentIntent,
    payment_attempt: PaymentAttempt,
    customer_id: Option<String>,
) -> bool {
    &&& record.merchant_id == merchant_account.merchant_id
    &&& record.customer_id == customer_id
    &&& record.connector_customer is None
    &&& record.connector@ == connector_id
    &&& record.payment_id == payment_attempt.payment_id
    &&& record.attempt_id == payment_attempt.attempt_id
    &&& record.status == payment_attempt.status
    &&& Some(record.payment_method) == payment_attempt.payment_method
    &&& Some(record.connector_auth_type) == merchant_connector_account.connector_account_details
    &&& record.description is None
    &&& record.return_url == payment_intent.return_url
    &&& record.address == (PaymentAddress { shipping: None, billing: None })
    &&& record.auth_type == authentication_type_or_default(payment_attempt.authentication_type)
    &&& record.connector_meta_data == merchant_connector_account.metadata
    &&& record.amount_captured == payment_intent.amount_captured
    &&& record.session_token is None
    &&& record.reference_id is None
    &&& record.payment_method_token is None
    &&& record.preprocessing_id is None
    &&& record.payment_method_id == payment_attempt.payment_method_id
    &&& record.connector_request_reference_id == if merchant_listed(
        conf,
        merchant_account.merchant_id@,
    ) {
        payment_attempt.payment_id
    } else {
        payment_attempt.attempt_id
    }
    &&& record.payout_method_data is None
    &&& record.quote_id is None
    &&& record.test_mode == merchant_connector_account.test_mode
}

/// Begins the record of a flow about a stored attempt, once credentials and
/// payment method are known and request and response are made.
fn attempt_record<Request, Response>(
    conf: &Settings,
    connector_id: &str,
    merchant_account: &MerchantAccount,
    merchant_connector_account: &MerchantConnectorAccount,
    payment_intent: &PaymentIntent,
    payment_attempt: &PaymentAttempt,
    customer_id: Option<String>,
    auth_type: ConnectorAuthType,
    payment_method: PaymentMethod,
    request: Request,
    response: Result<Response, ErrorResponse>,
) -> (record: RouterData<Request, Response>)
    requires
        Some(auth_type) == merchant_connector_account.connector_account_details,
        Some(payment_method) == payment_attempt.payment_method,
    ensures
        is_attempt_record(
            record,
            conf,
            connector_id@,
            *merchant_account,
            *merchant_connector_account,
            *payment_intent,
            *payment_attempt,
            customer_id,
        ),
        record.request == request,
        record.response == response,
{
    RouterData {
        merchant_id: merchant_account.merchant_id.clone(),
        customer_id,
        connector_customer: None,
        connector: connector_id.to_owned(),
        payment_id: payment_attempt.payment_id.clone(),
        attempt_id: payment_attempt.attempt_id.clone(),
        status: payment_attempt.status,
        payment_method,
        connector_auth_type: auth_type,
        description: None,
        return_url: payment_intent.return_url.clone(),
        address: PaymentAddress::default(),
        auth_type: match payment_attempt.authentication_type {
            Some(auth) => auth,
            None => AuthenticationType::default(),
        },
        connector_meta_data: merchant_connector_account.metadata.clone(),
        amount_captured: payment_intent.amount_captured,
        session_token: None,
        reference_id: None,
        payment_method_token: None,
        preprocessing_id: None,
        payment_method_id: payment_attempt.payment_method_id.clone(),
        connector_request_reference_id: get_connector_request_reference_id(
            conf,
            merchant_account.merchant_id.as_str(),
            payment_attempt,
        ),
        payout_method_data: None,
        quote_id: None,
        test_mode: merchant_connector_account.test_mode,
        request,
        response,
    }
}

/// `request` asks for the refund on record: ids, amounts and reason as
/// stored, and the merchant's webhook address with the gateway.
pub open spec fn is_refund_request(
    request: RefundsData,
    base_url: Seq<char>,
    connector_id: Seq<char>,
    merchant_account: MerchantAccount,
    money: (i64, Currency),
    payment_attempt: PaymentAttempt,
    refund: Refund,
) -> bool {
    &&& request.refund_id == refund.refund_id
    &&& request.connector_transaction_id == refund.connector_transaction_id
    &&& request.refund_amount == refund.refund_amount
    &&& request.currency == money.1
    &&& request.payment_amount == money.0
    &&& request.webhook_url matches Some(url) && url@ == webhook_url_text(
        base_url,
        merchant_account.merchant_id@,
        connector_id,
    )
    &&& request.connector_metadata == payment_attempt.connector_metadata
    &&& request.reason == refund.refund_reason
    &&& request.connector_refund_id == refund.connector_refund_id
}

/// `response` is what is known of a refund before the gateway is asked: the
/// status on record and the gateway's refund id, empty where none is known.
pub open spec fn is_stored_refund_response(
    response: Result<RefundsResponseData, ErrorResponse>,
    refund: Refund,
) -> bool {
    &&& response matches Ok(data)
    &&& data.refund_status == refund.refund_status
    &&& data.connector_refund_id@ == match refund.connector_refund_id {
        Some(id) => id@,
        None => Seq::<char>::empty(),
    }
}

/// Begins the record of a refund call. The merchant's account with the
/// gateway was fetched by the caller. Credentials that cannot be read, and an
/// attempt without a payment method, are internal errors.
pub fn construct_refund_router_data(
    conf: &Settings,
    base_url: &str,
    connector_id: &str,
    merchant_account: &MerchantAccount,
    merchant_connector_account: &MerchantConnectorAccount,
    money: (i64, Currency),
    payment_intent: &PaymentIntent,
    payment_attempt: &PaymentAttempt,
    refund: &Refund,
) -> (result: Result<RefundsRouterData, ApiErrorResponse>)
    ensures
        match result {
            Ok(record) => {
                &&& is_attempt_record(
                    record,
                    conf,
                    connector_id@,
                    *merchant_account,
                    *merchant_connector_account,
                    *payment_intent,
                    *payment_attempt,
                    payment_intent.customer_id,
                )
                &&& is_refund_request(
                    record.request,
                    base_url@,
                    connector_id@,
                    *merchant_account,
                    money,
                    *payment_attempt,
                    *refund,
                )
                &&& is_stored_refund_response(record.response, *refund)
            },
            Err(error) => {
                &&& error == ApiErrorResponse::InternalServerError
                &&& merchant_connector_account.connector_account_details is None
                    || payment_attempt.payment_method is None
            },
        },
{
    let auth_type = match &merchant_connector_account.connector_account_details {
        Some(auth_type) => auth_type.clone(),
        None => { return Err(ApiErrorResponse::InternalServerError); },
    };
    let payment_method_type = match payment_attempt.payment_method {
        Some(payment_method) => payment_method,
        None => { return Err(ApiErrorResponse::InternalServerError); },
    };
    let (payment_amount, currency) = money;
    let webhook_url = Some(
        create_webhook_url(base_url, merchant_account.merchant_id.as_str(), connector_id),
    );
    let request = RefundsData {
        refund_id: refund.refund_id.clone(),
        connector_transaction_id: refund.connector_transaction_id.clone(),
        refund_amount: refund.refund_amount,
        currency,
        payment_amount,
        webhook_url,
        connector_metadata: payment_attempt.connector_metadata.clone(),
        reason: refund.refund_reason.clone(),
        connector_refund_id: refund.connector_refund_id.clone(),
    };
    let response = Ok(
        RefundsResponseData {
            connector_refund_id: match &refund.connector_refund_id {
                Some(id) => id.clone(),
                None => String::new(),
            },
            refund_status: refund.refund_status,
        },
    );
    Ok(
        attempt_record(
            conf,
            connector_id,
            merchant_account,
            merchant_connector_account,
            payment_intent,
            payment_attempt,
            payment_intent.customer_id.clone(),
            auth_type,
            payment_method_type,
            request,
            response,
        ),
    )
}

/// What stands in the way of a dispute flow: credentials that cannot be
/// read are an internal error, an attempt without a payment method is
/// reported as a missing field.
pub open spec fn is_dispute_flow_error(
    error: ApiErrorResponse,
    merchant_connector_account: MerchantConnectorAccount,
    payment_attempt: PaymentAttempt,
) -> bool {
    if merchant_connector_account.connector_account_details is None {
        error == ApiErrorResponse::InternalServerError
    } else {
        payment_attempt.payment_method is None && is_missing_api_field(
            error,
            "payment_method_type"@,
        )
    }
}

/// Reads credentials and payment method for a dispute flow.
fn dispute_flow_inputs(
    merchant_connector_account: &MerchantConnectorAccount,
    payment_attempt: &PaymentAttempt,
) -> (result: Result<(ConnectorAuthType, PaymentMethod), ApiErrorResponse>)
    ensures
        match result {
            Ok((auth_type, payment_method)) => {
                &&& Some(auth_type) == merchant_connector_account.connector_account_details
                &&& Some(payment_method) == payment_attempt.payment_method
            },
            Err(error) => is_dispute_flow_error(
                error,
                *merchant_connector_account,
                *payment_attempt,
            ),
        },
{
    let auth_type = match &merchant_connector_account.connector_account_details {
        Some(auth_type) => auth_type.clone(),
        None => { return Err(ApiErrorResponse::InternalServerError); },
    };
    match payment_attempt.payment_method {
        Some(payment_method) => Ok((auth_type, payment_method)),
        None => Err(
            ApiErrorResponse::MissingRequiredField { field_name: "payment_method_type".to_owned() },
        ),
    }
}

/// Begins the record of the call that accepts a dispute.
pub fn construct_accept_dispute_router_data(
    conf: &Settings,
    merchant_connector_account: &MerchantConnectorAccount,
    payment_intent: &PaymentIntent,
    payment_attempt: &PaymentAttempt,
    merchant_account: &MerchantAccount,
    dispute: &Dispute,
) -> (result: Result<AcceptDisputeRouterData, ApiErrorResponse>)
    ensures
        match result {
            Ok(record) => {
                &&& is_attempt_record(
                    record,
                    conf,
                    dispute.connector@,
                    *merchant_account,
                    *merchant_connector_account,
                    *payment_intent,
                    *payment_attempt,
                    None,
                )
                &&& record.request == (AcceptDisputeRequestData {
                    dispute_id: dispute.dispute_id,
                    connector_dispute_id: dispute.connector_dispute_id,
                })
                &&& record.response matches Err(response) && is_default_error(response)
            },
            Err(error) => is_dispute_flow_error(
                error,
                *merchant_connector_account,
                *payment_attempt,
            ),
        },
{
    let (auth_type, payment_method) = match dispute_flow_inputs(
        merchant_connector_account,
        payment_attempt,
    ) {
        Ok(inputs) => inputs,
        Err(error) => { return Err(error); },
    };
    let request = AcceptDisputeRequestData {
        dispute_id: dispute.dispute_id.clone(),
        connector_dispute_id: dispute.connector_dispute_id.clone(),
    };
    Ok(
        attempt_record(
            conf,
            dispute.connector.as_str(),
            merchant_account,
            merchant_connector_account,
            payment_intent,
            payment_attempt,
            None,
            auth_type,
            payment_method,
            request,
            Err(ErrorResponse::default()),
        ),
    )
}

/// Begins the record of the call that hands in evidence for a dispute.
pub fn construct_submit_evidence_router_data(
    conf: &Settings,
    merchant_connector_account: &MerchantConnectorAccount,
    payment_intent: &PaymentIntent,
    payment_attempt: &PaymentAttempt,
    merchant_account: &MerchantAccount,
    dispute: &Dispute,
    submit_evidence_request_data: SubmitEvidenceRequestData,
) -> (result: Result<SubmitEvidenceRouterData, ApiErrorResponse>)
    ensures
        match result {
            Ok(record) => {
                &&& is_attempt_record(
                    record,
                    conf,
                    dispute.connector@,
                    *merchant_account,
                    *merchant_connector_account,
                    *payment_intent,
                    *payment_attempt,
                    None,
                )
                &&& record.request == submit_evidence_request_data
                &&& record.response matches Err(response) && is_default_error(response)
            },
            Err(error) => is_dispute_flow_error(
                error,
                *merchant_connector_account,
                *payment_attempt,
            ),
        },
{
    let (auth_type, payment_method) = match dispute_flow_inputs(
        merchant_connector_account,
        payment_attempt,
    ) {
        Ok(inputs) => inputs,
        Err(error) => { return Err(error); },
    };
    Ok(
        attempt_record(
            conf,
            dispute.connector.as_str(),
            merchant_account,
            merchant_connector_account,
            payment_intent,
            payment_attempt,
            None,
            auth_type,
            payment_method,
            submit_evidence_request_data,
            Err(ErrorResponse::default()),
        ),
    )
}

/// Begins the record of the call that uploads a file.
pub fn construct_upload_file_router_data(
    conf: &Settings,
    merchant_connector_account: &MerchantConnectorAccount,
    payment_intent: &PaymentIntent,
    payment_attempt: &PaymentAttempt,
    merchant_account: &MerchantAccount,
    create_file_request: &CreateFileRequest,
    connector_id: &str,
    file_key: String,
) -> (result: Result<UploadFileRouterData, ApiErrorResponse>)
    ensures
        match result {
            Ok(record) => {
                &&& is_attempt_record(
                    record,
                    conf,
                    connector_id@,
                    *merchant_account,
                    *merchant_connector_account,
                    *payment_intent,
                    *payment_attempt,
                    None,
                )
                &&& record.request.file_key == file_key
                &&& record.request.file@ == create_file_request.file@
                &&& record.request.file_type == create_file_request.file_type
                &&& record.request.file_size == create_file_request.file_size
                &&& record.response matches Err(response) && is_default_error(response)
            },
            Err(error) => is_dispute_flow_error(
                error,
                *merchant_connector_account,
                *payment_attempt,
            ),
        },
{
    let (auth_type, payment_method) = match dispute_flow_inputs(
        merchant_connector_account,
        payment_attempt,
    ) {
        Ok(inputs) => inputs,
        Err(error) => { return Err(error); },
    };
    let request = UploadFileRequestData {
        file_key,
        file: create_file_request.file.clone(),
        file_type: create_file_request.file_type.clone(),
        file_size: create_file_request.file_size,
    };
    Ok(
        attempt_record(
            conf,
            connector_id,
            merchant_account,
            merchant_connector_account,
            payment_intent,
            payment_attempt,
            None,
            auth_type,
            payment_method,
            request,
            Err(ErrorResponse::default()),
        ),
    )
}

/// Begins the record of the call that defends a dispute. The call is not
/// offered yet, and the record says so until a gateway answers.
pub fn construct_defend_dispute_router_data(
    conf: &Settings,
    merchant_connector_account: &MerchantConnectorAccount,
    payment_intent: &PaymentIntent,
    payment_attempt: &PaymentAttempt,
    merchant_account: &MerchantAccount,
    dispute: &Dispute,
) -> (result: Result<DefendDisputeRouterData, ApiErrorResponse>)
    ensures
        match result {
            Ok(record) => {
                &&& is_attempt_record(
                    record,
                    conf,
                    dispute.connector@,
                    *merchant_account,
                    *merchant_connector_account,
                    *payment_intent,
                    *payment_attempt,
                    None,
                )
                &&& record.request == (DefendDisputeRequestData {
                    dispute_id: dispute.dispute_id,
                    connector_dispute_id: dispute.connector_dispute_id,
                })
                &&& record.response matches Err(response) && is_not_implemented_error(response)
            },
            Err(error) => is_dispute_flow_error(
                error,
                *merchant_connector_account,
                *payment_attempt,
            ),
        },
{
    let (auth_type, payment_method) = match dispute_flow_inputs(
        merchant_connector_account,
        payment_attempt,
    ) {
        Ok(inputs) => inputs,
        Err(error) => { return Err(error); },
    };
    let request = DefendDisputeRequestData {
        dispute_id: dispute.dispute_id.clone(),
        connector_dispute_id: dispute.connector_dispute_id.clone(),
    };
    Ok(
        attempt_record(
            conf,
            dispute.connector.as_str(),
            merchant_account,
            merchant_connector_account,
            payment_intent,
            payment_attempt,
            None,
            auth_type,
            payment_method,
            request,
            Err(ErrorResponse::get_not_implemented()),
        ),
    )
}

/// The label under which the caller looks up the merchant's account with
/// the gateway that holds a file. A file without one cannot be fetched.
pub fn retrieve_file_connector_label(file_metadata: &FileMetadata) -> (result: Result<
    String,
    ApiErrorResponse,
>)
    ensures
        result == match file_metadata.connector_label {
            Some(label) => Ok::<String, ApiErrorResponse>(label),
            None => Err::<String, ApiErrorResponse>(ApiErrorResponse::InternalServerError),
        },
{
    match &file_metadata.connector_label {
        Some(label) => Ok(label.clone()),
        None => Err(ApiErrorResponse::InternalServerError),
    }
}

/// `record` is the record with which the fetching of a file begins. No
/// payment stands behind it, so ids and request reference say as much, and
/// status, payment method and authentication type are the usual ones.
pub open spec fn is_retrieve_file_record(
    record: RetrieveFileRouterData,
    merchant_account: MerchantAccount,
    merchant_connector_account: MerchantConnectorAccount,
    file_metadata: FileMetadata,
    connector_id: Seq<char>,
) -> bool {
    &&& record.merchant_id == merchant_account.merchant_id
    &&& record.customer_id is None
    &&& record.connector_customer is None
    &&& record.connector@ == connector_id
    &&& record.payment_id@ == irrelevant_payment_id()
    &&& record.attempt_id@ == irrelevant_attempt_id()
    &&& record.status == AttemptStatus::Pending
    &&& record.payment_method == PaymentMethod::Card
    &&& Some(record.connector_auth_type) == merchant_connector_account.connector_account_details
    &&& record.description is None
    &&& record.return_url is None
    &&& record.address == (PaymentAddress { shipping: None, billing: None })
    &&& record.auth_type == AuthenticationType::NoThreeDs
    &&& record.connector_meta_data == merchant_connector_account.metadata
    &&& record.amount_captured is None
    &&& record.session_token is None
    &&& record.reference_id is None
    &&& record.payment_method_token is None
    &&& record.preprocessing_id is None
    &&& record.payment_method_id is None
    &&& record.connector_request_reference_id@ == irrelevant_reference_id()
    &&& record.payout_method_data is None
    &&& record.quote_id is None
    &&& record.test_mode == merchant_connector_account.test_mode
    &&& Some(record.request.provider_file_id) == file_metadata.provider_file_id
    &&& record.response matches Err(response) && is_default_error(response)
}

/// Begins the record of the call that fetches a file. A file without the
/// label of its gateway account is refused before anything else; credentials
/// that cannot be read, and a file without the gateway's id, are internal
/// errors too.
pub fn construct_retrieve_file_router_data(
    merchant_account: &MerchantAccount,
    merchant_connector_account: &MerchantConnectorAccount,
    file_metadata: &FileMetadata,
    connector_id: &str,
) -> (result: Result<RetrieveFileRouterData, ApiErrorResponse>)
    ensures
        match result {
            Ok(record) => {
                &&& file_metadata.connector_label is Some
                &&& is_retrieve_file_record(
                    record,
                    *merchant_account,
                    *merchant_connector_account,
                    *file_metadata,
                    connector_id@,
                )
            },
            Err(error) => {
                &&& error == ApiErrorResponse::InternalServerError
                &&& file_metadata.connector_label is None
                    || merchant_connector_account.connector_account_details is None
                    || file_metadata.provider_file_id is None
            },
        },
{
    match retrieve_file_connector_label(file_metadata) {
        Ok(_) => {},
        Err(error) => { return Err(error); },
    }
    let auth_type = match &merchant_connector_account.connector_account_details {
        Some(auth_type) => auth_type.clone(),
        None => { return Err(ApiErrorResponse::InternalServerError); },
    };
    let provider_file_id = match &file_metadata.provider_file_id {
        Some(id) => id.clone(),
        None => { return Err(ApiErrorResponse::InternalServerError); },
    };
    Ok(
        RouterData {
            merchant_id: merchant_account.merchant_id.clone(),
            customer_id: None,
            connector_customer: None,
            connector: connector_id.to_owned(),
            payment_id: IRRELEVANT_PAYMENT_ID_IN_DISPUTE_FLOW.to_owned(),
            attempt_id: IRRELEVANT_ATTEMPT_ID_IN_DISPUTE_FLOW.to_owned(),
            status: AttemptStatus::default(),
            payment_method: PaymentMethod::default(),
            connector_auth_type: auth_type,
            description: None,
            return_url: None,
            address: PaymentAddress::default(),
            auth_type: AuthenticationType::default(),
            connector_meta_data: merchant_connector_account.metadata.clone(),
            amount_captured: None,
            session_token: None,
            reference_id: None,
            payment_method_token: None,
            preprocessing_id: None,
            payment_method_id: None,
            connector_request_reference_id: IRRELEVANT_CONNECTOR_REQUEST_REFERENCE_ID_IN_DISPUTE_FLOW.to_owned(),
            payout_method_data: None,
            quote_id: None,
            test_mode: merchant_connector_account.test_mode,
            request: RetrieveFileRequestData { provider_file_id },
            response: Err(ErrorResponse::default()),
        },
    )
}

} // verus!
