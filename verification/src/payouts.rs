use vstd::prelude::*;
use crate::consts::IRRELEVANT_CONNECTOR_REQUEST_REFERENCE_ID_IN_DISPUTE_FLOW;
use crate::enums::{AttemptStatus, AuthenticationType, Currency, PaymentMethod};
use crate::errors::{is_missing_api_field, ApiErrorResponse};
use crate::flows::{connector_label_text, get_connector_label, irrelevant_reference_id};
use crate::types::{
    Address, AddressDetails, MerchantAccount, MerchantConnectorAccount, PaymentAddress,
    PayoutMethodData, PhoneDetails, RouterData, Secret,
};

verus! {

/// Who receives a payout.
#[derive(Clone, Copy, Debug, PartialEq, Eq, Structural)]
pub enum PayoutEntityType {
    Individual,
    Company,
    NonProfit,
    PublicSector,
}

/// By which means a payout is made.
#[derive(Clone, Copy, Debug, PartialEq, Eq, Structural)]
pub enum PayoutType {
    Card,
    Bank,
}

/// How far a payout has come.
#[derive(Clone, Copy, Debug, PartialEq, Eq, Structural)]
pub enum PayoutStatus {
    Success,
    Failed,
    Cancelled,
    Pending,
    Ineligible,
    RequiresCreation,
    RequiresPayoutMethodData,
    RequiresFulfillment,
}

/// A stored payout.
#[derive(Clone, Debug, PartialEq, Eq)]
pub struct Payouts {
    pub payout_id: String,
    pub amount: i64,
    pub destination_currency: Currency,
    pub source_currency: Currency,
    pub entity_type: PayoutEntityType,
    pub payout_type: PayoutType,
    pub return_url: Option<String>,
}

/// The stored attempt of a payout.
#[derive(Clone, Debug, PartialEq, Eq)]
pub struct PayoutAttempt {
    pub connector_payout_id: String,
    pub business_country: Option<String>,
    pub business_label: Option<String>,
}

/// A stored customer. Of what a gateway knows the customer by, the id is
/// kept, decoded by the caller.
#[derive(Clone, PartialEq, Eq)]
pub struct Customer {
    pub customer_id: String,
    pub name: Option<Secret<String>>,
    pub email: Option<Secret<String>>,
    pub phone: Option<Secret<String>>,
    pub phone_country_code: Option<String>,
    pub connector_customer_id: Option<String>,
}

/// A stored address.
#[derive(Clone, PartialEq, Eq)]
pub struct StoredAddress {
    pub city: Option<String>,
    pub country: Option<String>,
    pub line1: Option<Secret<String>>,
    pub line2: Option<Secret<String>>,
    pub line3: Option<Secret<String>>,
    pub zip: Option<Secret<String>>,
    pub state: Option<Secret<String>>,
    pub first_name: Option<Secret<String>>,
    pub last_name: Option<Secret<String>>,
    pub phone_number: Option<Secret<String>>,
    pub country_code: Option<String>,
}

/// All that is at hand about a payout while a flow runs.
#[derive(PartialEq, Eq)]
pub struct PayoutData {
    pub billing_address: Option<StoredAddress>,
    pub customer_details: Option<Customer>,
    pub payouts: Payouts,
    pub payout_attempt: PayoutAttempt,
    pub payout_method_data: Option<PayoutMethodData>,
    pub merchant_connector_account: Option<MerchantConnectorAccount>,
}

/// The customer of a payout, as gateways are told.
#[derive(Clone, PartialEq, Eq)]
pub struct CustomerDetails {
    pub customer_id: Option<String>,
    pub name: Option<Secret<String>>,
    pub email: Option<Secret<String>>,
    pub phone: Option<Secret<String>>,
    pub phone_country_code: Option<String>,
}

/// What is asked of the gateway about a payout.
#[derive(Clone, PartialEq, Eq)]
pub struct PayoutsData {
    pub payout_id: String,
    pub amount: i64,
    pub connector_payout_id: Option<String>,
    pub destination_currency: Currency,
    pub source_currency: Currency,
    pub payout_type: PayoutType,
    pub entity_type: PayoutEntityType,
    pub country_code: String,
    pub customer_details: Option<CustomerDetails>,
}

/// What the gateway says of a payout.
#[derive(Clone, Debug, PartialEq, Eq)]
pub struct PayoutsResponseData {
    pub status: Option<PayoutStatus>,
    pub connector_payout_id: String,
    pub payout_eligible: Option<bool>,
}

pub type PayoutsRouterData = RouterData<PayoutsData, PayoutsResponseData>;

/// How the merchant's account with the gateway is come by: it is at hand,
/// or the caller has to fetch it under a label.
#[derive(PartialEq, Eq)]
pub enum MerchantConnectorAccountSource {
    AtHand(MerchantConnectorAccount),
    Fetch { connector_label: String },
}

/// Country and business of a flow: those on record where both are there,
/// and else those of the merchant's one line of business. A merchant with
/// several lines, or none, has to name them.
pub open spec fn business_details(
    business_country: Option<String>,
    business_label: Option<String>,
    merchant_account: MerchantAccount,
) -> Option<(String, String)> {
    match (business_country, business_label) {
        (Some(country), Some(label)) => Some((country, label)),
        _ => {
            if merchant_account.primary_business_details@.len() == 1 {
                Some(
                    (
                        merchant_account.primary_business_details@[0].country,
                        merchant_account.primary_business_details@[0].business,
                    ),
                )
            } else {
                None
            }
        },
    }
}

/// `result` holds the business details, or reports them as missing.
pub open spec fn is_business_details_outcome(
    result: Result<(String, String), ApiErrorResponse>,
    details: Option<(String, String)>,
) -> bool {
    match details {
        Some(found) => result == Ok::<(String, String), ApiErrorResponse>(found),
        None => result matches Err(error) && is_missing_api_field(
            error,
            "business_country, business_label"@,
        ),
    }
}

/// Finds country and business of a flow.
pub fn get_business_details(
    business_country: &Option<String>,
    business_label: &Option<String>,
    merchant_account: &MerchantAccount,
) -> (result: Result<(String, String), ApiErrorResponse>)
    ensures
        is_business_details_outcome(
            result,
            business_details(*business_country, *business_label, *merchant_account),
        ),
{
    match (business_country, business_label) {
        (Some(country), Some(label)) => Ok((country.clone(), label.clone())),
        _ => {
            if merchant_account.primary_business_details.len() == 1 {
                Ok(
                    (
                        merchant_account.primary_business_details[0].country.clone(),
                        merchant_account.primary_business_details[0].business.clone(),
                    ),
                )
            } else {
                Err(
                    ApiErrorResponse::MissingRequiredField {
                        field_name: "business_country, business_label".to_owned(),
                    },
                )
            }
        },
    }
}

/// Says how the merchant's account with the gateway is come by for a
/// payout: the one at hand is used, and else the label is worked out under
/// which the caller fetches it.
pub fn get_mca_for_payout(
    connector_id: &str,
    merchant_account: &MerchantAccount,
    payout_data: &PayoutData,
) -> (result: Result<MerchantConnectorAccountSource, ApiErrorResponse>)
    ensures
        match payout_data.merchant_connector_account {
            Some(account) => result == Ok::<MerchantConnectorAccountSource, ApiErrorResponse>(
                MerchantConnectorAccountSource::AtHand(account),
            ),
            None => match business_details(
                payout_data.payout_attempt.business_country,
                payout_data.payout_attempt.business_label,
                *merchant_account,
            ) {
                Some((country, label)) => {
                    &&& result matches Ok(MerchantConnectorAccountSource::Fetch { connector_label })
                    &&& connector_label@ == connector_label_text(
                        country@,
                        label@,
                        None,
                        connector_id@,
                    )
                },
                None => result matches Err(error) && is_missing_api_field(
                    error,
                    "business_country, business_label"@,
                ),
            },
        },
{
    match &payout_data.merchant_connector_account {
        Some(account) => Ok(MerchantConnectorAccountSource::AtHand(account.clone())),
        None => {
            match get_business_details(
                &payout_data.payout_attempt.business_country,
                &payout_data.payout_attempt.business_label,
                merchant_account,
            ) {
                Ok((country, label)) => Ok(
                    MerchantConnectorAccountSource::Fetch {
                        connector_label: get_connector_label(
                            country.as_str(),
                            label.as_str(),
                            None,
                            connector_id,
                        ),
                    },
                ),
                Err(error) => Err(error),
            }
        },
    }
}

/// A stored address as gateways are told: the postal part, and the
/// telephone number with its calling code.
pub open spec fn payout_address(stored: StoredAddress) -> Address {
    Address {
        address: Some(
            AddressDetails {
                city: stored.city,
                country: stored.country,
                line1: stored.line1,
                line2: stored.line2,
                line3: stored.line3,
                zip: stored.zip,
                state: stored.state,
                first_name: stored.first_name,
                last_name: stored.last_name,
            },
        ),
        phone: Some(PhoneDetails { number: stored.phone_number, country_code: stored.country_code }),
    }
}

/// The addresses of a payout: the billing address where one is stored, and
/// never a shipping address.
pub open spec fn payout_addresses(billing: Option<StoredAddress>) -> PaymentAddress {
    PaymentAddress {
        shipping: None,
        billing: match billing {
            Some(stored) => Some(payout_address(stored)),
            None => None,
        },
    }
}

/// A stored customer as gateways are told.
pub open spec fn payout_customer(customer: Option<Customer>) -> Option<CustomerDetails> {
    match customer {
        Some(customer) => Some(
            CustomerDetails {
                customer_id: Some(customer.customer_id),
                name: customer.name,
                email: customer.email,
                phone: customer.phone,
                phone_country_code: customer.phone_country_code,
            },
        ),
        None => None,
    }
}

/// The id by which the gateway knows the customer of a payout.
pub open spec fn payout_connector_customer(customer: Option<Customer>) -> Option<String> {
    match customer {
        Some(customer) => customer.connector_customer_id,
        None => None,
    }
}

/// `record` is the record with which a payout call begins. No payment
/// stands behind it: payment and attempt id are empty, the status is the
/// failure it has until a gateway says otherwise, and the request reference
/// says that it is none.
pub open spec fn is_payout_record(
    record: PayoutsRouterData,
    connector_id: Seq<char>,
    merchant_account: MerchantAccount,
    merchant_connector_account: MerchantConnectorAccount,
    payout_data: PayoutData,
    business_country: String,
) -> bool {
    &&& record.merchant_id == merchant_account.merchant_id
    &&& record.customer_id is None
    &&& record.connector_customer == payout_connector_customer(payout_data.customer_details)
    &&& record.connector@ == connector_id
    &&& record.payment_id@ == Seq::<char>::empty()
    &&& record.attempt_id@ == Seq::<char>::empty()
    &&& record.status == AttemptStatus::Failure
    &&& record.payment_method == PaymentMethod::Card
    &&& Some(record.connector_auth_type) == merchant_connector_account.connector_account_details
    &&& record.description is None
    &&& record.return_url == payout_data.payouts.return_url
    &&& record.address == payout_addresses(payout_data.billing_address)
    &&& record.auth_type == AuthenticationType::NoThreeDs
    &&& record.connector_meta_data == merchant_connector_account.metadata
    &&& record.amount_captured is None
    &&& record.session_token is None
    &&& record.reference_id is None
    &&& record.payment_method_token is None
    &&& record.preprocessing_id is None
    &&& record.payment_method_id is None
    &&& record.connector_request_reference_id@ == irrelevant_reference_id()
    &&& record.payout_method_data == payout_data.payout_method_data
    &&& record.quote_id is None
    &&& record.test_mode == merchant_connector_account.test_mode
    &&& record.request == (PayoutsData {
        payout_id: payout_data.payouts.payout_id,
        amount: payout_data.payouts.amount,
        connector_payout_id: Some(payout_data.payout_attempt.connector_payout_id),
        destination_currency: payout_data.payouts.destination_currency,
        source_currency: payout_data.payouts.source_currency,
        payout_type: payout_data.payouts.payout_type,
        entity_type: payout_data.payouts.entity_type,
        country_code: business_country,
        customer_details: payout_customer(payout_data.customer_details),
    })
    &&& record.response matches Ok(response)
    &&& response.status is None
    &&& response.connector_payout_id@ == Seq::<char>::empty()
    &&& response.payout_eligible is None
}

impl StoredAddress {
    /// The address as gateways are told.
    pub fn to_address(&self) -> (address: Address)
        ensures
            address == payout_address(*self),
    {
        Address {
            address: Some(
                AddressDetails {
                    city: self.city.clone(),
                    country: self.country.clone(),
                    line1: self.line1.clone(),
                    line2: self.line2.clone(),
                    line3: self.line3.clone(),
                    zip: self.zip.clone(),
                    state: self.state.clone(),
                    first_name: self.first_name.clone(),
                    last_name: self.last_name.clone(),
                },
            ),
            phone: Some(
                PhoneDetails {
                    number: self.phone_number.clone(),
                    country_code: self.country_code.clone(),
                },
            ),
        }
    }
}

impl Customer {
    /// The customer as gateways are told.
    pub fn to_details(&self) -> (details: CustomerDetails)
        ensures
            Some(details) == payout_customer(Some(*self)),
    {
        CustomerDetails {
            customer_id: Some(self.customer_id.clone()),
            name: self.name.clone(),
            email: self.email.clone(),
            phone: self.phone.clone(),
            phone_country_code: self.phone_country_code.clone(),
        }
    }
}

impl Default for PayoutsResponseData {
    fn default() -> (response: Self)
        ensures
            response.status is None,
            response.connector_payout_id@ == Seq::<char>::empty(),
            response.payout_eligible is None,
    {
        PayoutsResponseData { status: None, connector_payout_id: String::new(), payout_eligible: None }
    }
}

/// `after` is `before` with the merchant's account put in.
pub open spec fn with_account(
    before: PayoutData,
    account: MerchantConnectorAccount,
    after: PayoutData,
) -> bool {
    after == (PayoutData { merchant_connector_account: Some(account), ..before })
}

/// The merchant's account that a payout call goes by: the one at hand with
/// the payout data, and the fetched one only where none is at hand.
pub open spec fn payout_account(
    payout_data: PayoutData,
    fetched: MerchantConnectorAccount,
) -> MerchantConnectorAccount {
    match payout_data.merchant_connector_account {
        Some(at_hand) => at_hand,
        None => fetched,
    }
}

/// Begins the record of a payout call and keeps the merchant's account with
/// the payout data. The account at hand with the payout data is used; the
/// one handed in, which the caller fetched where `get_mca_for_payout` said
/// so, only where none is at hand. Missing business details are reported
/// before anything is touched; credentials that cannot be read are an
/// internal error, reported after the account has been kept.
pub fn construct_payout_router_data(
    connector_id: &str,
    merchant_account: &MerchantAccount,
    merchant_connector_account: MerchantConnectorAccount,
    payout_data: &mut PayoutData,
) -> (result: Result<PayoutsRouterData, ApiErrorResponse>)
    ensures
        match business_details(
            old(payout_data).payout_attempt.business_country,
            old(payout_data).payout_attempt.business_label,
            *merchant_account,
        ) {
            None => {
                &&& *final(payout_data) == *old(payout_data)
                &&& result matches Err(error) && is_missing_api_field(
                    error,
                    "business_country, business_label"@,
                )
            },
            Some((country, _)) => {
                let account = payout_account(*old(payout_data), merchant_connector_account);
                &&& with_account(*old(payout_data), account, *final(payout_data))
                &&& match account.connector_account_details {
                    None => result == Err::<PayoutsRouterData, ApiErrorResponse>(
                        ApiErrorResponse::InternalServerError,
                    ),
                    Some(_) => result matches Ok(record) && is_payout_record(
                        record,
                        connector_id@,
                        *merchant_account,
                        account,
                        *final(payout_data),
                        country,
                    ),
                }
            },
        },
{
    let business_country = match get_business_details(
        &payout_data.payout_attempt.business_country,
        &payout_data.payout_attempt.business_label,
        merchant_account,
    ) {
        Ok((country, _)) => country,
        Err(error) => { return Err(error); },
    };
    let merchant_connector_account = match &payout_data.merchant_connector_account {
        Some(at_hand) => at_hand.clone(),
        None => merchant_connector_account,
    };
    payout_data.merchant_connector_account = Some(merchant_connector_account.clone());
    let connector_auth_type = match &merchant_connector_account.connector_account_details {
        Some(auth_type) => auth_type.clone(),
        None => { return Err(ApiErrorResponse::InternalServerError); },
    };
    let address = PaymentAddress {
        shipping: None,
        billing: match &payout_data.billing_address {
            Some(stored) => Some(stored.to_address()),
            None => None,
        },
    };
    let connector_customer = match &payout_data.customer_details {
        Some(customer) => customer.connector_customer_id.clone(),
        None => None,
    };
    let customer_details = match &payout_data.customer_details {
        Some(customer) => Some(customer.to_details()),
        None => None,
    };
    let request = PayoutsData {
        payout_id: payout_data.payouts.payout_id.clone(),
        amount: payout_data.payouts.amount,
        connector_payout_id: Some(payout_data.payout_attempt.connector_payout_id.clone()),
        destination_currency: payout_data.payouts.destination_currency,
        source_currency: payout_data.payouts.source_currency,
        payout_type: payout_data.payouts.payout_type,
        entity_type: payout_data.payouts.entity_type,
        country_code: business_country,
        customer_details,
    };
    Ok(
        RouterData {
            merchant_id: merchant_account.merchant_id.clone(),
            customer_id: None,
            connector_customer,
            connector: connector_id.to_owned(),
            payment_id: String::new(),
            attempt_id: String::new(),
            status: AttemptStatus::Failure,
            payment_method: PaymentMethod::default(),
            connector_auth_type,
            description: None,
            return_url: payout_data.payouts.return_url.clone(),
            address,
            auth_type: AuthenticationType::default(),
            connector_meta_data: merchant_connector_account.metadata.clone(),
            amount_captured: None,
            session_token: None,
            reference_id: None,
            payment_method_token: None,
            preprocessing_id: None,
            payment_method_id: None,
            connector_request_reference_id: IRRELEVANT_CONNECTOR_REQUEST_REFERENCE_ID_IN_DISPUTE_FLOW.to_owned(),
            payout_method_data: payout_data.payout_method_data.clone(),
            quote_id: None,
            test_mode: merchant_connector_account.test_mode,
            request,
            response: Ok(PayoutsResponseData::default()),
        },
    )
}

} // verus!
