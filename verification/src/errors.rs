use vstd::prelude::*;

verus! {

/// Failures raised while talking the gateway's language.
#[derive(Clone, Debug, PartialEq, Eq)]
pub enum ConnectorError {
    /// A reply could not be turned into a canonical update.
    ResponseHandlingFailed,
    /// The payment method or flow is not offered through this gateway.
    NotImplemented(String),
    /// The refund to look up carries no gateway refund id.
    MissingConnectorRefundID,
    /// The payment carries no id of the sale it belongs to.
    MissingConnectorRelatedTransactionID { id: String },
    /// A field that the request needs is absent.
    MissingRequiredField { field_name: String },
    /// The stored credentials are not of the shape this gateway uses.
    FailedToObtainAuthType,
    /// The way of capturing that was asked for is not offered.
    CaptureMethodNotSupported,
    /// A value cannot be put into the form that the gateway reads.
    RequestEncodingFailed,
}

/// A connector error as contracts speak of it: its texts as sequences of
/// characters.
pub enum ConnectorErrorView {
    ResponseHandlingFailed,
    NotImplemented(Seq<char>),
    MissingConnectorRefundID,
    MissingConnectorRelatedTransactionID { id: Seq<char> },
    MissingRequiredField { field_name: Seq<char> },
    FailedToObtainAuthType,
    CaptureMethodNotSupported,
    RequestEncodingFailed,
}

impl View for ConnectorError {
    type V = ConnectorErrorView;

    open spec fn view(&self) -> ConnectorErrorView {
        match *self {
            ConnectorError::ResponseHandlingFailed => ConnectorErrorView::ResponseHandlingFailed,
            ConnectorError::NotImplemented(feature) => ConnectorErrorView::NotImplemented(feature@),
            ConnectorError::MissingConnectorRefundID => ConnectorErrorView::MissingConnectorRefundID,
            ConnectorError::MissingConnectorRelatedTransactionID { id } => {
                ConnectorErrorView::MissingConnectorRelatedTransactionID { id: id@ }
            },
            ConnectorError::MissingRequiredField { field_name } => {
                ConnectorErrorView::MissingRequiredField { field_name: field_name@ }
            },
            ConnectorError::FailedToObtainAuthType => ConnectorErrorView::FailedToObtainAuthType,
            ConnectorError::CaptureMethodNotSupported => {
                ConnectorErrorView::CaptureMethodNotSupported
            },
            ConnectorError::RequestEncodingFailed => ConnectorErrorView::RequestEncodingFailed,
        }
    }
}

/// The report that the field called `name` is missing.
pub open spec fn missing_field(name: Seq<char>) -> ConnectorErrorView {
    ConnectorErrorView::MissingRequiredField { field_name: name }
}

/// `result` is what `expected` says: the same value, or an error with the
/// same texts.
pub open spec fn agrees<V>(
    result: Result<V, ConnectorError>,
    expected: Result<V, ConnectorErrorView>,
) -> bool {
    match (result, expected) {
        (Ok(value), Ok(expected_value)) => value == expected_value,
        (Err(error), Err(expected_error)) => error@ == expected_error,
        _ => false,
    }
}

/// The value where there is one, and else the report that the field called
/// `name` is missing.
pub open spec fn required<V>(value: Option<V>, name: Seq<char>) -> Result<V, ConnectorErrorView> {
    match value {
        Some(v) => Ok(v),
        None => Err(missing_field(name)),
    }
}

/// The report that a required field is missing.
pub fn missing_field_err(field_name: &str) -> (error: ConnectorError)
    ensures
        error@ == missing_field(field_name@),
{
    ConnectorError::MissingRequiredField { field_name: field_name.to_owned() }
}

/// Failures reported to the caller of the public interface.
#[derive(Clone, Debug, PartialEq, Eq)]
pub enum ApiErrorResponse {
    /// An identifier breaks its length or format constraint.
    InvalidDataFormat { field_name: String, expected_format: String },
    /// A value that the flow needs is absent.
    MissingRequiredField { field_name: String },
    /// Stored data is not usable.
    InternalServerError,
}

/// Failures raised while handling an incoming webhook.
#[derive(Clone, Copy, Debug, PartialEq, Eq, Structural)]
pub enum WebhooksFlowError {
    /// The delivery would move a dispute backwards.
    DisputeWebhookValidationFailed,
}

/// `error` reports to the caller that the field called `name` is missing.
pub open spec fn is_missing_api_field(error: ApiErrorResponse, name: Seq<char>) -> bool {
    match error {
        ApiErrorResponse::MissingRequiredField { field_name } => field_name@ == name,
        _ => false,
    }
}

} // verus!
