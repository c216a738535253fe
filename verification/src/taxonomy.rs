//! The error taxonomy and the classification of raw failures into it.

use vstd::prelude::*;

verus! {

/// Relies on rusoto_core::request::HttpDispatchError: declares the transport
/// error type so that a value of it can be carried opaquely in a field.
#[verifier::external_type_specification]
#[verifier::external_body]
pub struct ExHttpDispatchError(rusoto_core::request::HttpDispatchError);

/// Relies on std::io::Error: declares the local I/O error type so that a
/// value of it can be carried opaquely in a field.
#[verifier::external_type_specification]
#[verifier::external_body]
pub struct ExIoError(std::io::Error);

/// Relies on serde_json::Error: declares the JSON decode error type so that a
/// value of it can be carried opaquely in a field.
#[verifier::external_type_specification]
#[verifier::external_body]
pub struct ExJsonError(serde_json::Error);

/// Which known operation-error kind a service failure's type-erased source
/// turned out to be: one of the four known operations, or some other kind.
#[derive(Debug, Clone, Copy, PartialEq, Eq, Structural)]
pub enum ServiceErrorKind {
    GetSecretValue,
    ListSecrets,
    DescribeParameters,
    GetParametersByPath,
    Other,
}

/// The shape of a raw remote-service-call failure, reduced to plain values:
/// everything the classifier reads, and nothing else.
///
/// A `Service` failure carries its computed description and the kind of its
/// optional type-erased source error; the other five shapes carry their
/// payloads directly.
#[derive(Debug)]
pub enum RawFailure {
    Service { description: String, source_kind: Option<ServiceErrorKind> },
    Unknown { status: u16, body: String },
    Credentials { message: String },
    Validation { details: String },
    Parse { details: String },
    HttpDispatch(rusoto_core::request::HttpDispatchError),
}

/// The unified error taxonomy: every failure this library classifies becomes
/// exactly one of these variants.
///
/// `ExecError` and `InvalidKey` are part of the taxonomy for callers to
/// construct; no classification in this crate produces them.
#[derive(Debug)]
pub enum ErrorValue {
    ExecError,
    GetSecretValueError(String),
    ListSecretsError(String),
    DescribeParametersError(String),
    GetParametersByPathError(String),
    RusotoUnknownServiceError(String),
    RusotoUnknownError(u16, String),
    RusotoCredentialsError(String),
    RusotoValidationError(String),
    RusotoHttpDispatchError(rusoto_core::request::HttpDispatchError),
    RusotoParseError(String),
    InvalidKey(String),
    IoError(std::io::Error),
    ParseError(serde_json::Error),
}

/// What classification returns for each raw failure shape.
///
/// A `Service` failure maps to the variant named after its source kind,
/// carrying the description verbatim; an absent source, or one of a kind
/// other than the four known operations, maps to `RusotoUnknownServiceError`.
/// The other five shapes map one-to-one onto their variants, payloads
/// unchanged.
pub open spec fn classify_spec(f: RawFailure) -> ErrorValue {
    match f {
        RawFailure::Service { description, source_kind } => match source_kind {
            Some(ServiceErrorKind::GetSecretValue) => ErrorValue::GetSecretValueError(description),
            Some(ServiceErrorKind::ListSecrets) => ErrorValue::ListSecretsError(description),
            Some(ServiceErrorKind::DescribeParameters) => ErrorValue::DescribeParametersError(
                description,
            ),
            Some(ServiceErrorKind::GetParametersByPath) => ErrorValue::GetParametersByPathError(
                description,
            ),
            Some(ServiceErrorKind::Other) => ErrorValue::RusotoUnknownServiceError(description),
            None => ErrorValue::RusotoUnknownServiceError(description),
        },
        RawFailure::Unknown { status, body } => ErrorValue::RusotoUnknownError(status, body),
        RawFailure::Credentials { message } => ErrorValue::RusotoCredentialsError(message),
        RawFailure::Validation { details } => ErrorValue::RusotoValidationError(details),
        RawFailure::Parse { details } => ErrorValue::RusotoParseError(details),
        RawFailure::HttpDispatch(transport) => ErrorValue::RusotoHttpDispatchError(transport),
    }
}

impl ErrorValue {
    /// Classify one raw remote-service-call failure into the taxonomy.
    /// Total: every shape yields exactly the variant that `classify_spec` names.
    pub fn classify(f: RawFailure) -> (r: ErrorValue)
        ensures
            r == classify_spec(f),
    {
        match f {
            RawFailure::Service { description, source_kind } => match source_kind {
                Some(ServiceErrorKind::GetSecretValue) => ErrorValue::GetSecretValueError(description),
                Some(ServiceErrorKind::ListSecrets) => ErrorValue::ListSecretsError(description),
                Some(ServiceErrorKind::DescribeParameters) => ErrorValue::DescribeParametersError(
                    description,
                ),
                Some(ServiceErrorKind::GetParametersByPath) => ErrorValue::GetParametersByPathError(
                    description,
                ),
                Some(ServiceErrorKind::Other) => ErrorValue::RusotoUnknownServiceError(description),
                None => ErrorValue::RusotoUnknownServiceError(description),
            },
            RawFailure::Unknown { status, body } => ErrorValue::RusotoUnknownError(status, body),
            RawFailure::Credentials { message } => ErrorValue::RusotoCredentialsError(message),
            RawFailure::Validation { details } => ErrorValue::RusotoValidationError(details),
            RawFailure::Parse { details } => ErrorValue::RusotoParseError(details),
            RawFailure::HttpDispatch(transport) => ErrorValue::RusotoHttpDispatchError(transport),
        }
    }
}

impl From<std::io::Error> for ErrorValue {
    /// Wrap a local I/O failure unchanged.
    fn from(e: std::io::Error) -> (r: ErrorValue) {
        ErrorValue::IoError(e)
    }
}

impl vstd::std_specs::convert::FromSpecImpl<std::io::Error> for ErrorValue {
    open spec fn obeys_from_spec() -> bool {
        true
    }

    open spec fn from_spec(e: std::io::Error) -> ErrorValue {
        ErrorValue::IoError(e)
    }
}

impl From<serde_json::Error> for ErrorValue {
    /// Wrap a JSON decode failure unchanged.
    fn from(e: serde_json::Error) -> (r: ErrorValue) {
        ErrorValue::ParseError(e)
    }
}

impl vstd::std_specs::convert::FromSpecImpl<serde_json::Error> for ErrorValue {
    open spec fn obeys_from_spec() -> bool {
        true
    }

    open spec fn from_spec(e: serde_json::Error) -> ErrorValue {
        ErrorValue::ParseError(e)
    }
}

/// Totality and mutual exclusion of classification: every raw failure shape
/// classifies to exactly one taxonomy variant — each of the five non-`Service`
/// shapes to its own variant and to no other, a `Service` failure to one of
/// the five named service variants — and classification never produces
/// `ExecError` or `InvalidKey`.
pub proof fn lemma_classification_total(f: RawFailure)
    ensures
        (f is Unknown) <==> (classify_spec(f) is RusotoUnknownError),
        (f is Credentials) <==> (classify_spec(f) is RusotoCredentialsError),
        (f is Validation) <==> (classify_spec(f) is RusotoValidationError),
        (f is Parse) <==> (classify_spec(f) is RusotoParseError),
        (f is HttpDispatch) <==> (classify_spec(f) is RusotoHttpDispatchError),
        (f is Service) <==> {
            ||| classify_spec(f) is GetSecretValueError
            ||| classify_spec(f) is ListSecretsError
            ||| classify_spec(f) is DescribeParametersError
            ||| classify_spec(f) is GetParametersByPathError
            ||| classify_spec(f) is RusotoUnknownServiceError
        },
        !(classify_spec(f) is ExecError),
        !(classify_spec(f) is InvalidKey),
{
}

/// Operation-kind mapping: a `Service` failure whose source kind is one of
/// the four known operations classifies to the variant named after that
/// operation, carrying the failure's description verbatim.
pub proof fn lemma_known_operation_mapping(description: String)
    ensures
        classify_spec(
            (RawFailure::Service {
                description,
                source_kind: Some(ServiceErrorKind::GetSecretValue),
            }),
        ) == ErrorValue::GetSecretValueError(description),
        classify_spec(
            (RawFailure::Service { description, source_kind: Some(ServiceErrorKind::ListSecrets) }),
        ) == ErrorValue::ListSecretsError(description),
        classify_spec(
            (RawFailure::Service {
                description,
                source_kind: Some(ServiceErrorKind::DescribeParameters),
            }),
        ) == ErrorValue::DescribeParametersError(description),
        classify_spec(
            (RawFailure::Service {
                description,
                source_kind: Some(ServiceErrorKind::GetParametersByPath),
            }),
        ) == ErrorValue::GetParametersByPathError(description),
{
}

/// Unknown source kind: a `Service` failure whose source is absent, or whose
/// source is of a kind other than the four known operations, classifies to
/// `RusotoUnknownServiceError`, carrying the description verbatim.
pub proof fn lemma_unknown_source_kind(description: String)
    ensures
        classify_spec(
            (RawFailure::Service { description, source_kind: Some(ServiceErrorKind::Other) }),
        ) == ErrorValue::RusotoUnknownServiceError(description),
        classify_spec((RawFailure::Service { description, source_kind: None }))
            == ErrorValue::RusotoUnknownServiceError(description),
{
}

/// Wrap-unchanged: the wrapping variants carry their underlying value with no
/// transformation — classification keeps a transport error whole, and the
/// `From` conversions keep the I/O and JSON decode errors whole.
pub proof fn lemma_wrap_unchanged(
    t: rusoto_core::request::HttpDispatchError,
    i: std::io::Error,
    j: serde_json::Error,
)
    ensures
        classify_spec(RawFailure::HttpDispatch(t)) == ErrorValue::RusotoHttpDispatchError(t),
        <ErrorValue as vstd::std_specs::convert::FromSpec<std::io::Error>>::from_spec(i)
            == ErrorValue::IoError(i),
        <ErrorValue as vstd::std_specs::convert::FromSpec<serde_json::Error>>::from_spec(j)
            == ErrorValue::ParseError(j),
{
}

} // verus!
