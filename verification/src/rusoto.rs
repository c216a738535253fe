//! Reading rusoto's own error type into the plain [`RawFailure`] model.
//!
//! Everything rusoto-specific stands here: the declaration of its error enum,
//! one trusted wrapper per outside call, and the public entry point that
//! turns a failed service call into an [`ErrorValue`]. The wrappers only move
//! values across the boundary; which taxonomy variant comes out is decided by
//! the verified [`ErrorValue::classify`].

use crate::taxonomy::{classify_spec, ErrorValue, RawFailure, ServiceErrorKind};
use rusoto_core::RusotoError;
use rusoto_secretsmanager::GetSecretValueError;
use rusoto_secretsmanager::ListSecretsError;
use rusoto_ssm::DescribeParametersError;
use rusoto_ssm::GetParametersByPathError;
use vstd::prelude::*;

verus! {

/// Relies on rusoto_core::RusotoError: declares the client library's error
/// enum so that a value of it can pass through signatures opaquely.
#[verifier::external_type_specification]
#[verifier::external_body]
#[verifier::reject_recursive_types(E)]
pub struct ExRusotoError<E>(RusotoError<E>);

/// Relies on std::error::Error::source, as rusoto_core implements it for
/// RusotoError: reports whether the failure carries a type-erased source
/// error.
#[verifier::external_body]
fn has_error_source<E: std::error::Error + 'static>(e: &RusotoError<E>) -> bool {
    std::error::Error::source(e).is_some()
}

/// Relies on <dyn std::error::Error>::downcast_ref: reports whether the
/// failure's type-erased source error is rusoto_secretsmanager's
/// GetSecretValueError.
#[verifier::external_body]
fn source_is_get_secret_value<E: std::error::Error + 'static>(e: &RusotoError<E>) -> bool {
    match std::error::Error::source(e) {
        Some(source) => source.downcast_ref::<GetSecretValueError>().is_some(),
        None => false,
    }
}

/// Relies on <dyn std::error::Error>::downcast_ref: reports whether the
/// failure's type-erased source error is rusoto_secretsmanager's
/// ListSecretsError.
#[verifier::external_body]
fn source_is_list_secrets<E: std::error::Error + 'static>(e: &RusotoError<E>) -> bool {
    match std::error::Error::source(e) {
        Some(source) => source.downcast_ref::<ListSecretsError>().is_some(),
        None => false,
    }
}

/// Relies on <dyn std::error::Error>::downcast_ref: reports whether the
/// failure's type-erased source error is rusoto_ssm's DescribeParametersError.
#[verifier::external_body]
fn source_is_describe_parameters<E: std::error::Error + 'static>(e: &RusotoError<E>) -> bool {
    match std::error::Error::source(e) {
        Some(source) => source.downcast_ref::<DescribeParametersError>().is_some(),
        None => false,
    }
}

/// Relies on <dyn std::error::Error>::downcast_ref: reports whether the
/// failure's type-erased source error is rusoto_ssm's
/// GetParametersByPathError.
#[verifier::external_body]
fn source_is_get_parameters_by_path<E: std::error::Error + 'static>(e: &RusotoError<E>) -> bool {
    match std::error::Error::source(e) {
        Some(source) => source.downcast_ref::<GetParametersByPathError>().is_some(),
        None => false,
    }
}

/// The kind of the failure's type-erased source error: the first of the four
/// known operation-error kinds it tests as, in their fixed order, `Other` for
/// a source of any further kind, `None` for an absent source.
fn source_kind<E: std::error::Error + 'static>(e: &RusotoError<E>) -> Option<ServiceErrorKind> {
    if !has_error_source(e) {
        None
    } else if source_is_get_secret_value(e) {
        Some(ServiceErrorKind::GetSecretValue)
    } else if source_is_list_secrets(e) {
        Some(ServiceErrorKind::ListSecrets)
    } else if source_is_describe_parameters(e) {
        Some(ServiceErrorKind::DescribeParameters)
    } else if source_is_get_parameters_by_path(e) {
        Some(ServiceErrorKind::GetParametersByPath)
    } else {
        Some(ServiceErrorKind::Other)
    }
}

/// Relies on rusoto_core::RusotoError's six variants, on
/// std::error::Error::description as rusoto_core implements it, and on
/// BufferedHttpResponse::{status.as_u16, body_as_str}: moves each variant's
/// payload into the matching raw shape, placing the given source kind in the
/// `Service` shape alone.
#[verifier::external_body]
#[allow(deprecated)]
fn raw_shape_of<E: std::error::Error + 'static>(
    e: RusotoError<E>,
    kind: Option<ServiceErrorKind>,
) -> (r: RawFailure)
    ensures
        r matches RawFailure::Service { source_kind, .. } ==> source_kind == kind,
{
    let description = std::error::Error::description(&e).to_string();
    match e {
        RusotoError::Service(_) => RawFailure::Service { description, source_kind: kind },
        RusotoError::Unknown(response) => RawFailure::Unknown {
            status: response.status.as_u16(),
            body: response.body_as_str().to_string(),
        },
        RusotoError::Credentials(cause) => RawFailure::Credentials { message: cause.message },
        RusotoError::Validation(details) => RawFailure::Validation { details },
        RusotoError::ParseError(details) => RawFailure::Parse { details },
        RusotoError::HttpDispatch(cause) => RawFailure::HttpDispatch(cause),
    }
}

impl ErrorValue {
    /// Classify a failed rusoto service call: read the failure's shape,
    /// description and source kind out of `RusotoError`, then map that shape
    /// through the verified classification. Total over every failure value;
    /// the result is always one of the variants classification can produce,
    /// so never `ExecError` or `InvalidKey`.
    pub fn from_rusoto<E: std::error::Error + 'static>(e: RusotoError<E>) -> (r: ErrorValue)
        ensures
            exists|f: RawFailure| r == classify_spec(f),
            !(r is ExecError),
            !(r is InvalidKey),
    {
        let kind = source_kind(&e);
        let raw = raw_shape_of(e, kind);
        ErrorValue::classify(raw)
    }
}

} // verus!
