use vstd::prelude::*;

use twilight_http::response::DeserializeBodyError;
use twilight_http::Error as HttpError;
use twilight_validate::request::ValidationError;

verus! {

#[verifier::external_type_specification]
#[verifier::external_body]
pub struct ExHttpError(HttpError);

#[verifier::external_type_specification]
#[verifier::external_body]
pub struct ExDeserializeBodyError(DeserializeBodyError);

#[verifier::external_type_specification]
#[verifier::external_body]
pub struct ExValidationError(ValidationError);

} // verus!
