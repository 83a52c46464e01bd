use vstd::prelude::*;

use crate::api::{ApiClient, SignedRequest};
use crate::error::Result;
use crate::json::object_text;
use crate::models::{
    basic_kyc_fields, biometric_kyc_fields, business_verification_fields,
    document_verification_fields, enhanced_kyc_fields, smartselfie_auth_fields, BasicKycRequest,
    BiometricKycRequest, BusinessVerificationRequest, DocumentVerificationRequest,
    EnhancedKycRequest, SmartSelfieAuthRequest,
};
use crate::timestamp::Timestamp;

verus! {

pub const BASIC_KYC_PATH: &'static str = "/basic_kyc";

pub const ENHANCED_KYC_PATH: &'static str = "/enhanced_kyc";

pub const BIOMETRIC_KYC_PATH: &'static str = "/biometric_kyc";

pub const DOCUMENT_VERIFICATION_PATH: &'static str = "/document_verification";

pub const SMARTSELFIE_AUTH_PATH: &'static str = "/smartselfie_auth";

pub const BUSINESS_VERIFICATION_PATH: &'static str = "/business_verification";

/// Basic identity checks against an issuing authority's records.
#[derive(Clone, Debug)]
pub struct BasicKyc<'a> {
    client: ApiClient<'a>,
}

impl<'a> BasicKyc<'a> {
    pub closed spec fn spec_client(&self) -> ApiClient<'a> {
        self.client
    }

    pub fn new(client: ApiClient<'a>) -> (r: Self)
        ensures
            r.spec_client() == client,
    {
        BasicKyc { client }
    }

    pub fn client(&self) -> (r: &ApiClient<'a>)
        ensures
            *r == self.spec_client(),
    {
        &self.client
    }

    /// The signed request of a basic check; absent names and birth date are
    /// left out of the body.
    pub fn verify_request(
        &self,
        id_type: &str,
        id_number: &str,
        country: &str,
        first_name: Option<String>,
        last_name: Option<String>,
        dob: Option<String>,
        timestamp: &Timestamp,
    ) -> (r: Result<SignedRequest>)
        ensures
            r matches Ok(req) && self.spec_client().is_post_to(
                BASIC_KYC_PATH@,
                object_text(basic_kyc_fields(id_type@, id_number@, country@, first_name, last_name, dob, None)),
                timestamp.spec_text(),
                req,
            ),
    {
        let request = BasicKycRequest {
            id_type: id_type.to_owned(),
            id_number: id_number.to_owned(),
            country: country.to_owned(),
            first_name,
            last_name,
            dob,
            partner_params: None,
        };
        self.client.post_to(BASIC_KYC_PATH, request.to_json(), timestamp)
    }
}

/// Identity checks that also match the holder's name and birth date.
#[derive(Clone, Debug)]
pub struct EnhancedKyc<'a> {
    client: ApiClient<'a>,
}

impl<'a> EnhancedKyc<'a> {
    pub closed spec fn spec_client(&self) -> ApiClient<'a> {
        self.client
    }

    pub fn new(client: ApiClient<'a>) -> (r: Self)
        ensures
            r.spec_client() == client,
    {
        EnhancedKyc { client }
    }

    pub fn client(&self) -> (r: &ApiClient<'a>)
        ensures
            *r == self.spec_client(),
    {
        &self.client
    }

    /// The signed request of an enhanced check.
    pub fn verify_request(
        &self,
        id_type: &str,
        id_number: &str,
        country: &str,
        first_name: &str,
        last_name: &str,
        dob: &str,
        timestamp: &Timestamp,
    ) -> (r: Result<SignedRequest>)
        ensures
            r matches Ok(req) && self.spec_client().is_post_to(
                ENHANCED_KYC_PATH@,
                object_text(enhanced_kyc_fields(id_type@, id_number@, country@, first_name@, last_name@, dob@, None)),
                timestamp.spec_text(),
                req,
            ),
    {
        let request = EnhancedKycRequest {
            id_type: id_type.to_owned(),
            id_number: id_number.to_owned(),
            country: country.to_owned(),
            first_name: first_name.to_owned(),
            last_name: last_name.to_owned(),
            dob: dob.to_owned(),
            partner_params: None,
        };
        self.client.post_to(ENHANCED_KYC_PATH, request.to_json(), timestamp)
    }
}

/// Identity checks that also compare a selfie with the record's photo.
#[derive(Clone, Debug)]
pub struct BiometricKyc<'a> {
    client: ApiClient<'a>,
}

impl<'a> BiometricKyc<'a> {
    pub closed spec fn spec_client(&self) -> ApiClient<'a> {
        self.client
    }

    pub fn new(client: ApiClient<'a>) -> (r: Self)
        ensures
            r.spec_client() == client,
    {
        BiometricKyc { client }
    }

    pub fn client(&self) -> (r: &ApiClient<'a>)
        ensures
            *r == self.spec_client(),
    {
        &self.client
    }

    /// The signed request of a biometric check; `selfie_image` is the
    /// base64 text of the image.
    pub fn verify_request(
        &self,
        id_type: &str,
        id_number: &str,
        country: &str,
        first_name: &str,
        last_name: &str,
        dob: &str,
        selfie_image: &str,
        timestamp: &Timestamp,
    ) -> (r: Result<SignedRequest>)
        ensures
            r matches Ok(req) && self.spec_client().is_post_to(
                BIOMETRIC_KYC_PATH@,
                object_text(
                    biometric_kyc_fields(id_type@, id_number@, country@, first_name@, last_name@, dob@, selfie_image@, None),
                ),
                timestamp.spec_text(),
                req,
            ),
    {
        let request = BiometricKycRequest {
            id_type: id_type.to_owned(),
            id_number: id_number.to_owned(),
            country: country.to_owned(),
            first_name: first_name.to_owned(),
            last_name: last_name.to_owned(),
            dob: dob.to_owned(),
            selfie_image: selfie_image.to_owned(),
            partner_params: None,
        };
        self.client.post_to(BIOMETRIC_KYC_PATH, request.to_json(), timestamp)
    }
}

/// Checks of identity documents from their images.
#[derive(Clone, Debug)]
pub struct DocumentVerification<'a> {
    client: ApiClient<'a>,
}

impl<'a> DocumentVerification<'a> {
    pub closed spec fn spec_client(&self) -> ApiClient<'a> {
        self.client
    }

    pub fn new(client: ApiClient<'a>) -> (r: Self)
        ensures
            r.spec_client() == client,
    {
        DocumentVerification { client }
    }

    pub fn client(&self) -> (r: &ApiClient<'a>)
        ensures
            *r == self.spec_client(),
    {
        &self.client
    }

    /// The signed request of a document check; each image is base64 text.
    pub fn verify_request(
        &self,
        document_type: &str,
        country: &str,
        document_images: Vec<String>,
        timestamp: &Timestamp,
    ) -> (r: Result<SignedRequest>)
        ensures
            r matches Ok(req) && self.spec_client().is_post_to(
                DOCUMENT_VERIFICATION_PATH@,
                object_text(document_verification_fields(document_type@, country@, document_images@, None)),
                timestamp.spec_text(),
                req,
            ),
    {
        let request = DocumentVerificationRequest {
            document_type: document_type.to_owned(),
            country: country.to_owned(),
            document_images,
            partner_params: None,
        };
        self.client.post_to(DOCUMENT_VERIFICATION_PATH, request.to_json(), timestamp)
    }
}

/// Re-authentication of an enrolled user by selfie.
#[derive(Clone, Debug)]
pub struct SmartSelfieAuth<'a> {
    client: ApiClient<'a>,
}

impl<'a> SmartSelfieAuth<'a> {
    pub closed spec fn spec_client(&self) -> ApiClient<'a> {
        self.client
    }

    pub fn new(client: ApiClient<'a>) -> (r: Self)
        ensures
            r.spec_client() == client,
    {
        SmartSelfieAuth { client }
    }

    pub fn client(&self) -> (r: &ApiClient<'a>)
        ensures
            *r == self.spec_client(),
    {
        &self.client
    }

    /// The signed request of a selfie authentication.
    pub fn authenticate_request(
        &self,
        user_id: &str,
        job_id: &str,
        selfie_image: &str,
        timestamp: &Timestamp,
    ) -> (r: Result<SignedRequest>)
        ensures
            r matches Ok(req) && self.spec_client().is_post_to(
                SMARTSELFIE_AUTH_PATH@,
                object_text(smartselfie_auth_fields(user_id@, job_id@, selfie_image@, None)),
                timestamp.spec_text(),
                req,
            ),
    {
        let request = SmartSelfieAuthRequest {
            user_id: user_id.to_owned(),
            job_id: job_id.to_owned(),
            selfie_image: selfie_image.to_owned(),
            partner_params: None,
        };
        self.client.post_to(SMARTSELFIE_AUTH_PATH, request.to_json(), timestamp)
    }
}

/// Checks of a business against company registries.
#[derive(Clone, Debug)]
pub struct BusinessVerification<'a> {
    client: ApiClient<'a>,
}

impl<'a> BusinessVerification<'a> {
    pub closed spec fn spec_client(&self) -> ApiClient<'a> {
        self.client
    }

    pub fn new(client: ApiClient<'a>) -> (r: Self)
        ensures
            r.spec_client() == client,
    {
        BusinessVerification { client }
    }

    pub fn client(&self) -> (r: &ApiClient<'a>)
        ensures
            *r == self.spec_client(),
    {
        &self.client
    }

    /// The signed request of a business check.
    pub fn verify_request(
        &self,
        business_name: &str,
        registration_number: &str,
        country: &str,
        timestamp: &Timestamp,
    ) -> (r: Result<SignedRequest>)
        ensures
            r matches Ok(req) && self.spec_client().is_post_to(
                BUSINESS_VERIFICATION_PATH@,
                object_text(business_verification_fields(business_name@, registration_number@, country@, None)),
                timestamp.spec_text(),
                req,
            ),
    {
        let request = BusinessVerificationRequest {
            business_name: business_name.to_owned(),
            registration_number: registration_number.to_owned(),
            country: country.to_owned(),
            partner_params: None,
        };
        self.client.post_to(BUSINESS_VERIFICATION_PATH, request.to_json(), timestamp)
    }
}

} // verus!
