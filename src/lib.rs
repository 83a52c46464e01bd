//! Client library for a remote identity-verification service: request
//! signing, canonical request bodies, and the response classification policy.

mod api;
mod auth;
mod config;
mod error;
mod json;
mod models;
mod products;
mod timestamp;
mod utils;

pub use api::{
    decode_response, endpoint_root, envelope_outcome, header_views, is_success, parsed_outcome,
    request_headers, ApiClient, SignedRequest, CONTENT_TYPE_HEADER, JOB_STATUS_PATH,
    JSON_CONTENT_TYPE, PARTNER_ID_HEADER, SIGNATURE_HEADER, TIMESTAMP_HEADER,
};
pub use auth::{
    hmac_sha256_of, lemma_sign_deterministic, lemma_signed_message_changes,
    lemma_verify_own_signature, signature_of, signed_message, Auth,
};
pub use config::{Config, DEFAULT_BASE_URL, DEFAULT_TIMEOUT_SECS, DEFAULT_VERSION};
pub use error::{Error, Result};
pub use json::{
    join_comma, json_bool, json_quote, json_string_of, member_text, member_texts, object_text,
    opt_bool_field, opt_map_field, opt_string_field, pair_texts, string_array, string_array_text,
    string_literals, string_map, string_map_text, ObjectWriter,
};
pub use models::{
    basic_kyc_fields, biometric_kyc_fields, business_verification_fields,
    document_verification_fields, enhanced_kyc_fields, has_key, job_status_fields,
    lemma_basic_kyc_field_omission, lemma_biometric_kyc_field_omission,
    lemma_business_verification_field_omission, lemma_document_verification_field_omission,
    lemma_enhanced_kyc_field_omission, lemma_job_status_field_omission,
    lemma_smartselfie_auth_field_omission, smartselfie_auth_fields,
    string_field, ApiResponse, BasicKycRequest, BiometricKycRequest, BusinessVerificationRequest,
    DocumentVerificationRequest, EnhancedKycRequest, JobHistoryItem, JobStatus, JobStatusRequest,
    SmartSelfieAuthRequest,
};
pub use products::{
    BasicKyc, BiometricKyc, BusinessVerification, DocumentVerification, EnhancedKyc,
    SmartSelfieAuth, BASIC_KYC_PATH, BIOMETRIC_KYC_PATH, BUSINESS_VERIFICATION_PATH,
    DOCUMENT_VERIFICATION_PATH, ENHANCED_KYC_PATH, SMARTSELFIE_AUTH_PATH,
};
pub use timestamp::{rfc3339_of, Timestamp, MAX_ABS_SECS, NANOS_PER_SEC};
pub use utils::{base64_of, decimal_padded, digit_char, encode_image_bytes, format_date};
