use smileid::{
    string_array, string_map, ApiClient, BasicKyc, BasicKycRequest, BiometricKyc,
    BusinessVerification, Config, DocumentVerification, DocumentVerificationRequest, EnhancedKyc,
    JobStatusRequest, SmartSelfieAuth, Timestamp,
};

fn job_status(include_history: Option<bool>, include_image_links: Option<bool>) -> JobStatusRequest {
    JobStatusRequest {
        user_id: "u1".to_string(),
        job_id: "j1".to_string(),
        include_history,
        include_image_links,
    }
}

#[test]
fn job_status_body_omits_unset_flags() {
    assert_eq!(job_status(None, None).to_json(), "{\"user_id\":\"u1\",\"job_id\":\"j1\"}");
}

#[test]
fn job_status_body_keeps_set_flags() {
    assert_eq!(
        job_status(Some(true), Some(false)).to_json(),
        "{\"user_id\":\"u1\",\"job_id\":\"j1\",\"include_history\":true,\"include_image_links\":false}"
    );
    assert_eq!(
        job_status(None, Some(true)).to_json(),
        "{\"user_id\":\"u1\",\"job_id\":\"j1\",\"include_image_links\":true}"
    );
}

#[test]
fn basic_kyc_body_omits_unset_fields() {
    let r = BasicKycRequest {
        id_type: "NIN".to_string(),
        id_number: "123".to_string(),
        country: "NG".to_string(),
        first_name: None,
        last_name: Some("Doe".to_string()),
        dob: None,
        partner_params: None,
    };
    let body = r.to_json();
    assert_eq!(body, "{\"id_type\":\"NIN\",\"id_number\":\"123\",\"country\":\"NG\",\"last_name\":\"Doe\"}");
    assert!(!body.contains("first_name"));
    assert!(!body.contains("dob"));
    assert!(!body.contains("partner_params"));
}

#[test]
fn body_strings_are_escaped() {
    let r = JobStatusRequest {
        user_id: "a\"b\\c".to_string(),
        job_id: "line\nbreak".to_string(),
        include_history: None,
        include_image_links: None,
    };
    assert_eq!(r.to_json(), "{\"user_id\":\"a\\\"b\\\\c\",\"job_id\":\"line\\nbreak\"}");
}

#[test]
fn document_body_has_image_array_and_params() {
    let r = DocumentVerificationRequest {
        document_type: "PASSPORT".to_string(),
        country: "KE".to_string(),
        document_images: vec!["aGk=".to_string(), "eW8=".to_string()],
        partner_params: Some(vec![("job".to_string(), "7".to_string()), ("a\"".to_string(), "b".to_string())]),
    };
    assert_eq!(
        r.to_json(),
        "{\"document_type\":\"PASSPORT\",\"country\":\"KE\",\"document_images\":[\"aGk=\",\"eW8=\"],\"partner_params\":{\"job\":\"7\",\"a\\\"\":\"b\"}}"
    );
}

#[test]
fn empty_collections_encode_empty() {
    assert_eq!(string_array(&vec![]), "[]");
    assert_eq!(string_map(&vec![]), "{}");
    assert_eq!(string_array(&vec!["x".to_string()]), "[\"x\"]");
}

fn config() -> Config {
    Config::new("secret", "42").with_base_url("https://x.test").with_version("1.0")
}

#[test]
fn base_url_joins_root_and_version() {
    let c = config();
    let client = ApiClient::new(&c);
    assert_eq!(client.base_url(), "https://x.test/v1.0");
    assert_eq!(client.endpoint("/basic_kyc"), "https://x.test/v1.0/basic_kyc");
}

#[test]
fn product_requests_use_their_paths() {
    let c = config();
    let client = ApiClient::new(&c);
    let t = Timestamp::from_unix(1_700_000_000, 0).unwrap();
    let r = BasicKyc::new(client.clone())
        .verify_request("NIN", "1", "NG", None, None, Some("2000-01-01".to_string()), &t)
        .unwrap();
    assert_eq!(r.url, "https://x.test/v1.0/basic_kyc");
    assert_eq!(r.body, "{\"id_type\":\"NIN\",\"id_number\":\"1\",\"country\":\"NG\",\"dob\":\"2000-01-01\"}");
    let r = EnhancedKyc::new(client.clone()).verify_request("NIN", "1", "NG", "A", "B", "C", &t).unwrap();
    assert_eq!(r.url, "https://x.test/v1.0/enhanced_kyc");
    assert_eq!(
        r.body,
        "{\"id_type\":\"NIN\",\"id_number\":\"1\",\"country\":\"NG\",\"first_name\":\"A\",\"last_name\":\"B\",\"dob\":\"C\"}"
    );
    let r = BiometricKyc::new(client.clone()).verify_request("NIN", "1", "NG", "A", "B", "C", "img", &t).unwrap();
    assert_eq!(r.url, "https://x.test/v1.0/biometric_kyc");
    assert!(r.body.ends_with(",\"selfie_image\":\"img\"}"));
    let r = DocumentVerification::new(client.clone()).verify_request("ID", "NG", vec![], &t).unwrap();
    assert_eq!(r.url, "https://x.test/v1.0/document_verification");
    assert_eq!(r.body, "{\"document_type\":\"ID\",\"country\":\"NG\",\"document_images\":[]}");
    let r = SmartSelfieAuth::new(client.clone()).authenticate_request("u", "j", "img", &t).unwrap();
    assert_eq!(r.url, "https://x.test/v1.0/smartselfie_auth");
    assert_eq!(r.body, "{\"user_id\":\"u\",\"job_id\":\"j\",\"selfie_image\":\"img\"}");
    let r = BusinessVerification::new(client).verify_request("Acme", "RC1", "NG", &t).unwrap();
    assert_eq!(r.url, "https://x.test/v1.0/business_verification");
    assert_eq!(r.body, "{\"business_name\":\"Acme\",\"registration_number\":\"RC1\",\"country\":\"NG\"}");
}
