use base64::Engine;
use hmac::Mac;
use smileid::{decode_response, ApiClient, ApiResponse, Config, Error, Timestamp};

fn parse_job(body: String) -> Result<ApiResponse<String>, Error> {
    let v: serde_json::Value = serde_json::from_str(&body).map_err(|e| Error::Json(e.to_string()))?;
    Ok(ApiResponse {
        status_code: v["status_code"].as_u64().unwrap() as u16,
        message: v["message"].as_str().unwrap().to_string(),
        data: v["job_id"].as_str().unwrap_or("").to_string(),
    })
}

#[test]
fn envelope_status_overrides_transport_success() {
    let r = decode_response(200, "{\"status_code\":422,\"message\":\"bad id\"}".to_string(), parse_job);
    match r {
        Err(Error::Api { status_code, message }) => {
            assert_eq!(status_code, 422);
            assert_eq!(message, "bad id");
        }
        other => panic!("unexpected {:?}", other),
    }
}

#[test]
fn transport_failure_skips_envelope_parse() {
    let r = decode_response(503, "Service Unavailable".to_string(), |_b: String| -> Result<ApiResponse<String>, Error> {
        panic!("the body must not be parsed")
    });
    match r {
        Err(Error::Api { status_code, message }) => {
            assert_eq!(status_code, 503);
            assert_eq!(message, "Service Unavailable");
        }
        other => panic!("unexpected {:?}", other),
    }
}

#[test]
fn success_yields_payload() {
    let r = decode_response(
        200,
        "{\"status_code\":200,\"message\":\"ok\",\"job_id\":\"j9\"}".to_string(),
        parse_job,
    );
    assert_eq!(r.unwrap(), "j9");
    let r = decode_response(299, "{\"status_code\":399,\"message\":\"ok\",\"job_id\":\"j8\"}".to_string(), parse_job);
    assert_eq!(r.unwrap(), "j8");
}

#[test]
fn envelope_status_400_is_failure() {
    let r = decode_response(201, "{\"status_code\":400,\"message\":\"no\"}".to_string(), parse_job);
    assert!(matches!(r, Err(Error::Api { status_code: 400, .. })));
}

#[test]
fn non_2xx_boundaries_fail() {
    let r = decode_response(199, "x".to_string(), parse_job);
    assert!(matches!(r, Err(Error::Api { status_code: 199, .. })));
    let r = decode_response(300, "x".to_string(), parse_job);
    assert!(matches!(r, Err(Error::Api { status_code: 300, .. })));
}

#[test]
fn unparsable_body_is_decoding_error() {
    let r = decode_response(200, "not json".to_string(), parse_job);
    assert!(matches!(r, Err(Error::Json(_))));
}

#[test]
fn into_result_follows_envelope_status() {
    let ok = ApiResponse { status_code: 200, message: "m".to_string(), data: 5u8 };
    assert_eq!(ok.into_result().unwrap(), 5);
    let bad = ApiResponse { status_code: 404, message: "gone".to_string(), data: 5u8 };
    assert!(matches!(bad.into_result(), Err(Error::Api { status_code: 404, .. })));
}

#[test]
fn job_status_request_scenario() {
    let c = Config::new("secret", "42").with_base_url("https://x.test").with_version("1.0");
    let client = ApiClient::new(&c);
    let t = Timestamp::from_unix(1_700_000_000, 0).unwrap();
    let req = client.prepare_job_status("u1", "j1", None, None, &t).unwrap();
    assert_eq!(req.url, "https://x.test/v1.0/job_status");
    assert_eq!(req.body, "{\"user_id\":\"u1\",\"job_id\":\"j1\"}");
    let ts = t.to_rfc3339();
    let mut mac = hmac::Hmac::<sha2::Sha256>::new_from_slice(b"secret").unwrap();
    mac.update(format!("42{}{}", ts, req.body).as_bytes());
    let sig = base64::engine::general_purpose::STANDARD.encode(mac.finalize().into_bytes());
    let headers: Vec<(&str, &str)> = req.headers.iter().map(|(k, v)| (k.as_str(), v.as_str())).collect();
    assert_eq!(
        headers,
        vec![
            ("Content-Type", "application/json"),
            ("X-Smile-Partner-ID", "42"),
            ("X-Smile-Signature", sig.as_str()),
            ("X-Smile-Timestamp", ts.as_str()),
        ]
    );
}

#[test]
fn prepare_post_keeps_url_and_body() {
    let c = Config::new("k", "p");
    let client = ApiClient::new(&c);
    let t = Timestamp::from_unix(0, 0).unwrap();
    let req = client.prepare_post("https://e.test/x", "{}".to_string(), &t).unwrap();
    assert_eq!(req.url, "https://e.test/x");
    assert_eq!(req.body, "{}");
    assert_eq!(req.headers[3].1, "1970-01-01T00:00:00+00:00");
    assert_eq!(req.headers[2].1, client.auth().sign_text("1970-01-01T00:00:00+00:00", "{}").unwrap());
}
