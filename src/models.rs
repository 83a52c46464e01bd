use vstd::prelude::*;

use crate::json::{
    json_string_of, object_text, opt_bool_field, opt_map_field, opt_string_field,
    string_array_text, ObjectWriter,
};

verus! {

/// The uniform wrapper of every response: the service's own status code and
/// message, and the payload that the other members of the body make up.
#[derive(Clone, Debug)]
pub struct ApiResponse<T> {
    pub status_code: u16,
    pub message: String,
    pub data: T,
}

/// Where a verification job stands.
#[derive(Clone, Copy, Debug, PartialEq, Eq, Structural)]
pub enum JobStatus {
    Pending,
    InProgress,
    Completed,
    Failed,
}

/// One earlier state of a job.
#[derive(Clone, Debug)]
pub struct JobHistoryItem {
    pub job_id: String,
    pub job_type: String,
    pub job_status: JobStatus,
    pub job_complete: bool,
    pub job_success: bool,
    pub result_type: Option<String>,
    pub result_text: Option<String>,
    pub result_code: Option<String>,
    pub timestamp: String,
}

/// Whether some member of `fields` has the key `key`.
pub open spec fn has_key(fields: Seq<(Seq<char>, Seq<char>)>, key: Seq<char>) -> bool {
    exists|i: int| 0 <= i < fields.len() && #[trigger] fields[i].0 == key
}

/// A required string member `(key, literal of value)`.
pub open spec fn string_field(key: Seq<char>, value: Seq<char>) -> (Seq<char>, Seq<char>) {
    (key, json_string_of(value))
}

/// The members of the body of a basic identity check, in order; an absent optional field has none.
pub open spec fn basic_kyc_fields(
    id_type: Seq<char>,
    id_number: Seq<char>,
    country: Seq<char>,
    first_name: Option<String>,
    last_name: Option<String>,
    dob: Option<String>,
    partner_params: Option<Vec<(String, String)>>,
) -> Seq<(Seq<char>, Seq<char>)> {
    seq![
        string_field("id_type"@, id_type),
        string_field("id_number"@, id_number),
        string_field("country"@, country),
    ] + opt_string_field("first_name"@, first_name) + opt_string_field("last_name"@, last_name)
        + opt_string_field("dob"@, dob) + opt_map_field("partner_params"@, partner_params)
}

/// The body of a basic identity check.
#[derive(Clone, Debug)]
pub struct BasicKycRequest {
    pub id_type: String,
    pub id_number: String,
    pub country: String,
    pub first_name: Option<String>,
    pub last_name: Option<String>,
    pub dob: Option<String>,
    pub partner_params: Option<Vec<(String, String)>>,
}

impl BasicKycRequest {
    /// The members of the body, in order.
    pub open spec fn fields(&self) -> Seq<(Seq<char>, Seq<char>)> {
        basic_kyc_fields(
            self.id_type@,
            self.id_number@,
            self.country@,
            self.first_name,
            self.last_name,
            self.dob,
            self.partner_params,
        )
    }

    /// The exact bytes of the body as sent and signed.
    pub fn to_json(&self) -> (r: String)
        ensures
            r@ == object_text(self.fields()),
    {
        let mut w = ObjectWriter::new();
        w.string_field("id_type", self.id_type.as_str());
        w.string_field("id_number", self.id_number.as_str());
        w.string_field("country", self.country.as_str());
        w.opt_string_field("first_name", &self.first_name);
        w.opt_string_field("last_name", &self.last_name);
        w.opt_string_field("dob", &self.dob);
        w.opt_map_field("partner_params", &self.partner_params);
        assert(w.fields() =~= self.fields());
        w.finish()
    }
}

/// The members of the body of an enhanced identity check, in order; an absent optional field has none.
pub open spec fn enhanced_kyc_fields(
    id_type: Seq<char>,
    id_number: Seq<char>,
    country: Seq<char>,
    first_name: Seq<char>,
    last_name: Seq<char>,
    dob: Seq<char>,
    partner_params: Option<Vec<(String, String)>>,
) -> Seq<(Seq<char>, Seq<char>)> {
    seq![
        string_field("id_type"@, id_type),
        string_field("id_number"@, id_number),
        string_field("country"@, country),
        string_field("first_name"@, first_name),
        string_field("last_name"@, last_name),
        string_field("dob"@, dob),
    ] + opt_map_field("partner_params"@, partner_params)
}

/// The body of an enhanced identity check.
#[derive(Clone, Debug)]
pub struct EnhancedKycRequest {
    pub id_type: String,
    pub id_number: String,
    pub country: String,
    pub first_name: String,
    pub last_name: String,
    pub dob: String,
    pub partner_params: Option<Vec<(String, String)>>,
}

impl EnhancedKycRequest {
    /// The members of the body, in order.
    pub open spec fn fields(&self) -> Seq<(Seq<char>, Seq<char>)> {
        enhanced_kyc_fields(
            self.id_type@,
            self.id_number@,
            self.country@,
            self.first_name@,
            self.last_name@,
            self.dob@,
            self.partner_params,
        )
    }

    /// The exact bytes of the body as sent and signed.
    pub fn to_json(&self) -> (r: String)
        ensures
            r@ == object_text(self.fields()),
    {
        let mut w = ObjectWriter::new();
        w.string_field("id_type", self.id_type.as_str());
        w.string_field("id_number", self.id_number.as_str());
        w.string_field("country", self.country.as_str());
        w.string_field("first_name", self.first_name.as_str());
        w.string_field("last_name", self.last_name.as_str());
        w.string_field("dob", self.dob.as_str());
        w.opt_map_field("partner_params", &self.partner_params);
        assert(w.fields() =~= self.fields());
        w.finish()
    }
}

/// The members of the body of an identity check against a selfie, in order; an absent optional field has none.
pub open spec fn biometric_kyc_fields(
    id_type: Seq<char>,
    id_number: Seq<char>,
    country: Seq<char>,
    first_name: Seq<char>,
    last_name: Seq<char>,
    dob: Seq<char>,
    selfie_image: Seq<char>,
    partner_params: Option<Vec<(String, String)>>,
) -> Seq<(Seq<char>, Seq<char>)> {
    seq![
        string_field("id_type"@, id_type),
        string_field("id_number"@, id_number),
        string_field("country"@, country),
        string_field("first_name"@, first_name),
        string_field("last_name"@, last_name),
        string_field("dob"@, dob),
        string_field("selfie_image"@, selfie_image),
    ] + opt_map_field("partner_params"@, partner_params)
}

/// The body of an identity check against a selfie.
#[derive(Clone, Debug)]
pub struct BiometricKycRequest {
    pub id_type: String,
    pub id_number: String,
    pub country: String,
    pub first_name: String,
    pub last_name: String,
    pub dob: String,
    pub selfie_image: String,
    pub partner_params: Option<Vec<(String, String)>>,
}

impl BiometricKycRequest {
    /// The members of the body, in order.
    pub open spec fn fields(&self) -> Seq<(Seq<char>, Seq<char>)> {
        biometric_kyc_fields(
            self.id_type@,
            self.id_number@,
            self.country@,
            self.first_name@,
            self.last_name@,
            self.dob@,
            self.selfie_image@,
            self.partner_params,
        )
    }

    /// The exact bytes of the body as sent and signed.
    pub fn to_json(&self) -> (r: String)
        ensures
            r@ == object_text(self.fields()),
    {
        let mut w = ObjectWriter::new();
        w.string_field("id_type", self.id_type.as_str());
        w.string_field("id_number", self.id_number.as_str());
        w.string_field("country", self.country.as_str());
        w.string_field("first_name", self.first_name.as_str());
        w.string_field("last_name", self.last_name.as_str());
        w.string_field("dob", self.dob.as_str());
        w.string_field("selfie_image", self.selfie_image.as_str());
        w.opt_map_field("partner_params", &self.partner_params);
        assert(w.fields() =~= self.fields());
        w.finish()
    }
}

/// The members of the body of a document check, in order; an absent optional field has none.
pub open spec fn document_verification_fields(
    document_type: Seq<char>,
    country: Seq<char>,
    document_images: Seq<String>,
    partner_params: Option<Vec<(String, String)>>,
) -> Seq<(Seq<char>, Seq<char>)> {
    seq![
        string_field("document_type"@, document_type),
        string_field("country"@, country),
        ("document_images"@, string_array_text(document_images)),
    ] + opt_map_field("partner_params"@, partner_params)
}

/// The body of a document check.
#[derive(Clone, Debug)]
pub struct DocumentVerificationRequest {
    pub document_type: String,
    pub country: String,
    pub document_images: Vec<String>,
    pub partner_params: Option<Vec<(String, String)>>,
}

impl DocumentVerificationRequest {
    /// The members of the body, in order.
    pub open spec fn fields(&self) -> Seq<(Seq<char>, Seq<char>)> {
        document_verification_fields(
            self.document_type@,
            self.country@,
            self.document_images@,
            self.partner_params,
        )
    }

    /// The exact bytes of the body as sent and signed.
    pub fn to_json(&self) -> (r: String)
        ensures
            r@ == object_text(self.fields()),
    {
        let mut w = ObjectWriter::new();
        w.string_field("document_type", self.document_type.as_str());
        w.string_field("country", self.country.as_str());
        w.string_array_field("document_images", &self.document_images);
        w.opt_map_field("partner_params", &self.partner_params);
        assert(w.fields() =~= self.fields());
        w.finish()
    }
}

/// The members of the body of a selfie authentication, in order; an absent optional field has none.
pub open spec fn smartselfie_auth_fields(
    user_id: Seq<char>,
    job_id: Seq<char>,
    selfie_image: Seq<char>,
    partner_params: Option<Vec<(String, String)>>,
) -> Seq<(Seq<char>, Seq<char>)> {
    seq![
        string_field("user_id"@, user_id),
        string_field("job_id"@, job_id),
        string_field("selfie_image"@, selfie_image),
    ] + opt_map_field("partner_params"@, partner_params)
}

/// The body of a selfie authentication.
#[derive(Clone, Debug)]
pub struct SmartSelfieAuthRequest {
    pub user_id: String,
    pub job_id: String,
    pub selfie_image: String,
    pub partner_params: Option<Vec<(String, String)>>,
}

impl SmartSelfieAuthRequest {
    /// The members of the body, in order.
    pub open spec fn fields(&self) -> Seq<(Seq<char>, Seq<char>)> {
        smartselfie_auth_fields(
            self.user_id@,
            self.job_id@,
            self.selfie_image@,
            self.partner_params,
        )
    }

    /// The exact bytes of the body as sent and signed.
    pub fn to_json(&self) -> (r: String)
        ensures
            r@ == object_text(self.fields()),
    {
        let mut w = ObjectWriter::new();
        w.string_field("user_id", self.user_id.as_str());
        w.string_field("job_id", self.job_id.as_str());
        w.string_field("selfie_image", self.selfie_image.as_str());
        w.opt_map_field("partner_params", &self.partner_params);
        assert(w.fields() =~= self.fields());
        w.finish()
    }
}

/// The members of the body of a business registry check, in order; an absent optional field has none.
pub open spec fn business_verification_fields(
    business_name: Seq<char>,
    registration_number: Seq<char>,
    country: Seq<char>,
    partner_params: Option<Vec<(String, String)>>,
) -> Seq<(Seq<char>, Seq<char>)> {
    seq![
        string_field("business_name"@, business_name),
        string_field("registration_number"@, registration_number),
        string_field("country"@, country),
    ] + opt_map_field("partner_params"@, partner_params)
}

/// The body of a business registry check.
#[derive(Clone, Debug)]
pub struct BusinessVerificationRequest {
    pub business_name: String,
    pub registration_number: String,
    pub country: String,
    pub partner_params: Option<Vec<(String, String)>>,
}

impl BusinessVerificationRequest {
    /// The members of the body, in order.
    pub open spec fn fields(&self) -> Seq<(Seq<char>, Seq<char>)> {
        business_verification_fields(
            self.business_name@,
            self.registration_number@,
            self.country@,
            self.partner_params,
        )
    }

    /// The exact bytes of the body as sent and signed.
    pub fn to_json(&self) -> (r: String)
        ensures
            r@ == object_text(self.fields()),
    {
        let mut w = ObjectWriter::new();
        w.string_field("business_name", self.business_name.as_str());
        w.string_field("registration_number", self.registration_number.as_str());
        w.string_field("country", self.country.as_str());
        w.opt_map_field("partner_params", &self.partner_params);
        assert(w.fields() =~= self.fields());
        w.finish()
    }
}

/// The members of the body of a job status query, in order; an absent optional field has none.
pub open spec fn job_status_fields(
    user_id: Seq<char>,
    job_id: Seq<char>,
    include_history: Option<bool>,
    include_image_links: Option<bool>,
) -> Seq<(Seq<char>, Seq<char>)> {
    seq![string_field("user_id"@, user_id), string_field("job_id"@, job_id)]
        + opt_bool_field("include_history"@, include_history)
        + opt_bool_field("include_image_links"@, include_image_links)
}

/// The body of a job status query.
#[derive(Clone, Debug)]
pub struct JobStatusRequest {
    pub user_id: String,
    pub job_id: String,
    pub include_history: Option<bool>,
    pub include_image_links: Option<bool>,
}

impl JobStatusRequest {
    /// The members of the body, in order.
    pub open spec fn fields(&self) -> Seq<(Seq<char>, Seq<char>)> {
        job_status_fields(
            self.user_id@,
            self.job_id@,
            self.include_history,
            self.include_image_links,
        )
    }

    /// The exact bytes of the body as sent and signed.
    pub fn to_json(&self) -> (r: String)
        ensures
            r@ == object_text(self.fields()),
    {
        let mut w = ObjectWriter::new();
        w.string_field("user_id", self.user_id.as_str());
        w.string_field("job_id", self.job_id.as_str());
        w.opt_bool_field("include_history", self.include_history);
        w.opt_bool_field("include_image_links", self.include_image_links);
        assert(w.fields() =~= self.fields());
        w.finish()
    }
}

proof fn lemma_has_key_concat(a: Seq<(Seq<char>, Seq<char>)>, b: Seq<(Seq<char>, Seq<char>)>, key: Seq<char>)
    ensures
        has_key(a + b, key) <==> has_key(a, key) || has_key(b, key),
{
    let ab = a + b;
    if has_key(ab, key) {
        let i = choose|i: int| 0 <= i < ab.len() && #[trigger] ab[i].0 == key;
        if i < a.len() {
            assert(a[i].0 == key);
        } else {
            assert(b[i - a.len()].0 == key);
        }
    }
    if has_key(a, key) {
        let i = choose|i: int| 0 <= i < a.len() && #[trigger] a[i].0 == key;
        assert(ab[i].0 == key);
    }
    if has_key(b, key) {
        let i = choose|i: int| 0 <= i < b.len() && #[trigger] b[i].0 == key;
        assert(ab[i + a.len()].0 == key);
    }
}

proof fn lemma_has_key_single(field: (Seq<char>, Seq<char>), key: Seq<char>)
    ensures
        has_key(seq![field], key) <==> field.0 == key,
{
    if field.0 == key {
        assert(seq![field][0].0 == key);
    }
}

proof fn lemma_has_key_optional(fields: Seq<(Seq<char>, Seq<char>)>, present: bool, own: Seq<char>, key: Seq<char>)
    requires
        fields.len() == if present { 1int } else { 0int },
        present ==> fields[0].0 == own,
    ensures
        has_key(fields, key) <==> present && own == key,
{
    if present {
        assert(fields =~= seq![fields[0]]);
        lemma_has_key_single(fields[0], key);
    }
}

/// A basic check's body has a key for an optional field exactly when that
/// field is set.
pub proof fn lemma_basic_kyc_field_omission(r: BasicKycRequest)
    ensures
        has_key(r.fields(), "first_name"@) <==> r.first_name is Some,
        has_key(r.fields(), "last_name"@) <==> r.last_name is Some,
        has_key(r.fields(), "dob"@) <==> r.dob is Some,
        has_key(r.fields(), "partner_params"@) <==> r.partner_params is Some,
{
    reveal_strlit("id_type");
    reveal_strlit("id_number");
    reveal_strlit("country");
    reveal_strlit("first_name");
    reveal_strlit("last_name");
    reveal_strlit("dob");
    reveal_strlit("partner_params");
    let base = seq![
        string_field("id_type"@, r.id_type@),
        string_field("id_number"@, r.id_number@),
        string_field("country"@, r.country@),
    ];
    let o1 = opt_string_field("first_name"@, r.first_name);
    let o2 = opt_string_field("last_name"@, r.last_name);
    let o3 = opt_string_field("dob"@, r.dob);
    let o4 = opt_map_field("partner_params"@, r.partner_params);
    assert(r.fields() == base + o1 + o2 + o3 + o4);
    let keys = seq!["first_name"@, "last_name"@, "dob"@, "partner_params"@];
    assert forall|k: int| 0 <= k < 4 implies {
        let key = #[trigger] keys[k];
        &&& !has_key(base, key)
        &&& (has_key(o1, key) <==> r.first_name is Some && "first_name"@ == key)
        &&& (has_key(o2, key) <==> r.last_name is Some && "last_name"@ == key)
        &&& (has_key(o3, key) <==> r.dob is Some && "dob"@ == key)
        &&& (has_key(o4, key) <==> r.partner_params is Some && "partner_params"@ == key)
        &&& (has_key(r.fields(), key) <==> has_key(base, key) || has_key(o1, key) || has_key(o2, key)
            || has_key(o3, key) || has_key(o4, key))
    } by {
        let key = keys[k];
        assert(key[0] != 'i' && key[0] != 'c');
        if has_key(base, key) {
            let i = choose|i: int| 0 <= i < base.len() && #[trigger] base[i].0 == key;
            assert(base[i].0[0] == 'i' || base[i].0[0] == 'c');
        }
        lemma_has_key_optional(o1, r.first_name is Some, "first_name"@, key);
        lemma_has_key_optional(o2, r.last_name is Some, "last_name"@, key);
        lemma_has_key_optional(o3, r.dob is Some, "dob"@, key);
        lemma_has_key_optional(o4, r.partner_params is Some, "partner_params"@, key);
        lemma_has_key_concat(base, o1, key);
        lemma_has_key_concat(base + o1, o2, key);
        lemma_has_key_concat(base + o1 + o2, o3, key);
        lemma_has_key_concat(base + o1 + o2 + o3, o4, key);
    }
    assert(keys[0] == "first_name"@ && keys[1] == "last_name"@ && keys[2] == "dob"@ && keys[3] == "partner_params"@);
    assert("first_name"@[0] == 'f' && "last_name"@[0] == 'l' && "dob"@[0] == 'd' && "partner_params"@[0] == 'p');
}

/// A job status query's body has a key for an optional flag exactly when
/// that flag is set.
pub proof fn lemma_job_status_field_omission(r: JobStatusRequest)
    ensures
        has_key(r.fields(), "include_history"@) <==> r.include_history is Some,
        has_key(r.fields(), "include_image_links"@) <==> r.include_image_links is Some,
{
    reveal_strlit("user_id");
    reveal_strlit("job_id");
    reveal_strlit("include_history");
    reveal_strlit("include_image_links");
    let base = seq![string_field("user_id"@, r.user_id@), string_field("job_id"@, r.job_id@)];
    let o1 = opt_bool_field("include_history"@, r.include_history);
    let o2 = opt_bool_field("include_image_links"@, r.include_image_links);
    assert(r.fields() == base + o1 + o2);
    assert("include_history"@[8] != "include_image_links"@[8]);
    let keys = seq!["include_history"@, "include_image_links"@];
    assert forall|k: int| 0 <= k < 2 implies {
        let key = #[trigger] keys[k];
        &&& !has_key(base, key)
        &&& (has_key(o1, key) <==> r.include_history is Some && "include_history"@ == key)
        &&& (has_key(o2, key) <==> r.include_image_links is Some && "include_image_links"@ == key)
        &&& (has_key(r.fields(), key) <==> has_key(base, key) || has_key(o1, key) || has_key(o2, key))
    } by {
        let key = keys[k];
        assert(key[0] == 'i');
        if has_key(base, key) {
            let i = choose|i: int| 0 <= i < base.len() && #[trigger] base[i].0 == key;
            assert(base[i].0[0] == 'u' || base[i].0[0] == 'j');
        }
        lemma_has_key_optional(o1, r.include_history is Some, "include_history"@, key);
        lemma_has_key_optional(o2, r.include_image_links is Some, "include_image_links"@, key);
        lemma_has_key_concat(base, o1, key);
        lemma_has_key_concat(base + o1, o2, key);
    }
    assert(keys[0] == "include_history"@ && keys[1] == "include_image_links"@);
}

proof fn lemma_trailing_params_omission(
    base: Seq<(Seq<char>, Seq<char>)>,
    params: Option<Vec<(String, String)>>,
)
    requires
        forall|i: int| 0 <= i < base.len() ==> (#[trigger] base[i].0).len() > 0 && base[i].0[0] != 'p',
    ensures
        has_key(base + opt_map_field("partner_params"@, params), "partner_params"@) <==> params is Some,
{
    reveal_strlit("partner_params");
    let key = "partner_params"@;
    let o = opt_map_field(key, params);
    if has_key(base, key) {
        let i = choose|i: int| 0 <= i < base.len() && #[trigger] base[i].0 == key;
        assert(base[i].0[0] == 'p');
    }
    lemma_has_key_optional(o, params is Some, key, key);
    lemma_has_key_concat(base, o, key);
}

/// An enhanced check's body has a `partner_params` key exactly when
/// partner parameters are set.
pub proof fn lemma_enhanced_kyc_field_omission(r: EnhancedKycRequest)
    ensures
        has_key(r.fields(), "partner_params"@) <==> r.partner_params is Some,
{
    reveal_strlit("id_type");
    reveal_strlit("id_number");
    reveal_strlit("country");
    reveal_strlit("first_name");
    reveal_strlit("last_name");
    reveal_strlit("dob");
    let base = seq![
        string_field("id_type"@, r.id_type@),
        string_field("id_number"@, r.id_number@),
        string_field("country"@, r.country@),
        string_field("first_name"@, r.first_name@),
        string_field("last_name"@, r.last_name@),
        string_field("dob"@, r.dob@),
    ];
    assert(r.fields() == base + opt_map_field("partner_params"@, r.partner_params));
    lemma_trailing_params_omission(base, r.partner_params);
}

/// A biometric check's body has a `partner_params` key exactly when
/// partner parameters are set.
pub proof fn lemma_biometric_kyc_field_omission(r: BiometricKycRequest)
    ensures
        has_key(r.fields(), "partner_params"@) <==> r.partner_params is Some,
{
    reveal_strlit("id_type");
    reveal_strlit("id_number");
    reveal_strlit("country");
    reveal_strlit("first_name");
    reveal_strlit("last_name");
    reveal_strlit("dob");
    reveal_strlit("selfie_image");
    let base = seq![
        string_field("id_type"@, r.id_type@),
        string_field("id_number"@, r.id_number@),
        string_field("country"@, r.country@),
        string_field("first_name"@, r.first_name@),
        string_field("last_name"@, r.last_name@),
        string_field("dob"@, r.dob@),
        string_field("selfie_image"@, r.selfie_image@),
    ];
    assert(r.fields() == base + opt_map_field("partner_params"@, r.partner_params));
    lemma_trailing_params_omission(base, r.partner_params);
}

/// A document check's body has a `partner_params` key exactly when
/// partner parameters are set.
pub proof fn lemma_document_verification_field_omission(r: DocumentVerificationRequest)
    ensures
        has_key(r.fields(), "partner_params"@) <==> r.partner_params is Some,
{
    reveal_strlit("document_type");
    reveal_strlit("country");
    reveal_strlit("document_images");
    let base = seq![
        string_field("document_type"@, r.document_type@),
        string_field("country"@, r.country@),
        ("document_images"@, string_array_text(r.document_images@)),
    ];
    assert(r.fields() == base + opt_map_field("partner_params"@, r.partner_params));
    lemma_trailing_params_omission(base, r.partner_params);
}

/// A selfie authentication's body has a `partner_params` key exactly when
/// partner parameters are set.
pub proof fn lemma_smartselfie_auth_field_omission(r: SmartSelfieAuthRequest)
    ensures
        has_key(r.fields(), "partner_params"@) <==> r.partner_params is Some,
{
    reveal_strlit("user_id");
    reveal_strlit("job_id");
    reveal_strlit("selfie_image");
    let base = seq![
        string_field("user_id"@, r.user_id@),
        string_field("job_id"@, r.job_id@),
        string_field("selfie_image"@, r.selfie_image@),
    ];
    assert(r.fields() == base + opt_map_field("partner_params"@, r.partner_params));
    lemma_trailing_params_omission(base, r.partner_params);
}

/// A business check's body has a `partner_params` key exactly when
/// partner parameters are set.
pub proof fn lemma_business_verification_field_omission(r: BusinessVerificationRequest)
    ensures
        has_key(r.fields(), "partner_params"@) <==> r.partner_params is Some,
{
    reveal_strlit("business_name");
    reveal_strlit("registration_number");
    reveal_strlit("country");
    let base = seq![
        string_field("business_name"@, r.business_name@),
        string_field("registration_number"@, r.registration_number@),
        string_field("country"@, r.country@),
    ];
    assert(r.fields() == base + opt_map_field("partner_params"@, r.partner_params));
    lemma_trailing_params_omission(base, r.partner_params);
}

} // verus!
