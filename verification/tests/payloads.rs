//! Payload assembly and fingerprint tests.

use xhs_rs::fingerprint::fingerprint;
use xhs_rs::request::{
    default_image_formats, default_xsec_source, FieldValue, HttpMethod, NoteDetailRequest,
    SearchFilterParams, SearchParams, SignatureRequest,
};

#[test]
fn default_image_formats_are_jpg_webp_avif() {
    assert_eq!(default_image_formats(), vec!["jpg", "webp", "avif"]);
}

#[test]
fn default_xsec_source_is_pc_feed() {
    assert_eq!(default_xsec_source(), "pc_feed");
}

#[test]
fn note_detail_payload_lists_the_fields_in_order() {
    let req = NoteDetailRequest::new("6965aba6000000000e03c2a2".to_string(), "tok".to_string());
    let fields = req.payload_fields();
    assert_eq!(fields.len(), 4);
    assert_eq!(fields[0].key, "source_note_id");
    match &fields[0].value {
        FieldValue::Text(t) => assert_eq!(t, "6965aba6000000000e03c2a2"),
        _ => panic!("source_note_id is a string field"),
    }
    assert_eq!(fields[1].key, "image_formats");
    match &fields[1].value {
        FieldValue::TextList(l) => assert_eq!(l, &vec!["jpg", "webp", "avif"]),
        _ => panic!("image_formats is a list field"),
    }
    assert_eq!(fields[2].key, "xsec_source");
    match &fields[2].value {
        FieldValue::Text(t) => assert_eq!(t, "pc_feed"),
        _ => panic!("xsec_source is a string field"),
    }
    assert_eq!(fields[3].key, "xsec_token");
    match &fields[3].value {
        FieldValue::Text(t) => assert_eq!(t, "tok"),
        _ => panic!("xsec_token is a string field"),
    }
}

#[test]
fn note_detail_payload_appends_extra_when_present() {
    let mut req = NoteDetailRequest::new("id".to_string(), "tok".to_string());
    req.extra = Some("{\"need_body_topic\":\"1\"}".to_string());
    let fields = req.payload_fields();
    assert_eq!(fields.len(), 5);
    assert_eq!(fields[4].key, "extra");
    match &fields[4].value {
        FieldValue::Raw(raw) => assert_eq!(raw, "{\"need_body_topic\":\"1\"}"),
        _ => panic!("extra is spliced in verbatim"),
    }
}

#[test]
fn fingerprint_matches_a_reference_fnv1a_fold() {
    // recompute the fingerprint by hand: FNV-1a over the method tag,
    // the path and the payload, each part closed by a zero byte
    let path = b"/api/sns/web/v1/feed";
    let payload = b"{\"a\":1}";
    let mut h: u64 = 0xcbf29ce484222325;
    for &b in [2u8, 0]
        .iter()
        .chain(path.iter())
        .chain([0u8].iter())
        .chain(payload.iter())
    {
        h = (h ^ b as u64).wrapping_mul(0x100000001b3);
    }
    assert_eq!(fingerprint(2, path, payload), h);
}

#[test]
fn fingerprint_distinguishes_method_path_and_payload() {
    let fp = |m: HttpMethod, path: &str, payload: &str| {
        SignatureRequest {
            id: 0,
            method: m,
            path: path.to_string(),
            payload: payload.to_string(),
        }
        .fingerprint()
    };
    let base = fp(HttpMethod::Post, "/api/a", "{}");
    assert_eq!(base, fp(HttpMethod::Post, "/api/a", "{}"));
    assert_ne!(base, fp(HttpMethod::Get, "/api/a", "{}"));
    assert_ne!(base, fp(HttpMethod::Post, "/api/b", "{}"));
    assert_ne!(base, fp(HttpMethod::Post, "/api/a", "{\"x\":1}"));
    // the separator keeps boundary shifts apart
    assert_ne!(fp(HttpMethod::Post, "/api/ab", "c"), fp(HttpMethod::Post, "/api/a", "bc"));
}

#[test]
fn search_params_carry_their_fields() {
    let p = SearchParams { keyword: "rust".to_string() };
    assert_eq!(p.keyword, "rust");
    let f = SearchFilterParams { keyword: "rust".to_string(), search_id: "s1".to_string() };
    assert_eq!(f.keyword, "rust");
    assert_eq!(f.search_id, "s1");
}
