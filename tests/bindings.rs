use samael::binding::{
    decode_redirect_param, decode_redirect_payload, escape_html_attribute, post_form_html,
    redirect_url, BindingError, SAML_REQUEST,
};
use samael::schema::authn_request::AuthnRequest;
use samael::schema::response::Response;
use samael::utils::{
    gen_saml_assertion_id, gen_saml_response_id, saml_assertion_id, saml_response_id,
};

const XML: &str = "<samlp:AuthnRequest ID=\"id-1\" Version=\"2.0\">\u{e9}t\u{e9}</samlp:AuthnRequest>";

fn query_param(location: &str, name: &str) -> Option<String> {
    let url = url::Url::parse(location).unwrap();
    url.query_pairs()
        .find(|(k, _)| k == name)
        .map(|(_, v)| v.into_owned())
}

#[test]
fn redirect_round_trip_gives_back_the_xml() {
    let loc = redirect_url("https://idp.example.com/sso", SAML_REQUEST, XML, None).unwrap();
    assert!(loc.starts_with("https://idp.example.com/sso?SAMLRequest="));
    let payload = query_param(&loc, "SAMLRequest").unwrap();
    assert_eq!(decode_redirect_payload(&payload).unwrap(), XML.as_bytes().to_vec());
    assert_eq!(query_param(&loc, "RelayState"), None);
    let plain = post_form_html("https://idp.example.com/sso", SAML_REQUEST, XML, None);
    assert!(!plain.contains(&payload));
}

#[test]
fn redirect_appends_to_existing_query_and_carries_relay_state() {
    let loc = redirect_url("https://idp.example.com/sso?a=1", SAML_REQUEST, XML, Some("a b&c")).unwrap();
    assert!(loc.starts_with("https://idp.example.com/sso?a=1&SAMLRequest="));
    assert!(loc.ends_with("&RelayState=a+b%26c"));
    assert_eq!(query_param(&loc, "a"), Some("1".to_string()));
    assert_eq!(query_param(&loc, "RelayState"), Some("a b&c".to_string()));
    let payload = query_param(&loc, "SAMLRequest").unwrap();
    assert_eq!(decode_redirect_payload(&payload).unwrap(), XML.as_bytes().to_vec());
}

#[test]
fn redirect_rejects_bad_destinations() {
    assert_eq!(
        redirect_url("not a url", SAML_REQUEST, XML, None),
        Err(BindingError::InvalidDestination)
    );
}

fn raw_query_value<'a>(location: &'a str, name: &str) -> &'a str {
    let start = location.find(&format!("{name}=")).unwrap() + name.len() + 1;
    let rest = &location[start..];
    let end = rest.find(|c| c == '&' || c == '#').unwrap_or(rest.len());
    &rest[..end]
}

#[test]
fn query_goes_before_the_fragment() {
    let loc = redirect_url("https://idp.example.com/sso?x=1#frag", SAML_REQUEST, XML, Some("s")).unwrap();
    assert!(loc.starts_with("https://idp.example.com/sso?x=1&SAMLRequest="));
    assert!(loc.ends_with("&RelayState=s#frag"));
    let url = url::Url::parse(&loc).unwrap();
    assert_eq!(url.fragment(), Some("frag"));
    let payload = query_param(&loc, "SAMLRequest").unwrap();
    assert_eq!(decode_redirect_payload(&payload).unwrap(), XML.as_bytes().to_vec());
}

#[test]
fn raw_query_value_decodes_back_to_the_xml() {
    let loc = redirect_url("https://idp.example.com/sso", SAML_REQUEST, XML, Some("a b")).unwrap();
    let raw = raw_query_value(&loc, "SAMLRequest");
    assert_eq!(decode_redirect_param(raw).unwrap(), XML.as_bytes().to_vec());
    assert_eq!(decode_redirect_param("%4"), None);
    assert_eq!(decode_redirect_param("%zz"), None);
    assert_eq!(decode_redirect_param("a/b"), None);
}

#[test]
fn html_attributes_are_escaped() {
    assert_eq!(escape_html_attribute("a\"<b>&c\u{e9}"), "a&quot;&lt;b&gt;&amp;c\u{e9}");
    assert_eq!(escape_html_attribute(""), "");
    let form = post_form_html("https://sp/acs?a=1&b=2", SAML_REQUEST, "<a/>", Some("\"><script>"));
    assert!(form.starts_with("<form method=\"post\" action=\"https://sp/acs?a=1&amp;b=2\""));
    assert!(form.contains("name=\"RelayState\" value=\"&quot;&gt;&lt;script&gt;\""));
}

#[test]
fn decoding_rejects_garbage() {
    assert_eq!(decode_redirect_payload("@@@"), None);
    assert_eq!(decode_redirect_payload("aGVsbG8="), None);
}

#[test]
fn post_form_embeds_base64_xml_and_relay_state() {
    let form = post_form_html("https://sp/acs", SAML_REQUEST, "<a/>", None);
    assert_eq!(
        form,
        "<form method=\"post\" action=\"https://sp/acs\" id=\"SAMLRequestForm\"><input type=\"hidden\" name=\"SAMLRequest\" value=\"PGEvPg==\" /><input id=\"SAMLSubmitButton\" type=\"submit\" value=\"Submit\" /></form><script>document.getElementById('SAMLSubmitButton').style.visibility=\"hidden\";document.getElementById('SAMLRequestForm').submit();</script>"
    );
    let with_relay = post_form_html("https://sp/acs", SAML_REQUEST, "<a/>", Some("state"));
    assert!(with_relay.contains(
        "value=\"PGEvPg==\" /><input type=\"hidden\" name=\"RelayState\" value=\"state\" />"
    ));
}

#[test]
fn request_bindings_need_a_destination() {
    let mut req = AuthnRequest::default();
    assert_eq!(req.redirect(XML, None), Err(BindingError::MissingDestination));
    assert_eq!(req.post(XML, None), Err(BindingError::MissingDestination));
    req.destination = Some("https://idp.example.com/sso".to_string());
    let loc = req.redirect(XML, Some("rs")).unwrap();
    let payload = query_param(&loc, "SAMLRequest").unwrap();
    assert_eq!(decode_redirect_payload(&payload).unwrap(), XML.as_bytes().to_vec());
    assert!(req.post("<a/>", None).unwrap().contains("name=\"SAMLRequest\" value=\"PGEvPg==\""));
}

#[test]
fn response_bindings_use_the_response_parameter() {
    let resp = Response {
        destination: Some("https://sp.example.com/acs".to_string()),
        ..Default::default()
    };
    let loc = resp.redirect(XML, None).unwrap();
    let payload = query_param(&loc, "SAMLResponse").unwrap();
    assert_eq!(decode_redirect_payload(&payload).unwrap(), XML.as_bytes().to_vec());
    assert!(resp.post("<a/>", None).unwrap().contains("name=\"SAMLResponse\" value=\"PGEvPg==\""));
    assert_eq!(Response::default().post(XML, None), Err(BindingError::MissingDestination));
}

#[test]
fn generated_ids_have_their_prefix_and_differ() {
    let r = gen_saml_response_id();
    assert!(r.starts_with("id"));
    assert_eq!(r.len(), 38);
    let a = gen_saml_assertion_id();
    assert!(a.starts_with('_'));
    assert_eq!(a.len(), 37);
    assert_ne!(gen_saml_assertion_id(), a);
    assert_eq!(saml_response_id("0e7f"), "id0e7f");
    assert_eq!(saml_assertion_id("0e7f"), "_0e7f");
}
