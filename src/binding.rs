use vstd::prelude::*;
use vstd::utf8::encode_utf8;
use crate::encoding::{
    base64_decoded, base64_encoded, decode_base64, deflate, deflated, encode_base64, form_decode,
    form_decoded, form_encode, form_encoded, inflate, inflated, is_url, lemma_form_round_trip,
    parses_as_url,
};

verus! {

/// The query parameter that carries a request.
pub const SAML_REQUEST: &'static str = "SAMLRequest";

/// The query parameter that carries a response.
pub const SAML_RESPONSE: &'static str = "SAMLResponse";

/// Why a message could not be encoded for a binding.
#[derive(Clone, Copy, Debug, PartialEq, Eq, Structural)]
pub enum BindingError {
    MissingDestination,
    InvalidDestination,
}

pub open spec fn has_char(s: Seq<char>, c: char) -> bool {
    exists|i: int| 0 <= i < s.len() && s[i] == c
}

pub open spec fn opt_text(o: Option<&str>) -> Option<Seq<char>> {
    match o {
        Some(s) => Some(s@),
        None => None,
    }
}

/// A destination that can take a query: an absolute URL.
pub open spec fn redirect_destination_ok(dest: Seq<char>) -> bool {
    parses_as_url(dest)
}

/// The position of the first `c` in `s`, or its length where there is none.
pub open spec fn first_index(s: Seq<char>, c: char) -> int
    decreases s.len(),
{
    if s.len() == 0 {
        0
    } else if s[0] == c {
        0
    } else {
        1 + first_index(s.drop_first(), c)
    }
}

proof fn lemma_first_index(s: Seq<char>, c: char, i: int)
    requires
        0 <= i <= s.len(),
        forall|j: int| 0 <= j < i ==> s[j] != c,
        i < s.len() ==> s[i] == c,
    ensures
        first_index(s, c) == i,
    decreases i,
{
    if i > 0 {
        lemma_first_index(s.drop_first(), c, i - 1);
    }
}

/// The bytes a redirect binding carries for a message: its XML, deflated.
pub open spec fn redirect_payload(xml: Seq<char>) -> Seq<u8> {
    deflated(encode_utf8(xml))
}

/// The form-encoded base64 text of a payload, as it stands in the query.
pub open spec fn redirect_param_value(payload: Seq<u8>) -> Seq<char> {
    form_encoded(encode_utf8(base64_encoded(payload)))
}

/// The redirect location: the payload under `param` and the optional relay state, each
/// form-encoded, added to the destination's query, before its fragment if it has one.
pub open spec fn redirect_location(
    dest: Seq<char>,
    param: Seq<char>,
    payload: Seq<u8>,
    relay: Option<Seq<char>>,
) -> Seq<char> {
    let k = first_index(dest, '#');
    let base = dest.take(k);
    let fragment = dest.skip(k);
    let sep = if has_char(base, '?') {
        "&"@
    } else {
        "?"@
    };
    let relay_part = match relay {
        Some(r) => "&RelayState="@ + form_encoded(encode_utf8(r)),
        None => Seq::empty(),
    };
    base + sep + form_encoded(encode_utf8(param)) + "="@ + redirect_param_value(payload) + relay_part
        + fragment
}

/// The bytes read back from a form-encoded query value of a redirect binding: decoded
/// from the form encoding, base64-decoded, then inflated.
pub open spec fn redirect_param_decoded(value: Seq<char>) -> Option<Seq<u8>> {
    match form_decoded(value) {
        Some(b) => match base64_decoded(b) {
            Some(d) => inflated(d),
            None => None,
        },
        None => None,
    }
}

/// The bytes read back from the base64 payload of a redirect binding: base64-decoded, then
/// inflated.
pub open spec fn redirect_decoded(encoded: Seq<char>) -> Option<Seq<u8>> {
    match base64_decoded(encode_utf8(encoded)) {
        Some(d) => inflated(d),
        None => None,
    }
}

/// One character as it stands in an HTML attribute value.
pub open spec fn html_escaped_char(c: char) -> Seq<char> {
    if c == '&' {
        "&amp;"@
    } else if c == '"' {
        "&quot;"@
    } else if c == '<' {
        "&lt;"@
    } else if c == '>' {
        "&gt;"@
    } else {
        seq![c]
    }
}

/// A text as it stands in an HTML attribute value: `&`, `"`, `<` and `>` escaped.
pub open spec fn html_escaped(s: Seq<char>) -> Seq<char>
    decreases s.len(),
{
    if s.len() == 0 {
        Seq::empty()
    } else {
        html_escaped(s.drop_last()) + html_escaped_char(s.last())
    }
}

/// The auto-submitting HTML form of the POST binding; the destination and the relay state
/// are escaped.
pub open spec fn post_form(dest: Seq<char>, param: Seq<char>, encoded: Seq<char>, relay: Option<Seq<char>>) -> Seq<char> {
    let relay_part = match relay {
        Some(r) => "<input type=\"hidden\" name=\"RelayState\" value=\""@ + html_escaped(r) + "\" />"@,
        None => Seq::empty(),
    };
    "<form method=\"post\" action=\""@ + html_escaped(dest) + "\" id=\"SAMLRequestForm\"><input type=\"hidden\" name=\""@
        + param + "\" value=\""@ + encoded + "\" />"@ + relay_part
        + "<input id=\"SAMLSubmitButton\" type=\"submit\" value=\"Submit\" /></form><script>document.getElementById('SAMLSubmitButton').style.visibility=\"hidden\";document.getElementById('SAMLRequestForm').submit();</script>"@
}

fn contains_char(s: &str, c: char) -> (r: bool)
    ensures
        r == has_char(s@, c),
{
    let n = s.unicode_len();
    let mut i: usize = 0;
    while i < n
        invariant
            n == s@.len(),
            i <= n,
            forall|k: int| 0 <= k < i ==> s@[k] != c,
        decreases n - i,
    {
        if s.get_char(i) == c {
            return true;
        }
        i = i + 1;
    }
    false
}

fn find_char(s: &str, c: char) -> (r: usize)
    ensures
        r as int == first_index(s@, c),
        r <= s@.len(),
{
    let n = s.unicode_len();
    let mut i: usize = 0;
    while i < n
        invariant
            n == s@.len(),
            i <= n,
            forall|k: int| 0 <= k < i ==> s@[k] != c,
        decreases n - i,
    {
        if s.get_char(i) == c {
            proof {
                lemma_first_index(s@, c, i as int);
            }
            return i;
        }
        i = i + 1;
    }
    proof {
        lemma_first_index(s@, c, n as int);
    }
    n
}

/// Escapes `&`, `"`, `<` and `>` for an HTML attribute value.
pub fn escape_html_attribute(s: &str) -> (r: String)
    ensures
        r@ == html_escaped(s@),
{
    let n = s.unicode_len();
    let mut out = String::new();
    let mut i: usize = 0;
    while i < n
        invariant
            n == s@.len(),
            i <= n,
            out@ == html_escaped(s@.take(i as int)),
        decreases n - i,
    {
        let c = s.get_char(i);
        assert(s@.take(i + 1).drop_last() =~= s@.take(i as int));
        assert(s@.take(i + 1).last() == c);
        if c == '&' {
            out.append("&amp;");
        } else if c == '"' {
            out.append("&quot;");
        } else if c == '<' {
            out.append("&lt;");
        } else if c == '>' {
            out.append("&gt;");
        } else {
            let one = s.substring_char(i, i + 1);
            assert(one@ =~= seq![c]);
            out.append(one);
        }
        i = i + 1;
    }
    assert(s@.take(n as int) =~= s@);
    out
}

/// Encodes a message for the redirect binding: the XML is deflated, base64-encoded and
/// added to the destination's query under `param`, followed by the relay state. The
/// query value reads back as the XML.
pub fn redirect_url(destination: &str, param: &str, xml: &str, relay_state: Option<&str>) -> (r: Result<
    String,
    BindingError,
>)
    ensures
        !redirect_destination_ok(destination@) ==> r == Err::<String, BindingError>(
            BindingError::InvalidDestination,
        ),
        redirect_destination_ok(destination@) ==> (r matches Ok(loc) && loc@ == redirect_location(
            destination@,
            param@,
            redirect_payload(xml@),
            opt_text(relay_state),
        )),
        redirect_param_decoded(redirect_param_value(redirect_payload(xml@))) == Some(
            encode_utf8(xml@),
        ),
        redirect_decoded(base64_encoded(redirect_payload(xml@))) == Some(encode_utf8(xml@)),
{
    let compressed = deflate(xml.as_bytes());
    let encoded = encode_base64(compressed.as_slice());
    let value = form_encode(encoded.as_str());
    proof {
        lemma_form_round_trip(encode_utf8(encoded@));
    }
    if !is_url(destination) {
        return Err(BindingError::InvalidDestination);
    }
    let n = destination.unicode_len();
    let k = find_char(destination, '#');
    let base = destination.substring_char(0, k);
    let fragment = destination.substring_char(k, n);
    assert(base@ =~= destination@.take(k as int));
    assert(fragment@ =~= destination@.skip(k as int));
    let mut loc = base.to_owned();
    if contains_char(base, '?') {
        loc.append("&");
    } else {
        loc.append("?");
    }
    let param_value = form_encode(param);
    loc.append(param_value.as_str());
    loc.append("=");
    loc.append(value.as_str());
    match relay_state {
        Some(rs) => {
            loc.append("&RelayState=");
            let rs_value = form_encode(rs);
            loc.append(rs_value.as_str());
        },
        None => {},
    }
    loc.append(fragment);
    Ok(loc)
}

/// Reads back the XML bytes from the base64 payload of a redirect binding.
pub fn decode_redirect_payload(encoded: &str) -> (r: Option<Vec<u8>>)
    ensures
        match redirect_decoded(encoded@) {
            Some(x) => r matches Some(v) && v@ == x,
            None => r is None,
        },
{
    match decode_base64(encoded.as_bytes()) {
        Some(d) => inflate(d.as_slice()),
        None => None,
    }
}

/// Reads back the XML bytes from the form-encoded query value of a redirect binding.
pub fn decode_redirect_param(value: &str) -> (r: Option<Vec<u8>>)
    ensures
        match redirect_param_decoded(value@) {
            Some(x) => r matches Some(v) && v@ == x,
            None => r is None,
        },
{
    match form_decode(value) {
        Some(b) => match decode_base64(b.as_slice()) {
            Some(d) => inflate(d.as_slice()),
            None => None,
        },
        None => None,
    }
}

/// Encodes a message for the POST binding: an HTML form that posts the base64 XML under
/// `param`, with the relay state, to the destination.
pub fn post_form_html(destination: &str, param: &str, xml: &str, relay_state: Option<&str>) -> (r: String)
    ensures
        r@ == post_form(destination@, param@, base64_encoded(encode_utf8(xml@)), opt_text(relay_state)),
{
    let encoded = encode_base64(xml.as_bytes());
    let mut form = "<form method=\"post\" action=\"".to_owned();
    let dest = escape_html_attribute(destination);
    form.append(dest.as_str());
    form.append("\" id=\"SAMLRequestForm\"><input type=\"hidden\" name=\"");
    form.append(param);
    form.append("\" value=\"");
    form.append(encoded.as_str());
    form.append("\" />");
    match relay_state {
        Some(rs) => {
            form.append("<input type=\"hidden\" name=\"RelayState\" value=\"");
            let escaped = escape_html_attribute(rs);
            form.append(escaped.as_str());
            form.append("\" />");
        },
        None => {},
    }
    form.append(
        "<input id=\"SAMLSubmitButton\" type=\"submit\" value=\"Submit\" /></form><script>document.getElementById('SAMLSubmitButton').style.visibility=\"hidden\";document.getElementById('SAMLRequestForm').submit();</script>",
    );
    form
}

} // verus!
