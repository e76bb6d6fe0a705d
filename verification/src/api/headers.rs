use vstd::prelude::*;
use vstd::string::StrSliceExecFns;

use crate::constants::header::{name, value};
use crate::error::ApiError;
use crate::models::enums::Platform;

verus! {

/// The message of the error for a text that cannot stand in a header.
pub const INVALID_HEADER_VALUE: &'static str = "failed to parse header value";

/// A character whose UTF-8 bytes may all stand in a header value: a visible character,
/// a space, a tab, or any character beyond ASCII.
pub open spec fn is_header_char(c: char) -> bool {
    (c as u32 >= 32 && c as u32 != 127) || c as u32 == 9
}

/// A text that may stand in a header value.
pub open spec fn is_header_text(s: Seq<char>) -> bool {
    forall|i: int| 0 <= i < s.len() ==> #[trigger] is_header_char(s[i])
}

/// Whether `s` may stand in a header value.
pub fn is_valid_header_text(s: &str) -> (b: bool)
    ensures
        b == is_header_text(s@),
{
    let len = s.unicode_len();
    let mut i: usize = 0;
    while i < len
        invariant
            len == s@.len(),
            i <= len,
            forall|j: int| 0 <= j < i ==> #[trigger] is_header_char(s@[j]),
        decreases len - i,
    {
        let c = s.get_char(i);
        let code = c as u32;
        if !((code >= 32 && code != 127) || code == 9) {
            assert(!is_header_char(s@[i as int]));
            return false;
        }
        i = i + 1;
    }
    true
}

/// A header value, as text or as the raw bytes that a server sent.
#[derive(Debug, PartialEq, Eq)]
pub enum HeaderData {
    Text(String),
    Raw(Vec<u8>),
}

/// What a `HeaderData` holds, as mathematical values.
pub enum HeaderDataView {
    Text(Seq<char>),
    Raw(Seq<u8>),
}

impl View for HeaderData {
    type V = HeaderDataView;

    open spec fn view(&self) -> HeaderDataView {
        match self {
            HeaderData::Text(t) => HeaderDataView::Text(t@),
            HeaderData::Raw(b) => HeaderDataView::Raw(b@),
        }
    }
}

/// One header of a request: its name and its value.
#[derive(Debug, PartialEq, Eq)]
pub struct HeaderPair {
    pub name: &'static str,
    pub value: HeaderData,
}

impl View for HeaderPair {
    type V = (Seq<char>, HeaderDataView);

    open spec fn view(&self) -> (Seq<char>, HeaderDataView) {
        (self.name@, self.value@)
    }
}

/// What a `ClientHeaders` holds, as mathematical values.
pub struct ClientHeadersView {
    pub version: Seq<char>,
    pub hash: Seq<char>,
    pub platform: Platform,
    pub cookie: Option<Seq<u8>>,
    pub session_token: Option<Seq<char>>,
}

/// The header state of a client: the app it presents itself as, the CloudFront
/// cookie once the signature is issued, and the session token once logged in.
pub struct ClientHeaders {
    version: String,
    hash: String,
    platform: Platform,
    cookie: Option<Vec<u8>>,
    session_token: Option<String>,
}

/// The text by which a request names the platform.
pub open spec fn spec_platform_text(platform: Platform) -> Seq<char> {
    match platform {
        Platform::Android => value::PLATFORM_ANDROID@,
        Platform::Ios => value::PLATFORM_IOS@,
    }
}

/// The headers that a request carries, in order: content type and accepted type,
/// the app version, hash and platform, then the cookie and the session token where
/// the client holds them.
pub open spec fn spec_header_pairs(h: ClientHeadersView) -> Seq<(Seq<char>, HeaderDataView)> {
    seq![
        (name::CONTENT_TYPE@, HeaderDataView::Text(value::OCTET_STREAM@)),
        (name::ACCEPT@, HeaderDataView::Text(value::OCTET_STREAM@)),
        (name::APP_VERSION@, HeaderDataView::Text(h.version)),
        (name::APP_HASH@, HeaderDataView::Text(h.hash)),
        (name::PLATFORM@, HeaderDataView::Text(spec_platform_text(h.platform))),
    ] + match h.cookie {
        Some(c) => seq![(name::COOKIE@, HeaderDataView::Raw(c))],
        None => Seq::empty(),
    } + match h.session_token {
        Some(t) => seq![(name::SESSION_TOKEN@, HeaderDataView::Text(t))],
        None => Seq::empty(),
    }
}

impl View for ClientHeaders {
    type V = ClientHeadersView;

    closed spec fn view(&self) -> ClientHeadersView {
        ClientHeadersView {
            version: self.version@,
            hash: self.hash@,
            platform: self.platform,
            cookie: match self.cookie {
                Some(c) => Some(c@),
                None => None,
            },
            session_token: match self.session_token {
                Some(t) => Some(t@),
                None => None,
            },
        }
    }
}

fn invalid_header_value() -> (e: ApiError)
    ensures
        (e matches ApiError::InvalidHeaderValue(msg) && msg@ == INVALID_HEADER_VALUE@),
{
    ApiError::InvalidHeaderValue(INVALID_HEADER_VALUE.to_owned())
}

impl ClientHeaders {
    /// Every text that the client holds may stand in a header.
    #[verifier::type_invariant]
    closed spec fn texts_are_header_values(self) -> bool {
        &&& is_header_text(self.version@)
        &&& is_header_text(self.hash@)
        &&& (self.session_token matches Some(t) ==> is_header_text(t@))
    }

    /// The headers of a new client of the given app, or, where the version or the hash
    /// cannot stand in a header, `ApiError::InvalidHeaderValue`.
    pub fn new(version: &str, hash: &str, platform: Platform) -> (res: Result<ClientHeaders, ApiError>)
        ensures
            res is Ok <==> is_header_text(version@) && is_header_text(hash@),
            res matches Ok(h) ==> h@ == (ClientHeadersView {
                version: version@,
                hash: hash@,
                platform,
                cookie: None,
                session_token: None,
            }),
            res matches Err(e) ==> (e matches ApiError::InvalidHeaderValue(msg) && msg@ == INVALID_HEADER_VALUE@),
    {
        if !is_valid_header_text(version) || !is_valid_header_text(hash) {
            return Err(invalid_header_value());
        }
        Ok(ClientHeaders {
            version: version.to_owned(),
            hash: hash.to_owned(),
            platform,
            cookie: None,
            session_token: None,
        })
    }

    /// Takes in the answer to the signature request: the cookie that it sets becomes
    /// the client's `cookie` header, and nothing else changes. Where the answer sets
    /// none, the headers stay as they were and the error says so.
    pub fn after_signature(&mut self, set_cookie: Option<Vec<u8>>) -> (res: Result<(), ApiError>)
        ensures
            match set_cookie {
                Some(v) => res is Ok && final(self)@ == (ClientHeadersView {
                    cookie: Some(v@),
                    ..old(self)@
                }),
                None => final(self)@ == old(self)@ && (res matches Err(ApiError::InvalidRequest(msg))
                    && msg@ == crate::constants::strings::api::error::SET_COOKIE_NOT_FOUND@),
            },
    {
        proof {
            use_type_invariant(&*self);
        }
        match set_cookie {
            Some(v) => {
                self.cookie = Some(v);
                Ok(())
            },
            None => Err(ApiError::InvalidRequest(
                crate::constants::strings::api::error::SET_COOKIE_NOT_FOUND.to_owned(),
            )),
        }
    }

    /// Takes in the session token of a login: it becomes the client's session token
    /// header, and nothing else changes. A token that cannot stand in a header is
    /// refused, and the headers stay as they were.
    pub fn after_login(&mut self, token: &str) -> (res: Result<(), ApiError>)
        ensures
            res is Ok <==> is_header_text(token@),
            res is Ok ==> final(self)@ == (ClientHeadersView {
                session_token: Some(token@),
                ..old(self)@
            }),
            res matches Err(e) ==> final(self)@ == old(self)@
                && (e matches ApiError::InvalidHeaderValue(msg) && msg@ == INVALID_HEADER_VALUE@),
    {
        proof {
            use_type_invariant(&*self);
        }
        if !is_valid_header_text(token) {
            return Err(invalid_header_value());
        }
        self.session_token = Some(token.to_owned());
        Ok(())
    }

    /// The version that the headers present.
    pub fn version(&self) -> (v: &str)
        ensures
            v@ == self@.version,
    {
        self.version.as_str()
    }

    /// The headers that every request of the client carries. Every text among them
    /// may stand in a header.
    pub fn pairs(&self) -> (out: Vec<HeaderPair>)
        ensures
            out@.len() == spec_header_pairs(self@).len(),
            forall|i: int| 0 <= i < out@.len() ==> #[trigger] out@[i]@ == spec_header_pairs(self@)[i],
            forall|i: int| 0 <= i < out@.len() ==> (#[trigger] out@[i]@.1 matches HeaderDataView::Text(t) ==> is_header_text(t)),
    {
        proof {
            use_type_invariant(self);
        }
        let platform = match self.platform {
            Platform::Android => value::PLATFORM_ANDROID,
            Platform::Ios => value::PLATFORM_IOS,
        };
        let mut out: Vec<HeaderPair> = Vec::new();
        out.push(HeaderPair { name: name::CONTENT_TYPE, value: HeaderData::Text(value::OCTET_STREAM.to_owned()) });
        out.push(HeaderPair { name: name::ACCEPT, value: HeaderData::Text(value::OCTET_STREAM.to_owned()) });
        out.push(HeaderPair { name: name::APP_VERSION, value: HeaderData::Text(self.version.clone()) });
        out.push(HeaderPair { name: name::APP_HASH, value: HeaderData::Text(self.hash.clone()) });
        out.push(HeaderPair { name: name::PLATFORM, value: HeaderData::Text(platform.to_owned()) });
        match &self.cookie {
            Some(c) => {
                out.push(HeaderPair { name: name::COOKIE, value: HeaderData::Raw(c.clone()) });
            },
            None => {},
        }
        match &self.session_token {
            Some(t) => {
                out.push(HeaderPair { name: name::SESSION_TOKEN, value: HeaderData::Text(t.clone()) });
            },
            None => {},
        }
        proof {
            reveal_strlit("application/octet-stream");
            reveal_strlit("android");
            reveal_strlit("ios");
            assert(out@.map_values(|p: HeaderPair| p@) =~= spec_header_pairs(self@));
        }
        out
    }
}

/// Which characters may stand in a header value: tab, space and every visible ASCII
/// character are accepted, as is every character beyond ASCII; the other control
/// characters and DEL are refused.
pub proof fn lemma_header_char_classes(c: char)
    ensures
        (0x20 <= c as u32 <= 0x7e || c as u32 == 0x09) ==> is_header_char(c),
        c as u32 >= 0x80 ==> is_header_char(c),
        ((c as u32) < 0x20 && c as u32 != 0x09) ==> !is_header_char(c),
        c as u32 == 0x7f ==> !is_header_char(c),
{
}

/// A text made only of tabs, spaces and visible ASCII characters may stand in a header
/// value, so `is_valid_header_text` accepts it and `after_login` keeps it.
pub proof fn lemma_visible_ascii_is_header_text(s: Seq<char>)
    requires
        forall|i: int| 0 <= i < s.len() ==> (0x20 <= #[trigger] s[i] as u32 <= 0x7e || s[i] as u32 == 0x09),
    ensures
        is_header_text(s),
{
    assert forall|i: int| 0 <= i < s.len() implies #[trigger] is_header_char(s[i]) by {
        lemma_header_char_classes(s[i]);
    }
}

/// A text holding a control character other than tab, or DEL, cannot stand in a
/// header value.
pub proof fn lemma_control_chars_are_not_header_text(s: Seq<char>, i: int)
    requires
        0 <= i < s.len(),
        (s[i] as u32) < 0x20 && s[i] as u32 != 0x09 || s[i] as u32 == 0x7f,
    ensures
        !is_header_text(s),
{
    lemma_header_char_classes(s[i]);
}

/// The headers of every request, in order: `content-type` and `accept` naming the
/// octet-stream type, `x-app-version` and `x-app-hash` carrying the client's version
/// and hash, `x-platform` naming the client's own platform ("android" or "ios"), then
/// `cookie` with the cookie where the client holds one, and last `x-session-token`
/// with the session token where the client holds one, whether or not it holds a cookie.
pub proof fn lemma_request_headers(h: ClientHeadersView)
    ensures
        spec_header_pairs(h).len() == 5 + (if h.cookie is Some { 1int } else { 0int }) + (if h.session_token is Some { 1int } else { 0int }),
        spec_header_pairs(h)[0] == ("content-type"@, HeaderDataView::Text("application/octet-stream"@)),
        spec_header_pairs(h)[1] == ("accept"@, HeaderDataView::Text("application/octet-stream"@)),
        spec_header_pairs(h)[2] == ("x-app-version"@, HeaderDataView::Text(h.version)),
        spec_header_pairs(h)[3] == ("x-app-hash"@, HeaderDataView::Text(h.hash)),
        h.platform == Platform::Android ==> spec_header_pairs(h)[4] == ("x-platform"@, HeaderDataView::Text("android"@)),
        h.platform == Platform::Ios ==> spec_header_pairs(h)[4] == ("x-platform"@, HeaderDataView::Text("ios"@)),
        h.cookie matches Some(c) ==> spec_header_pairs(h)[5] == ("cookie"@, HeaderDataView::Raw(c)),
        h.session_token matches Some(t) ==> spec_header_pairs(h).last() == ("x-session-token"@, HeaderDataView::Text(t)),
        h.session_token matches Some(t) ==> spec_header_pairs(h).contains(("x-session-token"@, HeaderDataView::Text(t))),
{
    let pairs = spec_header_pairs(h);
    if let Some(t) = h.session_token {
        assert(pairs[pairs.len() - 1] == ("x-session-token"@, HeaderDataView::Text(t)));
    }
}

} // verus!
