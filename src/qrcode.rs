//! Records of the QR-code login endpoints, and the request addresses.
use vstd::prelude::*;

verus! {

/// A login challenge: the address to show as a QR code and the key to poll with.
#[derive(Debug, Default, Clone, PartialEq, Eq)]
pub struct QRCodeData {
    pub url: String,
    pub qrcode_key: String,
}

/// Reply to a challenge request.
#[derive(Debug, Default, Clone, PartialEq, Eq)]
pub struct QRCodeResp {
    pub code: i32,
    pub message: String,
    pub ttl: i32,
    pub data: QRCodeData,
}

/// One poll outcome: the status code and, on success, the login address and tokens.
#[derive(Debug, Default, Clone, PartialEq, Eq)]
pub struct QRCodePollData {
    pub url: String,
    pub refresh_token: String,
    pub timestamp: i64,
    pub code: i32,
    pub message: String,
}

/// Reply to a poll request.
#[derive(Debug, Default, Clone, PartialEq, Eq)]
pub struct QRCodePollResp {
    pub code: i32,
    pub message: String,
    pub data: QRCodePollData,
}

/// Address that creates a login challenge.
pub open spec fn generate_url_spec() -> Seq<char> {
    "https://passport.bilibili.com/x/passport-login/web/qrcode/generate"@
}

/// Address that polls the challenge `key`.
pub open spec fn poll_url_spec(key: Seq<char>) -> Seq<char> {
    "https://passport.bilibili.com/x/passport-login/web/qrcode/poll?qrcode_key="@ + key
}

/// Address that creates a login challenge.
pub fn generate_url() -> (r: String)
    ensures
        r@ == generate_url_spec(),
{
    String::from_str("https://passport.bilibili.com/x/passport-login/web/qrcode/generate")
}

/// Address that polls the challenge `qrcode_key`.
pub fn poll_url(qrcode_key: &str) -> (r: String)
    ensures
        r@ == poll_url_spec(qrcode_key@),
{
    let mut url = String::from_str(
        "https://passport.bilibili.com/x/passport-login/web/qrcode/poll?qrcode_key=",
    );
    url.append(qrcode_key);
    url
}

} // verus!
