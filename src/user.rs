//! Records of the signed-in user's profile.
use vstd::prelude::*;

verus! {

/// Membership of the user: its type and status.
#[derive(Debug, Default, Clone, PartialEq, Eq)]
pub struct VipData {
    pub vip_type: i32,
    pub status: i32,
}

/// The signed-in user's identity.
#[derive(Debug, Default, Clone, PartialEq, Eq)]
pub struct UserInfoData {
    pub mid: i32,
    pub name: String,
    pub face: String,
    pub level: i32,
    pub vip: VipData,
}

/// Reply to a profile request.
#[derive(Debug, Default, Clone, PartialEq, Eq)]
pub struct UserInfoResp {
    pub code: i32,
    pub message: String,
    pub ttl: i32,
    pub data: UserInfoData,
}

/// Address of the signed-in user's profile.
pub open spec fn myinfo_url_spec() -> Seq<char> {
    "https://api.bilibili.com/x/space/myinfo"@
}

/// Address of the signed-in user's profile.
pub fn myinfo_url() -> (r: String)
    ensures
        r@ == myinfo_url_spec(),
{
    String::from_str("https://api.bilibili.com/x/space/myinfo")
}

impl VipData {
    /// Whether the membership is active.
    pub fn is_vip(&self) -> (r: bool)
        ensures
            r == (self.status != 0),
    {
        self.status != 0
    }
}

} // verus!
