//! The douyin destination: its metadata.
use vstd::prelude::*;
use vstd::string::StringExecFns;
use super::PlatformInfo;

verus! {

/// The display metadata of this destination, field by field.
pub open spec fn is_info(r: PlatformInfo) -> bool {
    r.id@ == "douyin"@
    && r.name@ == "抖音"@
    && r.name_en@ == "Douyin"@
    && r.login_url@ == "https://creator.douyin.com"@
    && r.upload_url@ == "https://creator.douyin.com/creator-micro/content/upload"@
    && r.color@ == "#fe2c55"@
}

/// The display metadata of this destination.
pub fn info() -> (r: PlatformInfo)
    ensures
        is_info(r),
{
    PlatformInfo {
        id: String::from_str("douyin"),
        name: String::from_str("抖音"),
        name_en: String::from_str("Douyin"),
        login_url: String::from_str("https://creator.douyin.com"),
        upload_url: String::from_str("https://creator.douyin.com/creator-micro/content/upload"),
        color: String::from_str("#fe2c55"),
    }
}

} // verus!
