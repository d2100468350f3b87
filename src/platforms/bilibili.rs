//! The bilibili destination: its metadata and publish configuration.
use vstd::prelude::*;
use vstd::string::StringExecFns;
use crate::config::{Platform, PlatformPublishConfig};
use super::PlatformInfo;

verus! {

/// The upload URL of this destination.
pub const UPLOAD_URL: &'static str = "https://member.bilibili.com/platform/upload/video/frame";

/// The publish configuration of this destination.
pub fn config() -> (r: PlatformPublishConfig)
    ensures
        r.platform == Platform::Bilibili,
        r.upload_url@ == UPLOAD_URL@,
        r.target_host@ == "member.bilibili.com"@,
        r.require_surface_ready == true,
        r.fill_failure_is_error == true,
        r.weak_ready_self_heal == false,
        r.weak_ready_min_body_text_len == 0,
{
    PlatformPublishConfig {
        platform: Platform::Bilibili,
        name: "哔哩哔哩",
        upload_url: UPLOAD_URL,
        target_host: "member.bilibili.com",
        allowed_paths: vec!["/platform/upload", "/video/frame", "/article"],
        surface_selectors: vec![
            "[class*='upload']",
            "[class*='drag']",
            "[class*='drop']",
            "[class*='bcc-upload']",
        ],
        surface_text_markers: vec!["上传视频", "拖拽视频", "选择视频", "投稿"],
        file_input_selectors: vec![
            "input[type='file'][accept*='video']",
            "[class*='upload'] input[type='file']",
            "input[type='file']",
        ],
        drop_zone_selectors: vec![
            "[class*='upload']",
            "[class*='drag']",
            "[class*='drop']",
            "[class*='bcc-upload']",
        ],
        pre_click_selectors: vec![],
        click_selectors: vec![
            "button[class*='upload']",
            "[class*='upload-btn']",
            "[class*='upload'] button",
            "[class*='drag']",
        ],
        click_text_markers: vec!["上传视频", "选择视频", "上传文件", "投稿"],
        require_surface_ready: true,
        fill_failure_is_error: true,
        weak_ready_self_heal: false,
        weak_ready_min_body_text_len: 0,
        blocked_text_markers: vec![],
        init_text_markers: vec![],
        login_text_markers: vec![],
        title_selectors: vec![
            "input[placeholder*='标题']",
            "input[placeholder*='稿件标题']",
            "[class*='title'] input",
            "input[name*='title']",
        ],
        title_editable_selector: Some("[contenteditable='true']"),
        description_selectors: vec![
            "textarea[placeholder*='简介']",
            "textarea[placeholder*='描述']",
            "[class*='desc'] textarea",
            "textarea[name*='desc']",
        ],
        description_editable_selector: Some("[contenteditable='true']"),
        tag_selectors: vec![
            "input[placeholder*='标签']",
            "input[placeholder*='Enter']",
            "[class*='tag'] input",
            "input[name*='tag']",
        ],
    }
}

/// The display metadata of this destination, field by field.
pub open spec fn is_info(r: PlatformInfo) -> bool {
    r.id@ == "bilibili"@
    && r.name@ == "哔哩哔哩"@
    && r.name_en@ == "Bilibili"@
    && r.login_url@ == "https://passport.bilibili.com/login"@
    && r.upload_url@ == UPLOAD_URL@
    && r.color@ == "#fb7299"@
}

/// The display metadata of this destination.
pub fn info() -> (r: PlatformInfo)
    ensures
        is_info(r),
{
    PlatformInfo {
        id: String::from_str("bilibili"),
        name: String::from_str("哔哩哔哩"),
        name_en: String::from_str("Bilibili"),
        login_url: String::from_str("https://passport.bilibili.com/login"),
        upload_url: String::from_str(UPLOAD_URL),
        color: String::from_str("#fb7299"),
    }
}

} // verus!
