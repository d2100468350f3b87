//! The xiaohongshu destination: its metadata and publish configuration.
use vstd::prelude::*;
use vstd::string::StringExecFns;
use crate::config::{Platform, PlatformPublishConfig};
use super::PlatformInfo;

verus! {

/// The upload URL of this destination.
pub const UPLOAD_URL: &'static str = "https://creator.xiaohongshu.com/publish/publish";

/// The publish configuration of this destination.
pub fn config() -> (r: PlatformPublishConfig)
    ensures
        r.platform == Platform::Xiaohongshu,
        r.upload_url@ == UPLOAD_URL@,
        r.target_host@ == "creator.xiaohongshu.com"@,
        r.require_surface_ready == true,
        r.fill_failure_is_error == true,
        r.weak_ready_self_heal == false,
        r.weak_ready_min_body_text_len == 0,
{
    PlatformPublishConfig {
        platform: Platform::Xiaohongshu,
        name: "小红书",
        upload_url: UPLOAD_URL,
        target_host: "creator.xiaohongshu.com",
        allowed_paths: vec!["/publish/publish", "/publish"],
        surface_selectors: vec![
            "[class*='upload']",
            "[class*='drag']",
            "[class*='drop']",
            "[data-testid*='upload']",
        ],
        surface_text_markers: vec!["上传视频", "点击上传", "拖拽", "发布笔记"],
        file_input_selectors: vec![
            "input[type='file'][accept*='video']",
            "[class*='upload'] input[type='file']",
            "input[type='file']",
        ],
        drop_zone_selectors: vec![
            "[class*='upload']",
            "[class*='drag']",
            "[class*='drop']",
            "[class*='content-upload']",
        ],
        pre_click_selectors: vec![],
        click_selectors: vec![
            "button[class*='upload']",
            "[class*='upload-btn']",
            "[class*='upload'] button",
            "[data-testid*='upload']",
            "[role='button']",
        ],
        click_text_markers: vec!["上传视频", "点击上传", "选择文件", "拖拽"],
        require_surface_ready: true,
        fill_failure_is_error: true,
        weak_ready_self_heal: false,
        weak_ready_min_body_text_len: 0,
        blocked_text_markers: vec![],
        init_text_markers: vec![],
        login_text_markers: vec![],
        title_selectors: vec![
            "input[placeholder*='标题']",
            "input[placeholder*='添加标题']",
            "[class*='title'] input",
            "input[maxlength='20']",
        ],
        title_editable_selector: Some("[contenteditable='true']"),
        description_selectors: vec![
            "textarea[placeholder*='描述']",
            "textarea[placeholder*='正文']",
            "[class*='desc'] textarea",
            "[class*='content'] textarea",
        ],
        description_editable_selector: Some("[contenteditable='true']"),
        tag_selectors: vec![
            "input[placeholder*='话题']",
            "input[placeholder*='标签']",
            "[class*='tag'] input",
            "[class*='topic'] input",
        ],
    }
}

/// The display metadata of this destination, field by field.
pub open spec fn is_info(r: PlatformInfo) -> bool {
    r.id@ == "xiaohongshu"@
    && r.name@ == "小红书"@
    && r.name_en@ == "Xiaohongshu"@
    && r.login_url@ == "https://creator.xiaohongshu.com"@
    && r.upload_url@ == UPLOAD_URL@
    && r.color@ == "#ff2442"@
}

/// The display metadata of this destination.
pub fn info() -> (r: PlatformInfo)
    ensures
        is_info(r),
{
    PlatformInfo {
        id: String::from_str("xiaohongshu"),
        name: String::from_str("小红书"),
        name_en: String::from_str("Xiaohongshu"),
        login_url: String::from_str("https://creator.xiaohongshu.com"),
        upload_url: String::from_str(UPLOAD_URL),
        color: String::from_str("#ff2442"),
    }
}

} // verus!
