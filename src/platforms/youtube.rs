//! The youtube destination: its metadata and publish configuration.
use vstd::prelude::*;
use vstd::string::StringExecFns;
use crate::config::{Platform, PlatformPublishConfig};
use super::PlatformInfo;

verus! {

/// The upload URL of this destination.
pub const UPLOAD_URL: &'static str = "https://studio.youtube.com";

/// The publish configuration of this destination.
pub fn config() -> (r: PlatformPublishConfig)
    ensures
        r.platform == Platform::Youtube,
        r.upload_url@ == UPLOAD_URL@,
        r.target_host@ == "studio.youtube.com"@,
        r.require_surface_ready == true,
        r.fill_failure_is_error == false,
        r.weak_ready_self_heal == false,
        r.weak_ready_min_body_text_len == 0,
{
    PlatformPublishConfig {
        platform: Platform::Youtube,
        name: "YouTube",
        upload_url: UPLOAD_URL,
        target_host: "studio.youtube.com",
        allowed_paths: vec![],
        surface_selectors: vec![
            "ytcp-button#create-icon",
            "#create-icon",
            "button[aria-label*='Create']",
            "[class*='upload']",
            "input[type='file']",
        ],
        surface_text_markers: vec!["Upload videos", "Select files", "上传视频", "选择文件"],
        file_input_selectors: vec![
            "input[type='file'][accept*='video']",
            "input[type='file']",
        ],
        drop_zone_selectors: vec![
            "[class*='upload']",
            "ytcp-uploads-dialog",
            "ytcp-video-upload-progress",
            "[id*='upload']",
        ],
        pre_click_selectors: vec![
            "ytcp-button#create-icon",
            "#create-icon",
            "button[aria-label*='Create']",
            "[aria-label*='Create']",
        ],
        click_selectors: vec![
            "tp-yt-paper-item[test-id*='upload-video']",
            "[test-id*='upload-video']",
            "[role='menuitem'][aria-label*='Upload']",
            "[aria-label*='Upload videos']",
        ],
        click_text_markers: vec!["Upload videos", "Upload video", "上传视频", "Select files"],
        require_surface_ready: true,
        fill_failure_is_error: false,
        weak_ready_self_heal: false,
        weak_ready_min_body_text_len: 0,
        blocked_text_markers: vec![],
        init_text_markers: vec![],
        login_text_markers: vec![],
        title_selectors: vec![
            "#title-textarea #textbox",
            "#title-textarea [contenteditable='true']",
            "textarea#textbox",
            "input[aria-label*='Add a title']",
            "input[aria-label*='Title']",
            "[aria-label*='标题']",
        ],
        title_editable_selector: Some("#title-textarea #textbox, [contenteditable='true']"),
        description_selectors: vec![
            "#description-textarea #textbox",
            "#description-textarea [contenteditable='true']",
            "textarea[aria-label*='Tell viewers about your video']",
            "textarea[aria-label*='Description']",
            "textarea[aria-label*='描述']",
            "[id*='description'] #textbox",
        ],
        description_editable_selector: Some("#description-textarea #textbox, [contenteditable='true']"),
        tag_selectors: vec![
            "input[aria-label*='Tags']",
            "input[aria-label*='标签']",
            "#text-input input",
            "[class*='tags'] input",
        ],
    }
}

/// The display metadata of this destination, field by field.
pub open spec fn is_info(r: PlatformInfo) -> bool {
    r.id@ == "youtube"@
    && r.name@ == "YouTube"@
    && r.name_en@ == "YouTube"@
    && r.login_url@ == "https://accounts.google.com"@
    && r.upload_url@ == UPLOAD_URL@
    && r.color@ == "#ff0000"@
}

/// The display metadata of this destination.
pub fn info() -> (r: PlatformInfo)
    ensures
        is_info(r),
{
    PlatformInfo {
        id: String::from_str("youtube"),
        name: String::from_str("YouTube"),
        name_en: String::from_str("YouTube"),
        login_url: String::from_str("https://accounts.google.com"),
        upload_url: String::from_str(UPLOAD_URL),
        color: String::from_str("#ff0000"),
    }
}

} // verus!
