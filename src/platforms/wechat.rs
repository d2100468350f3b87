//! The wechat destination: its metadata and publish configuration.
use vstd::prelude::*;
use vstd::string::StringExecFns;
use crate::config::{Platform, PlatformPublishConfig};
use super::PlatformInfo;

verus! {

/// The upload URL of this destination.
pub const UPLOAD_URL: &'static str = "https://channels.weixin.qq.com/platform/post/create";

/// The publish configuration of this destination.
pub fn config() -> (r: PlatformPublishConfig)
    ensures
        r.platform == Platform::Wechat,
        r.upload_url@ == UPLOAD_URL@,
        r.target_host@ == "channels.weixin.qq.com"@,
        r.require_surface_ready == false,
        r.fill_failure_is_error == false,
        r.weak_ready_self_heal == true,
        r.weak_ready_min_body_text_len == 0,
{
    PlatformPublishConfig {
        platform: Platform::Wechat,
        name: "微信视频号",
        upload_url: UPLOAD_URL,
        target_host: "channels.weixin.qq.com",
        allowed_paths: vec!["/platform/post/create", "/platform/post"],
        surface_selectors: vec![
            "[class*='upload']",
            "[class*='drag']",
            "[class*='drop']",
            "[class*='uploader']",
            "[class*='post-create']",
        ],
        surface_text_markers: vec![
            "上传视频",
            "拖拽",
            "发布视频",
            "发表视频",
            "上传时长",
            "20GB",
            "MP4",
            "上传时长8小时内",
            "大小不超过20GB",
            "格式为MP4/H.264格式",
            "点击或拖拽上传",
        ],
        file_input_selectors: vec![
            "input[type='file'][accept*='video']",
            "[class*='uploader'] input[type='file']",
            "[class*='upload'] input[type='file']",
            "input[type='file']",
        ],
        drop_zone_selectors: vec![
            "[class*='upload']",
            "[class*='drag']",
            "[class*='drop']",
            "[class*='uploader']",
            "[class*='post-create']",
        ],
        pre_click_selectors: vec![],
        click_selectors: vec![
            "[role='button'][aria-label*='上传']",
            "button[aria-label*='上传']",
            "label[for*='upload']",
            "[class*='upload'] [role='button']",
            "[class*='upload'] button",
            "button[class*='upload']",
            "[class*='uploader'] button",
            "[class*='upload-btn']",
            "[class*='post-create'] [role='button']",
            "[class*='post-create'] button",
            "[class*='upload']",
            "[class*='drag']",
        ],
        click_text_markers: vec![
            "上传",
            "拖拽",
            "上传时长",
            "20GB",
            "MP4",
            "点击上传",
            "选择文件",
            "上传时长8小时内",
            "大小不超过20GB",
            "格式为MP4/H.264格式",
            "点击或拖拽上传",
        ],
        require_surface_ready: false,
        fill_failure_is_error: false,
        weak_ready_self_heal: true,
        weak_ready_min_body_text_len: 0,
        blocked_text_markers: vec!["暂时无法使用该功能了", "页面加载失败", "请稍后再试", "网络异常"],
        init_text_markers: vec!["页面初始化中", "初始化中", "正在初始化"],
        login_text_markers: vec![
            "扫码登录",
            "微信扫码",
            "请使用微信扫码登录",
            "请在手机上确认登录",
        ],
        title_selectors: vec![
            "input[placeholder*='标题']",
            "input[placeholder*='描述']",
            "[class*='title'] input",
            "input[type='text']",
        ],
        title_editable_selector: Some("[contenteditable='true']"),
        description_selectors: vec![
            "textarea[placeholder*='描述']",
            "textarea[placeholder*='内容']",
            "[class*='desc'] textarea",
            "[class*='content'] textarea",
        ],
        description_editable_selector: Some("[contenteditable='true']"),
        tag_selectors: vec![
            "input[placeholder*='标签']",
            "input[placeholder*='话题']",
            "[class*='tag'] input",
            "[class*='topic'] input",
        ],
    }
}

/// The display metadata of this destination, field by field.
pub open spec fn is_info(r: PlatformInfo) -> bool {
    r.id@ == "wechat"@
    && r.name@ == "微信视频号"@
    && r.name_en@ == "WeChat Channels"@
    && r.login_url@ == "https://channels.weixin.qq.com"@
    && r.upload_url@ == UPLOAD_URL@
    && r.color@ == "#07c160"@
}

/// The display metadata of this destination.
pub fn info() -> (r: PlatformInfo)
    ensures
        is_info(r),
{
    PlatformInfo {
        id: String::from_str("wechat"),
        name: String::from_str("微信视频号"),
        name_en: String::from_str("WeChat Channels"),
        login_url: String::from_str("https://channels.weixin.qq.com"),
        upload_url: String::from_str(UPLOAD_URL),
        color: String::from_str("#07c160"),
    }
}

} // verus!
