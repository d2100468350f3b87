//! The known destinations and their display metadata.
use vstd::prelude::*;
use crate::text::same_text;

pub mod bilibili;
pub mod douyin;
pub mod wechat;
pub mod xiaohongshu;
pub mod youtube;

verus! {

/// Display metadata of one destination.
pub struct PlatformInfo {
    pub id: String,
    pub name: String,
    pub name_en: String,
    pub login_url: String,
    pub upload_url: String,
    pub color: String,
}

/// The identifiers of the known destinations, in display order.
pub open spec fn known_ids() -> Seq<Seq<char>> {
    seq!["douyin"@, "xiaohongshu"@, "bilibili"@, "wechat"@, "youtube"@]
}

/// `i` is the metadata of the destination with identifier `id`.
pub open spec fn info_for(id: Seq<char>, i: PlatformInfo) -> bool {
    if id == "douyin"@ {
        douyin::is_info(i)
    } else if id == "xiaohongshu"@ {
        xiaohongshu::is_info(i)
    } else if id == "bilibili"@ {
        bilibili::is_info(i)
    } else if id == "wechat"@ {
        wechat::is_info(i)
    } else if id == "youtube"@ {
        youtube::is_info(i)
    } else {
        false
    }
}

/// The metadata of the destination with identifier `platform`, if it is
/// known.
pub fn get_platform_info(platform: &str) -> (r: Option<PlatformInfo>)
    ensures
        r.is_some() <==> known_ids().contains(platform@),
        r.is_some() ==> r.unwrap().id@ == platform@ && info_for(platform@, r.unwrap()),
{
    proof {
        reveal_strlit("douyin");
        reveal_strlit("xiaohongshu");
        reveal_strlit("bilibili");
        reveal_strlit("wechat");
        reveal_strlit("youtube");
    }
    if same_text(platform, "bilibili") {
        assert(known_ids()[2] == platform@);
        Some(bilibili::info())
    } else if same_text(platform, "douyin") {
        assert(known_ids()[0] == platform@);
        Some(douyin::info())
    } else if same_text(platform, "xiaohongshu") {
        assert(known_ids()[1] == platform@);
        Some(xiaohongshu::info())
    } else if same_text(platform, "wechat") {
        assert(known_ids()[3] == platform@);
        Some(wechat::info())
    } else if same_text(platform, "youtube") {
        assert(known_ids()[4] == platform@);
        Some(youtube::info())
    } else {
        None
    }
}

/// The metadata of every known destination, in display order.
pub fn all_platforms() -> (r: Vec<PlatformInfo>)
    ensures
        r@.len() == 5,
        forall|i: int|
            0 <= i < 5 ==> (#[trigger] r@[i]).id@ == known_ids()[i] && info_for(known_ids()[i], r@[i]),
{
    let r = vec![
        douyin::info(),
        xiaohongshu::info(),
        bilibili::info(),
        wechat::info(),
        youtube::info(),
    ];
    proof {
        reveal_strlit("douyin");
        reveal_strlit("xiaohongshu");
        reveal_strlit("bilibili");
        reveal_strlit("wechat");
        reveal_strlit("youtube");
        assert("xiaohongshu"@.len() == 11 && "douyin"@.len() == 6 && "bilibili"@.len() == 8);
        assert("xiaohongshu"@ != "douyin"@);
        assert("bilibili"@ != "douyin"@ && "bilibili"@ != "xiaohongshu"@);
        assert("wechat"@[0] != "douyin"@[0]);
        assert("wechat"@ != "douyin"@ && "wechat"@ != "xiaohongshu"@ && "wechat"@ != "bilibili"@);
        assert("youtube"@ != "douyin"@ && "youtube"@ != "xiaohongshu"@ && "youtube"@ != "bilibili"@
            && "youtube"@ != "wechat"@);
        assert(info_for(known_ids()[0], r@[0]));
        assert(info_for(known_ids()[1], r@[1]));
        assert(info_for(known_ids()[2], r@[2]));
        assert(info_for(known_ids()[3], r@[3]));
        assert(info_for(known_ids()[4], r@[4]));
    }
    r
}

/// Every entry of the full list is what the lookup by its identifier
/// describes, and the lookup knows exactly the listed identifiers.
pub proof fn law_listing_matches_lookup(id: Seq<char>, i: PlatformInfo)
    ensures
        known_ids().contains(id) ==> (info_for(id, i) ==> i.id@ == id),
        !known_ids().contains(id) ==> !info_for(id, i),
{
    reveal_strlit("douyin");
    reveal_strlit("xiaohongshu");
    reveal_strlit("bilibili");
    reveal_strlit("wechat");
    reveal_strlit("youtube");
    if !known_ids().contains(id) {
        assert(known_ids()[0] != id);
        assert(known_ids()[1] != id);
        assert(known_ids()[2] != id);
        assert(known_ids()[3] != id);
        assert(known_ids()[4] != id);
    }
}

} // verus!
