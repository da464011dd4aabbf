//! The reverse image search on Yandex: the answers to the image upload and
//! to the search.
use vstd::prelude::*;
use vstd::string::StringExecFns;

verus! {

pub struct UploadBlockName {
    pub block: String,
}

pub struct UploadBlockParameters {
    pub url: String,
    pub original_image_url: String,
    pub cbir_id: String,
}

pub struct UploadBlock {
    pub name: UploadBlockName,
    pub params: UploadBlockParameters,
    pub html: String,
}

/// The answer to the image upload.
pub struct UploadResponse {
    pub blocks: Vec<UploadBlock>,
}

pub struct ImageData {
    pub url: String,
    pub height: u32,
    pub width: u32,
}

/// One site that shows the image.
pub struct SiteData {
    pub title: String,
    pub description: String,
    pub url: String,
    pub domain: String,
    pub thumb: ImageData,
    pub original_image: ImageData,
}

pub struct SiteAnalytics {
    pub item: String,
    pub item_thumb_click: String,
    pub item_title_click: String,
    pub item_domain_click: String,
    pub load_page: String,
}

/// The answer to the search.
pub struct SiteResponse {
    pub sites: Vec<SiteData>,
    pub page_size: usize,
    pub loaded_pages_count: usize,
    pub favicon_sprite_seed: String,
    pub with_favicon: bool,
    pub counter_paths: SiteAnalytics,
    pub lazy_thumbs_from_index: usize,
    pub title: String,
}

/// The search page of the image search.
pub const SEARCH_URL: &'static str = "https://yandex.ru/images/search";

/// The search that an upload leads to: the search page with the first
/// block's query; `None` when the upload gave no block.
pub open spec fn search_url_of(upload: UploadResponse) -> Option<Seq<char>> {
    if upload.blocks@.len() == 0 {
        None
    } else {
        Some(SEARCH_URL@ + "?"@ + upload.blocks@[0].params.url@)
    }
}

impl UploadResponse {
    /// The search that this upload leads to (see [`search_url_of`]).
    pub fn search_url(&self) -> (r: Option<String>)
        ensures
            match search_url_of(*self) {
                Some(u) => r matches Some(x) && x@ == u,
                None => r is None,
            },
    {
        if self.blocks.len() == 0 {
            None
        } else {
            let mut u = String::from_str(SEARCH_URL);
            u.append("?");
            u.append(self.blocks[0].params.url.as_str());
            Some(u)
        }
    }
}

} // verus!
