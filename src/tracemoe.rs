//! The anime scene search on trace.moe: the anime data an answer carries.
use vstd::prelude::*;
use vstd::string::StringExecFns;
use crate::timestamp::{decimal, push_decimal};

verus! {

/// What an answer tells of its anime: its id alone, or the whole record.
pub enum AnilistField {
    ID(u32),
    Info(AnilistResult),
}

/// An anime's record.
pub struct AnilistResult {
    pub id: u32,
    pub id_mal: Option<u32>,
    pub title: AnilistTitle,
    pub synonyms: Vec<String>,
    pub is_adult: bool,
}

/// An anime's titles.
pub struct AnilistTitle {
    pub native: Option<String>,
    pub romaji: String,
    pub english: Option<String>,
}

/// The title shown for an anime: the English one, else the romaji one.
pub open spec fn shown_title(t: AnilistTitle) -> Seq<char> {
    match t.english {
        Some(e) => e@,
        None => t.romaji@,
    }
}

impl AnilistTitle {
    /// The title shown for the anime (see [`shown_title`]).
    pub fn shown(&self) -> (r: &String)
        ensures
            r@ == shown_title(*self),
    {
        match &self.english {
            Some(e) => e,
            None => &self.romaji,
        }
    }
}

/// The anime's page on AniList.
pub open spec fn anilist_url(id: u32) -> Seq<char> {
    "https://anilist.co/anime/"@ + decimal(id as nat) + "/"@
}

impl AnilistResult {
    /// The anime's page on AniList (see [`anilist_url`]).
    pub fn url(&self) -> (r: String)
        ensures
            r@ == anilist_url(self.id),
    {
        let mut u = String::from_str("https://anilist.co/anime/");
        push_decimal(&mut u, self.id as u64);
        u.append("/");
        u
    }

    /// Whether the scene's image is censored: the anime is for adults and
    /// the channel does not allow adult content.
    pub fn must_censor(&self, nsfw_channel: bool) -> (r: bool)
        ensures
            r == (self.is_adult && !nsfw_channel),
    {
        self.is_adult && !nsfw_channel
    }
}

} // verus!
