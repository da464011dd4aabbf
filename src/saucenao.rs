//! The reverse image search on SauceNAO: which database an answer comes
//! from, and how the command reacts to the search's status.
use vstd::prelude::*;
use vstd::string::StringExecFns;
use crate::animethemes::signed_decimal;
use crate::animethemes::signed_to_decimal;
use crate::interaction::{no_results_message, no_results_text};

verus! {

/// The databases that SauceNAO answers from.
#[derive(Clone, Copy, Debug, PartialEq, Eq, Structural)]
pub enum SauceIndex {
    HMagazines,
    Pixiv,
    NicoNico,
    Danbooru,
    Drawr,
    NijieImages,
    Yandere,
    FAKKU,
    EHentai,
    MediBang,
    Anime,
    Movies,
    Gelbooru,
    Sankaku,
    AnimePictures,
    E621,
    Bcy,
    DeviantArt,
    Pawoo,
    Madokami,
    Mangadex,
    Artstation,
    FurAffinity,
    Twitter,
    FurryNetwork,
    Kemono,
    Skeb,
}

/// The database with index id `id`; ids that no known database has give
/// `None`, and the answer is refused.
pub open spec fn index_of(id: u32) -> Option<SauceIndex> {
    match id {
        0 => Some(SauceIndex::HMagazines),
        5 | 6 => Some(SauceIndex::Pixiv),
        8 => Some(SauceIndex::NicoNico),
        9 => Some(SauceIndex::Danbooru),
        10 => Some(SauceIndex::Drawr),
        11 => Some(SauceIndex::NijieImages),
        12 => Some(SauceIndex::Yandere),
        16 => Some(SauceIndex::FAKKU),
        18 | 38 => Some(SauceIndex::EHentai),
        20 => Some(SauceIndex::MediBang),
        21 | 22 => Some(SauceIndex::Anime),
        23 => Some(SauceIndex::Movies),
        25 => Some(SauceIndex::Gelbooru),
        27 => Some(SauceIndex::Sankaku),
        28 => Some(SauceIndex::AnimePictures),
        29 => Some(SauceIndex::E621),
        31 => Some(SauceIndex::Bcy),
        34 => Some(SauceIndex::DeviantArt),
        35 => Some(SauceIndex::Pawoo),
        36 => Some(SauceIndex::Madokami),
        37 | 371 => Some(SauceIndex::Mangadex),
        39 => Some(SauceIndex::Artstation),
        40 => Some(SauceIndex::FurAffinity),
        41 => Some(SauceIndex::Twitter),
        42 => Some(SauceIndex::FurryNetwork),
        43 => Some(SauceIndex::Kemono),
        44 => Some(SauceIndex::Skeb),
        _ => None,
    }
}

/// The database with index id `id` (see [`index_of`]).
pub fn index_kind(id: u32) -> (r: Option<SauceIndex>)
    ensures
        r == index_of(id),
{
    match id {
        0 => Some(SauceIndex::HMagazines),
        5 | 6 => Some(SauceIndex::Pixiv),
        8 => Some(SauceIndex::NicoNico),
        9 => Some(SauceIndex::Danbooru),
        10 => Some(SauceIndex::Drawr),
        11 => Some(SauceIndex::NijieImages),
        12 => Some(SauceIndex::Yandere),
        16 => Some(SauceIndex::FAKKU),
        18 | 38 => Some(SauceIndex::EHentai),
        20 => Some(SauceIndex::MediBang),
        21 | 22 => Some(SauceIndex::Anime),
        23 => Some(SauceIndex::Movies),
        25 => Some(SauceIndex::Gelbooru),
        27 => Some(SauceIndex::Sankaku),
        28 => Some(SauceIndex::AnimePictures),
        29 => Some(SauceIndex::E621),
        31 => Some(SauceIndex::Bcy),
        34 => Some(SauceIndex::DeviantArt),
        35 => Some(SauceIndex::Pawoo),
        36 => Some(SauceIndex::Madokami),
        37 | 371 => Some(SauceIndex::Mangadex),
        39 => Some(SauceIndex::Artstation),
        40 => Some(SauceIndex::FurAffinity),
        41 => Some(SauceIndex::Twitter),
        42 => Some(SauceIndex::FurryNetwork),
        43 => Some(SauceIndex::Kemono),
        44 => Some(SauceIndex::Skeb),
        _ => None,
    }
}

/// Whether the answers of a database carry links to the image's pages.
#[derive(Clone, Copy, Debug, PartialEq, Eq, Structural)]
pub enum ExtUrls {
    /// Never: the answers have no links.
    Never,
    /// Sometimes: the links may be missing.
    Optional,
    /// Always.
    Always,
}

/// Whether the answers of database `index` carry links.
pub open spec fn ext_urls_of(index: SauceIndex) -> ExtUrls {
    match index {
        SauceIndex::HMagazines | SauceIndex::Drawr => ExtUrls::Never,
        SauceIndex::EHentai => ExtUrls::Optional,
        _ => ExtUrls::Always,
    }
}

impl SauceIndex {
    /// Whether the answers of this database carry links.
    pub fn ext_urls(&self) -> (r: ExtUrls)
        ensures
            r == ext_urls_of(*self),
    {
        match self {
            SauceIndex::HMagazines | SauceIndex::Drawr => ExtUrls::Never,
            SauceIndex::EHentai => ExtUrls::Optional,
            _ => ExtUrls::Always,
        }
    }
}

/// How the command answers a search, by its status.
#[derive(Clone, Copy, Debug, PartialEq, Eq, Structural)]
pub enum SearchOutcome {
    /// A positive status and no result: the service has trouble.
    Unavailable,
    /// A negative status: the search failed, likely on the image.
    Failed,
    /// Any other status, and no result: a distinct "no results" answer.
    NoResults,
    /// The results are shown.
    Results,
}

/// How the command answers a search with `status` and whether it found
/// anything.
pub open spec fn search_outcome_of(status: i32, no_results: bool) -> SearchOutcome {
    if status > 0 && no_results {
        SearchOutcome::Unavailable
    } else if status < 0 {
        SearchOutcome::Failed
    } else if no_results {
        SearchOutcome::NoResults
    } else {
        SearchOutcome::Results
    }
}

/// How the command answers a search (see [`search_outcome_of`]).
pub fn search_outcome(status: i32, no_results: bool) -> (r: SearchOutcome)
    ensures
        r == search_outcome_of(status, no_results),
{
    if status > 0 && no_results {
        SearchOutcome::Unavailable
    } else if status < 0 {
        SearchOutcome::Failed
    } else if no_results {
        SearchOutcome::NoResults
    } else {
        SearchOutcome::Results
    }
}

/// The answer when the service has trouble.
pub open spec fn unavailable_text(emoji: Seq<char>, status: i32) -> Seq<char> {
    "Seems that SauceNAO is not having a good time currently "@ + emoji + " ``(status code: "@
        + signed_decimal(status as int) + ")``"@
}

/// The answer when the search failed.
pub open spec fn failed_text(emoji: Seq<char>, status: i32) -> Seq<char> {
    "Sorry, an error happened "@ + emoji + " ``(status code: "@ + signed_decimal(status as int)
        + ")``\nDid you send a valid image?"@
}

/// The answer for an outcome other than `Results`, with a sad emoji; the
/// results themselves go to the paginator.
pub fn outcome_message(outcome: SearchOutcome, emoji: &str, status: i32) -> (r: Option<String>)
    ensures
        match outcome {
            SearchOutcome::Unavailable => r matches Some(m) && m@ == unavailable_text(emoji@, status),
            SearchOutcome::Failed => r matches Some(m) && m@ == failed_text(emoji@, status),
            SearchOutcome::NoResults => r matches Some(m) && m@ == no_results_text(emoji@),
            SearchOutcome::Results => r is None,
        },
{
    match outcome {
        SearchOutcome::Unavailable => {
            let mut m = String::from_str("Seems that SauceNAO is not having a good time currently ");
            m.append(emoji);
            m.append(" ``(status code: ");
            m.append(signed_to_decimal(status).as_str());
            m.append(")``");
            Some(m)
        },
        SearchOutcome::Failed => {
            let mut m = String::from_str("Sorry, an error happened ");
            m.append(emoji);
            m.append(" ``(status code: ");
            m.append(signed_to_decimal(status).as_str());
            m.append(")``\nDid you send a valid image?");
            Some(m)
        },
        SearchOutcome::NoResults => Some(no_results_message(emoji)),
        SearchOutcome::Results => None,
    }
}

/// Whether an answer's thumbnail is censored: it is marked hidden and the
/// channel does not allow adult content.
pub open spec fn censored(hidden: u32, nsfw_channel: bool) -> bool {
    hidden != 0 && !nsfw_channel
}

/// The description of an answer's embed: its similarity, and a warning when
/// the thumbnail is censored.
pub open spec fn answer_description(similarity: Seq<char>, censored: bool) -> Seq<char> {
    "Similarity "@ + similarity + "%"@ + if censored {
        "\n**WARNING:** Image is NSFW so it's been censored!"@
    } else {
        Seq::empty()
    }
}

/// Whether an answer's thumbnail is censored (see [`censored`]).
pub fn is_censored(hidden: u32, nsfw_channel: bool) -> (r: bool)
    ensures
        r == censored(hidden, nsfw_channel),
{
    hidden != 0 && !nsfw_channel
}

/// The description of an answer's embed (see [`answer_description`]).
pub fn describe_answer(similarity: &str, censored: bool) -> (r: String)
    ensures
        r@ == answer_description(similarity@, censored),
{
    let mut d = String::from_str("Similarity ");
    d.append(similarity);
    d.append("%");
    if censored {
        d.append("\n**WARNING:** Image is NSFW so it's been censored!");
    }
    d
}

} // verus!
