use vstd::prelude::*;
use crate::format::now_timestamp;

verus! {

/// The first second that a UTC date-time can hold (January 1, 262144 BCE).
pub const MIN_TIMESTAMP: i64 = -8334601315200;

/// The last second that a UTC date-time can hold (December 31, 262142 CE).
pub const MAX_TIMESTAMP: i64 = 8210266876799;

/// A count of seconds since the Unix epoch that names a representable UTC date-time.
pub open spec fn valid_timestamp(secs: int) -> bool {
    MIN_TIMESTAMP <= secs <= MAX_TIMESTAMP
}

/// Channel metadata together with where its artifacts are published.
#[derive(Debug, Clone)]
pub struct ChannelConfig {
    pub channel: ChannelDetails,
    pub publishing: PublishingConfig,
}

/// The object-store target of a channel.
#[derive(Debug, Clone)]
pub struct PublishingConfig {
    pub region: Region,
    pub bucket: String,
    pub prefix: String,
}

/// An object-store region, by name and endpoint host.
#[derive(Debug, Clone)]
pub struct Region {
    pub name: String,
    pub endpoint: String,
}

/// Metadata of a podcast channel.
#[derive(Debug, Clone)]
pub struct ChannelDetails {
    pub title: String,
    pub link: Option<String>,
    pub description: String,
    pub subtitle: String,
    pub summary: String,
    pub explicit: bool,
    pub image: String,
    pub owner: OwnerDetails,
    pub keywords: Vec<String>,
}

/// The owner of a channel.
#[derive(Debug, Clone)]
pub struct OwnerDetails {
    pub name: String,
    pub email: String,
}

/// One published episode. `released_at` is in seconds since the Unix epoch, UTC.
#[derive(Debug, Clone)]
pub struct Episode {
    pub id: String,
    pub title: String,
    pub description: String,
    pub summary: String,
    pub link: Option<String>,
    pub image: String,
    pub released_at: i64,
    pub season: u64,
    pub episode_number: u64,
    pub media: EpisodeMedia,
    pub keywords: Vec<String>,
}

/// The audio artifact of an episode.
#[derive(Debug, Clone)]
pub struct EpisodeMedia {
    pub url: String,
    pub duration: u64,
    pub bytes: u64,
}

impl Episode {
    /// An episode whose release time can be rendered as a date.
    pub open spec fn wf(&self) -> bool {
        valid_timestamp(self.released_at as int)
    }
}

/// Every episode of the sequence can be rendered.
pub open spec fn all_wf(eps: Seq<Episode>) -> bool {
    forall|i: int| 0 <= i < eps.len() ==> (#[trigger] eps[i]).wf()
}

impl ChannelDetails {
    /// A sample channel with every field filled.
    pub fn make_test() -> (r: Self)
        ensures
            r.title@ == "title"@,
            r.link matches Some(l) && l@ == "link"@,
            r.description@ == "description"@,
            r.subtitle@ == "subtitle"@,
            r.summary@ == "summary"@,
            r.explicit,
            r.image@ == "image"@,
            r.owner.name@ == "test"@,
            r.owner.email@ == "email"@,
            r.keywords@.len() == 1,
            r.keywords@[0]@ == "keyword"@,
    {
        let mut keywords: Vec<String> = Vec::new();
        keywords.push(String::from_str("keyword"));
        Self {
            title: String::from_str("title"),
            link: Some(String::from_str("link")),
            description: String::from_str("description"),
            subtitle: String::from_str("subtitle"),
            summary: String::from_str("summary"),
            explicit: true,
            image: String::from_str("image"),
            owner: OwnerDetails {
                name: String::from_str("test"),
                email: String::from_str("email"),
            },
            keywords,
        }
    }
}

impl Episode {
    /// A sample episode named `title`, released now, in season 1 as episode 1.
    pub fn make_test(title: &str) -> (r: Self)
        ensures
            r.wf(),
            r.id@ == title@,
            r.title@ == title@,
            r.description@ == "description"@,
            r.summary@ == "summary"@,
            r.link matches Some(l) && l@ == "link"@,
            r.image@ == "image"@,
            r.season == 1,
            r.episode_number == 1,
            r.media.url@ == "url"@,
            r.media.duration == 12,
            r.media.bytes == 1000,
            r.keywords@.len() == 1,
            r.keywords@[0]@ == "keyword"@,
    {
        let mut keywords: Vec<String> = Vec::new();
        keywords.push(String::from_str("keyword"));
        Self {
            id: String::from_str(title),
            title: String::from_str(title),
            description: String::from_str("description"),
            summary: String::from_str("summary"),
            link: Some(String::from_str("link")),
            image: String::from_str("image"),
            released_at: now_timestamp(),
            season: 1,
            episode_number: 1,
            media: EpisodeMedia { url: String::from_str("url"), duration: 12, bytes: 1000 },
            keywords,
        }
    }
}

} // verus!
