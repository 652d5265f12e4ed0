use vstd::prelude::*;
use crate::config::{valid_timestamp, ChannelDetails, Episode, EpisodeMedia};
use crate::error::CliError;
use crate::format::{format_ymd, parse_day, parsed_day_of, ymd_of};
use crate::numbering::{assign_numbering, next_numbering, numbering_scan};
use crate::upload::artifact_key;

verus! {

/// Where a new episode released on a given date is stored.
#[derive(Debug, Clone)]
pub struct EpisodePlan {
    /// Midnight (UTC) of the release date, in seconds since the Unix epoch.
    pub released_at: i64,
    /// The release date as `%Y-%m-%d`.
    pub publish_name: String,
    /// The object key of the episode's audio.
    pub object_key: String,
    /// The name of the episode's record file.
    pub file_name: String,
}

/// Where an episode released on the date `date` (`%Y-%m-%d`) is stored under
/// `prefix`; a date error exactly where the date does not parse.
pub fn plan_episode(prefix: &str, date: &str) -> (r: Result<EpisodePlan, CliError>)
    ensures
        r is Err <==> parsed_day_of(date@) is None,
        r matches Err(e) ==> e is ChronoError,
        r matches Ok(p) ==> {
            &&& parsed_day_of(date@) == Some(p.released_at as int)
            &&& valid_timestamp(p.released_at as int)
            &&& p.publish_name@ == ymd_of(p.released_at as int)
            &&& p.object_key@ == prefix@ + "/artifacts/"@ + p.publish_name@ + ".mp3"@
            &&& p.file_name@ == p.publish_name@ + "-session.yaml"@
        },
{
    match parse_day(date) {
        Err(e) => Err(CliError::ChronoError(e)),
        Ok(released_at) => {
            let publish_name = format_ymd(released_at);
            let object_key = artifact_key(prefix, publish_name.as_str());
            let mut file_name = publish_name.clone();
            file_name.append("-session.yaml");
            Ok(EpisodePlan { released_at, publish_name, object_key, file_name })
        },
    }
}

/// The texts of a sequence of strings.
pub open spec fn texts(v: Seq<String>) -> Seq<Seq<char>> {
    v.map_values(|s: String| s@)
}

fn copy_texts(v: &Vec<String>) -> (r: Vec<String>)
    ensures
        texts(r@) == texts(v@),
{
    let mut r: Vec<String> = Vec::new();
    let mut i: usize = 0;
    while i < v.len()
        invariant
            i <= v@.len(),
            texts(r@) == texts(v@.take(i as int)),
        decreases v@.len() - i,
    {
        r.push(String::from_str(v[i].as_str()));
        assert(texts(v@.take(i as int + 1)) =~= texts(v@.take(i as int)).push(v@[i as int]@));
        assert(texts(r@) =~= texts(v@.take(i as int + 1)));
        i = i + 1;
    }
    assert(v@.take(i as int) =~= v@);
    r
}

/// The record of a new episode: its text fields awaiting an edit, the
/// channel's image and keywords, its uploaded audio, and the numbering that
/// follows `catalog`.
pub fn new_episode(
    id: String,
    title: String,
    channel: &ChannelDetails,
    released_at: i64,
    url: String,
    duration: u64,
    bytes: u64,
    catalog: &Vec<Episode>,
) -> (r: Episode)
    requires
        valid_timestamp(released_at as int),
        numbering_scan(catalog@).1 < u64::MAX,
    ensures
        r.wf(),
        r.id == id,
        r.title == title,
        r.description@ == "Fill me in"@,
        r.summary@ == "Fill me in"@,
        r.link matches Some(l) && l@ == "Fill me in, or delete me"@,
        r.image@ == channel.image@,
        r.released_at == released_at,
        r.season as int == next_numbering(catalog@).0,
        r.episode_number as int == next_numbering(catalog@).1,
        r.media.url == url,
        r.media.duration == duration,
        r.media.bytes == bytes,
        texts(r.keywords@) == texts(channel.keywords@),
{
    let (season, episode_number) = assign_numbering(catalog);
    Episode {
        id,
        title,
        description: String::from_str("Fill me in"),
        summary: String::from_str("Fill me in"),
        link: Some(String::from_str("Fill me in, or delete me")),
        image: String::from_str(channel.image.as_str()),
        released_at,
        season,
        episode_number,
        media: EpisodeMedia { url, duration, bytes },
        keywords: copy_texts(&channel.keywords),
    }
}


/// Relies on `uuid::Uuid::new_v4`, rendered with `to_string` in the
/// hyphenated form of 36 characters; the value itself is random.
#[verifier::external_body]
fn fresh_id() -> (r: String)
    ensures
        r@.len() == 36,
{
    uuid::Uuid::new_v4().to_string()
}

/// The record of a new episode as `new_episode` builds it, under a fresh
/// random identifier.
pub fn draft_episode(
    title: String,
    channel: &ChannelDetails,
    released_at: i64,
    url: String,
    duration: u64,
    bytes: u64,
    catalog: &Vec<Episode>,
) -> (r: Episode)
    requires
        valid_timestamp(released_at as int),
        numbering_scan(catalog@).1 < u64::MAX,
    ensures
        r.wf(),
        r.id@.len() == 36,
        r.title == title,
        r.description@ == "Fill me in"@,
        r.summary@ == "Fill me in"@,
        r.link matches Some(l) && l@ == "Fill me in, or delete me"@,
        r.image@ == channel.image@,
        r.released_at == released_at,
        r.season as int == next_numbering(catalog@).0,
        r.episode_number as int == next_numbering(catalog@).1,
        r.media.url == url,
        r.media.duration == duration,
        r.media.bytes == bytes,
        texts(r.keywords@) == texts(channel.keywords@),
{
    let id = fresh_id();
    new_episode(id, title, channel, released_at, url, duration, bytes, catalog)
}

} // verus!
