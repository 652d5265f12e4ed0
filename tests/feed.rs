use podcast_publisher::config::{ChannelDetails, Episode, EpisodeMedia, OwnerDetails};
use podcast_publisher::format::to_decimal;
use podcast_publisher::xml::{generate_podcast_xml, render_podcast_xml};

fn channel() -> ChannelDetails {
    ChannelDetails {
        title: "T".to_owned(),
        link: None,
        description: "D".to_owned(),
        subtitle: "S".to_owned(),
        summary: "Sum".to_owned(),
        explicit: true,
        image: "https://img".to_owned(),
        owner: OwnerDetails { name: "N".to_owned(), email: "e@x".to_owned() },
        keywords: vec![],
    }
}

fn episode(id: &str, season: u64, number: u64) -> Episode {
    Episode {
        id: id.to_owned(),
        title: format!("title {}", id),
        description: "desc".to_owned(),
        summary: "sum".to_owned(),
        link: None,
        image: "https://ep".to_owned(),
        released_at: 0,
        season,
        episode_number: number,
        media: EpisodeMedia { url: "https://x".to_owned(), duration: 61, bytes: 12345 },
        keywords: vec![],
    }
}

#[test]
fn decimal_text() {
    assert_eq!(to_decimal(0), "0");
    assert_eq!(to_decimal(12345), "12345");
    assert_eq!(to_decimal(u64::MAX), "18446744073709551615");
}

#[test]
fn two_episodes_in_order() {
    let eps = vec![episode("a", 1, 1), episode("b", 1, 2)];
    let xml = render_podcast_xml(&channel(), &eps, 0).unwrap();
    assert!(xml.starts_with("<?xml version=\"1.0\" encoding=\"UTF-8\"?>"));
    assert_eq!(xml.matches("<item>").count(), 2);
    assert_eq!(xml.matches("</item>").count(), 2);
    let a = xml.find("<guid>a</guid>").unwrap();
    let b = xml.find("<guid>b</guid>").unwrap();
    assert!(a < b);
    let first = &xml[a..b];
    let second = &xml[b..];
    assert!(first.contains("<itunes:season>1</itunes:season>"));
    assert!(first.contains("<itunes:episode>1</itunes:episode>"));
    assert!(second.contains("<itunes:season>1</itunes:season>"));
    assert!(second.contains("<itunes:episode>2</itunes:episode>"));
    assert!(xml.contains("<title>T</title>"));
    assert!(xml.contains("<itunes:explicit>Yes</itunes:explicit>"));
    assert!(xml.contains("<itunes:name>N</itunes:name>"));
    assert!(xml.contains("<itunes:email>e@x</itunes:email>"));
    assert!(xml.contains("<webMaster>e@x</webMaster>"));
    assert!(xml.trim_end().ends_with("</rss>"));
}

#[test]
fn enclosure_attributes() {
    let xml = render_podcast_xml(&channel(), &vec![episode("a", 1, 1)], 0).unwrap();
    assert!(xml.contains("<enclosure url=\"https://x\" length=\"12345\" type=\"audio/mpeg\"/>"));
    assert!(xml.contains("<itunes:duration>61</itunes:duration>"));
}

#[test]
fn dates_and_markdown() {
    let xml = render_podcast_xml(&channel(), &vec![episode("a", 1, 1)], 86400).unwrap();
    assert!(xml.contains("<lastBuildDate>Fri, 02 Jan 1970 00:00:00 +0000</lastBuildDate>"));
    assert!(xml.contains("<pubDate>Thu, 01 Jan 1970 00:00:00 +0000</pubDate>"));
    assert!(xml.contains("<description>&lt;p&gt;T&lt;/p&gt;"));
    assert!(xml.contains("<description>&lt;p&gt;desc&lt;/p&gt;"));
}

#[test]
fn empty_catalog_feed() {
    let mut c = channel();
    c.explicit = false;
    c.link = Some("https://site".to_owned());
    let xml = generate_podcast_xml(c, vec![]).unwrap();
    assert_eq!(xml.matches("<item>").count(), 0);
    assert!(xml.contains("<link>https://site</link>"));
    assert!(xml.contains("<itunes:explicit>No</itunes:explicit>"));
    assert!(xml.contains("<itunes:category text=\"Fiction\"/>"));
}
