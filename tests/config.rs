use podcast_publisher::config::{ChannelDetails, Episode};

#[test]
fn sample_channel() {
    let c = ChannelDetails::make_test();
    assert_eq!(c.title, "title");
    assert_eq!(c.link.as_deref(), Some("link"));
    assert!(c.explicit);
    assert_eq!(c.owner.name, "test");
    assert_eq!(c.owner.email, "email");
    assert_eq!(c.keywords, vec!["keyword".to_owned()]);
}

#[test]
fn sample_episode() {
    let e = Episode::make_test("ep");
    assert_eq!(e.id, "ep");
    assert_eq!(e.title, "ep");
    assert_eq!((e.season, e.episode_number), (1, 1));
    assert_eq!((e.media.duration, e.media.bytes), (12, 1000));
    assert!(e.released_at > 1_600_000_000);
}
