use podcast_publisher::config::{ChannelDetails, Episode};
use podcast_publisher::episode::{draft_episode, new_episode, plan_episode};
use podcast_publisher::error::CliError;

#[test]
fn plan_for_a_date() {
    let p = plan_episode("pfx", "2022-03-04").unwrap();
    assert_eq!(p.released_at, 1646352000);
    assert_eq!(p.publish_name, "2022-03-04");
    assert_eq!(p.object_key, "pfx/artifacts/2022-03-04.mp3");
    assert_eq!(p.file_name, "2022-03-04-session.yaml");
}

#[test]
fn plan_rejects_bad_date() {
    assert!(matches!(plan_episode("pfx", "March fourth"), Err(CliError::ChronoError(_))));
}

#[test]
fn new_episode_fields() {
    let channel = ChannelDetails::make_test();
    let catalog = vec![Episode::make_test("one")];
    let e = new_episode("id".to_owned(), "T".to_owned(), &channel, 5, "https://u".to_owned(), 30, 99, &catalog);
    assert_eq!(e.id, "id");
    assert_eq!(e.description, "Fill me in");
    assert_eq!(e.link.as_deref(), Some("Fill me in, or delete me"));
    assert_eq!(e.image, "image");
    assert_eq!(e.keywords, vec!["keyword".to_owned()]);
    assert_eq!((e.season, e.episode_number), (1, 2));
    assert_eq!((e.media.duration, e.media.bytes), (30, 99));
}

#[test]
fn draft_has_fresh_id() {
    let channel = ChannelDetails::make_test();
    let a = draft_episode("T".to_owned(), &channel, 0, "u".to_owned(), 1, 2, &vec![]);
    let b = draft_episode("T".to_owned(), &channel, 0, "u".to_owned(), 1, 2, &vec![]);
    assert_eq!(a.id.len(), 36);
    assert_ne!(a.id, b.id);
    assert_eq!((a.season, a.episode_number), (0, 1));
}
