use podcast_publisher::config::{Episode, EpisodeMedia};
use podcast_publisher::numbering::{assign_numbering, update_episode_numbers};

fn episode(season: u64, number: u64) -> Episode {
    Episode {
        id: format!("{}-{}", season, number),
        title: "t".to_owned(),
        description: "d".to_owned(),
        summary: "s".to_owned(),
        link: None,
        image: "i".to_owned(),
        released_at: 0,
        season,
        episode_number: number,
        media: EpisodeMedia { url: "u".to_owned(), duration: 1, bytes: 1 },
        keywords: vec![],
    }
}

#[test]
fn empty_catalog_starts_at_season_zero() {
    assert_eq!(assign_numbering(&vec![]), (0, 1));
}

#[test]
fn next_episode_follows_latest_season() {
    let catalog = vec![episode(1, 1), episode(1, 2), episode(2, 3), episode(2, 5), episode(2, 4)];
    assert_eq!(assign_numbering(&catalog), (2, 6));
}

#[test]
fn scan_order_is_kept_literally() {
    let catalog = vec![episode(1, 9), episode(2, 5)];
    assert_eq!(assign_numbering(&catalog), (2, 10));
    let catalog = vec![episode(2, 5), episode(1, 9)];
    assert_eq!(assign_numbering(&catalog), (2, 6));
}

#[test]
fn update_sets_only_numbers() {
    let mut e = episode(7, 7);
    update_episode_numbers(&mut e, &vec![episode(3, 4)]);
    assert_eq!((e.season, e.episode_number), (3, 5));
    assert_eq!(e.id, "7-7");
}
