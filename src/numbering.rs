use vstd::prelude::*;
use crate::config::Episode;

verus! {

/// The (season, largest episode number) tracked by a scan of `eps` in order:
/// an episode whose season is at least the running season makes its season
/// the running one, and raises the running episode number to its own if that
/// is not smaller.
pub open spec fn numbering_scan(eps: Seq<Episode>) -> (int, int)
    decreases eps.len(),
{
    if eps.len() == 0 {
        (0, 0)
    } else {
        let prev = numbering_scan(eps.drop_last());
        let ep = eps.last();
        if prev.0 <= ep.season {
            (ep.season as int, if prev.1 <= ep.episode_number { ep.episode_number as int } else { prev.1 })
        } else {
            prev
        }
    }
}

/// The (season, episode number) that a new episode gets after `eps`.
pub open spec fn next_numbering(eps: Seq<Episode>) -> (int, int) {
    (numbering_scan(eps).0, numbering_scan(eps).1 + 1)
}

proof fn lemma_scan_bounded(eps: Seq<Episode>)
    ensures
        0 <= numbering_scan(eps).0 <= u64::MAX,
        0 <= numbering_scan(eps).1 <= u64::MAX,
    decreases eps.len(),
{
    if eps.len() > 0 {
        lemma_scan_bounded(eps.drop_last());
    }
}

/// The numbering of a new episode after the catalog `episodes`.
pub fn assign_numbering(episodes: &Vec<Episode>) -> (r: (u64, u64))
    requires
        numbering_scan(episodes@).1 < u64::MAX,
    ensures
        r.0 as int == next_numbering(episodes@).0,
        r.1 as int == next_numbering(episodes@).1,
{
    let mut season_number: u64 = 0;
    let mut episode_number: u64 = 0;
    let mut i: usize = 0;
    while i < episodes.len()
        invariant
            i <= episodes@.len(),
            numbering_scan(episodes@.take(i as int)) == (season_number as int, episode_number as int),
        decreases episodes@.len() - i,
    {
        let episode = &episodes[i];
        assert(episodes@.take(i as int + 1).drop_last() =~= episodes@.take(i as int));
        if season_number <= episode.season {
            season_number = episode.season;
            if episode_number <= episode.episode_number {
                episode_number = episode.episode_number;
            }
        }
        i = i + 1;
    }
    assert(episodes@.take(i as int) =~= episodes@);
    (season_number, episode_number + 1)
}

/// Gives `episode` the season and episode number that follow the catalog `episodes`.
pub fn update_episode_numbers(episode: &mut Episode, episodes: &Vec<Episode>)
    requires
        numbering_scan(episodes@).1 < u64::MAX,
    ensures
        final(episode).season as int == next_numbering(episodes@).0,
        final(episode).episode_number as int == next_numbering(episodes@).1,
        *final(episode) == (Episode {
            season: final(episode).season,
            episode_number: final(episode).episode_number,
            ..*old(episode)
        }),
{
    let (season, number) = assign_numbering(episodes);
    episode.season = season;
    episode.episode_number = number;
}

/// An empty catalog starts at season 0, episode 1.
pub proof fn lemma_empty_catalog_numbering(eps: Seq<Episode>)
    requires
        eps.len() == 0,
    ensures
        next_numbering(eps) == (0int, 1int),
{
}

proof fn lemma_scan_in_max_season(eps: Seq<Episode>, season: u64, number: u64)
    requires
        forall|i: int| 0 <= i < eps.len() ==> (#[trigger] eps[i]).season <= season,
        forall|i: int| 0 <= i < eps.len() ==> (#[trigger] eps[i]).episode_number <= number,
    ensures
        numbering_scan(eps).0 <= season,
        numbering_scan(eps).1 <= number,
        (exists|i: int| 0 <= i < eps.len() && (#[trigger] eps[i]).season == season
            && eps[i].episode_number == number) ==> numbering_scan(eps) == (season as int, number as int),
    decreases eps.len(),
{
    if eps.len() > 0 {
        let prefix = eps.drop_last();
        assert forall|i: int| 0 <= i < prefix.len() implies (#[trigger] prefix[i]).season <= season
            && prefix[i].episode_number <= number by {
            assert(prefix[i] == eps[i]);
        }
        lemma_scan_in_max_season(prefix, season, number);
        lemma_scan_bounded(prefix);
        if exists|i: int| 0 <= i < eps.len() && (#[trigger] eps[i]).season == season
            && eps[i].episode_number == number {
            let i = choose|i: int| 0 <= i < eps.len() && (#[trigger] eps[i]).season == season
                && eps[i].episode_number == number;
            if i < prefix.len() {
                assert(prefix[i] == eps[i]);
            }
        }
        assert(eps.last() == eps[eps.len() - 1]);
    }
}

/// Where every episode has a season of at most `season` and an episode number
/// of at most `number`, and some episode is episode `number` of season
/// `season`, the next episode is episode `number + 1` of season `season`.
pub proof fn lemma_numbering_follows_latest(eps: Seq<Episode>, season: u64, number: u64)
    requires
        forall|i: int| 0 <= i < eps.len() ==> (#[trigger] eps[i]).season <= season,
        forall|i: int| 0 <= i < eps.len() ==> (#[trigger] eps[i]).episode_number <= number,
        exists|i: int| 0 <= i < eps.len() && (#[trigger] eps[i]).season == season
            && eps[i].episode_number == number,
    ensures
        next_numbering(eps) == (season as int, number as int + 1),
{
    lemma_scan_in_max_season(eps, season, number);
}

} // verus!
