//! Starting a level from its map: the statistics it counts (monsters and
//! secrets), the reset of the level progress, and the sky it shows. Reading
//! the map, building its geometry and placing the player are the frame
//! loop's.
use vstd::prelude::*;
use crate::game_flow::{LevelProgress, LoadLevelEvent};
use crate::map::{BuildMap, Sector, Sprite};

verus! {

/// The monsters the statistics count: pig cops, troopers, octabrains and
/// enforcers.
pub open spec fn is_counted_monster(s: Sprite) -> bool {
    s.picnum == 2000 || s.picnum == 1680 || s.picnum == 1820 || s.picnum == 2120
}

/// A secret sprite: a tagged one of tiles 142..=145.
pub open spec fn is_secret_sprite(s: Sprite) -> bool {
    s.lotag != 0 && 142 <= s.picnum <= 145
}

/// A secret sector: lotag 32767.
pub open spec fn is_secret_sector(s: Sector) -> bool {
    s.lotag == 32767
}

pub open spec fn monster_count(v: Seq<Sprite>) -> nat
    decreases v.len(),
{
    if v.len() == 0 { 0 } else { monster_count(v.drop_last()) + if is_counted_monster(v.last()) { 1nat } else { 0nat } }
}

pub open spec fn secret_sprite_count(v: Seq<Sprite>) -> nat
    decreases v.len(),
{
    if v.len() == 0 { 0 } else { secret_sprite_count(v.drop_last()) + if is_secret_sprite(v.last()) { 1nat } else { 0nat } }
}

pub open spec fn secret_sector_count(v: Seq<Sector>) -> nat
    decreases v.len(),
{
    if v.len() == 0 { 0 } else { secret_sector_count(v.drop_last()) + if is_secret_sector(v.last()) { 1nat } else { 0nat } }
}

/// Whether any sector has a sky for a ceiling.
pub open spec fn has_sky(v: Seq<Sector>) -> bool {
    exists|i: int| 0 <= i < v.len() && (v[i].ceilingstat & 1) != 0
}

/// The sky tile of an episode: the moon (80) over the first, the orbit
/// (84) over the second, the city sky (89) over the others.
pub open spec fn episode_sky(episode: usize) -> i16 {
    if episode == 1 { 80 } else if episode == 2 { 84 } else { 89 }
}

proof fn lemma_count_bound(v: Seq<Sprite>)
    ensures
        monster_count(v) <= v.len(),
        secret_sprite_count(v) <= v.len(),
    decreases v.len(),
{
    if v.len() > 0 {
        lemma_count_bound(v.drop_last());
    }
}

proof fn lemma_sector_count_bound(v: Seq<Sector>)
    ensures
        secret_sector_count(v) <= v.len(),
    decreases v.len(),
{
    if v.len() > 0 {
        lemma_sector_count_bound(v.drop_last());
    }
}

fn count_monsters_and_secret_sprites(v: &Vec<Sprite>) -> (r: (usize, usize))
    ensures
        r.0 == monster_count(v@),
        r.1 == secret_sprite_count(v@),
{
    let mut m: usize = 0;
    let mut s: usize = 0;
    let mut i: usize = 0;
    while i < v.len()
        invariant
            i <= v@.len(),
            m == monster_count(v@.subrange(0, i as int)),
            s == secret_sprite_count(v@.subrange(0, i as int)),
        decreases v@.len() - i,
    {
        proof {
            assert(v@.subrange(0, i + 1).drop_last() =~= v@.subrange(0, i as int));
            lemma_count_bound(v@.subrange(0, i as int));
        }
        let p = v[i].picnum;
        if p == 2000 || p == 1680 || p == 1820 || p == 2120 {
            m += 1;
        }
        if v[i].lotag != 0 && 142 <= p && p <= 145 {
            s += 1;
        }
        i += 1;
    }
    assert(v@.subrange(0, v@.len() as int) =~= v@);
    (m, s)
}

fn count_secret_sectors(v: &Vec<Sector>) -> (r: usize)
    ensures
        r == secret_sector_count(v@),
{
    let mut n: usize = 0;
    let mut i: usize = 0;
    while i < v.len()
        invariant
            i <= v@.len(),
            n == secret_sector_count(v@.subrange(0, i as int)),
        decreases v@.len() - i,
    {
        proof {
            assert(v@.subrange(0, i + 1).drop_last() =~= v@.subrange(0, i as int));
            lemma_sector_count_bound(v@.subrange(0, i as int));
        }
        if v[i].lotag == 32767 {
            n += 1;
        }
        i += 1;
    }
    assert(v@.subrange(0, v@.len() as int) =~= v@);
    n
}

fn any_sky(v: &Vec<Sector>) -> (r: bool)
    ensures
        r == has_sky(v@),
{
    let mut i: usize = 0;
    while i < v.len()
        invariant
            i <= v@.len(),
            forall|j: int| 0 <= j < i ==> (#[trigger] v@[j].ceilingstat & 1) == 0,
        decreases v@.len() - i,
    {
        if v[i].is_ceiling_parallax() {
            return true;
        }
        i += 1;
    }
    false
}

/// The level of `event` was loaded from `map`: the progress moves to it,
/// with the counted monsters and secrets as totals (at least one each)
/// and nothing found yet. Returns the sky tile to show, when any sector
/// has a sky.
pub fn handle_load_level_events(progress: &mut LevelProgress, event: LoadLevelEvent, map: &BuildMap) -> (sky: Option<i16>)
    requires
        map.sprites@.len() + map.sectors@.len() <= i32::MAX,
    ensures
        final(progress).current_episode == event.episode,
        final(progress).current_level == event.level,
        final(progress).total_monsters == (if monster_count(map.sprites@) >= 1 { monster_count(map.sprites@) as int } else { 1 }),
        final(progress).total_secrets == ({
            let n = secret_sector_count(map.sectors@) + secret_sprite_count(map.sprites@);
            if n >= 1 { n as int } else { 1 }
        }),
        final(progress).kills_count == 0,
        final(progress).secrets_found == 0,
        final(progress).level_time_ms == 0,
        final(progress).par_time_ms == old(progress).par_time_ms,
        !final(progress).is_level_completed,
        final(progress).skill == old(progress).skill,
        sky == (if has_sky(map.sectors@) { Some(episode_sky(event.episode)) } else { None::<i16> }),
{
    let (monsters, secret_sprites) = count_monsters_and_secret_sprites(&map.sprites);
    let secret_sectors = count_secret_sectors(&map.sectors);
    proof {
        lemma_count_bound(map.sprites@);
        lemma_sector_count_bound(map.sectors@);
    }
    let monster_count: i32 = monsters as i32;
    let secret_count: i32 = secret_sectors as i32 + secret_sprites as i32;
    progress.current_episode = event.episode;
    progress.current_level = event.level;
    progress.total_monsters = if monster_count >= 1 { monster_count } else { 1 };
    progress.total_secrets = if secret_count >= 1 { secret_count } else { 1 };
    progress.kills_count = 0;
    progress.secrets_found = 0;
    progress.level_time_ms = 0;
    progress.is_level_completed = false;
    if any_sky(&map.sectors) {
        Some(if event.episode == 1 { 80 } else if event.episode == 2 { 84 } else { 89 })
    } else {
        None
    }
}

} // verus!
