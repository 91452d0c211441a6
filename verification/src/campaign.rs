//! The campaign: the map database of the four episodes, and level
//! progression with secret exits.
use vstd::prelude::*;
use crate::text::{decimal, push_decimal, string_from_chars};
use crate::game_flow::SkillLevel;

verus! {

#[derive(Debug, Clone, Copy, PartialEq)]
pub struct CampaignMapInfo {
    pub episode: usize,
    pub level: usize,
    pub title: &'static str,
    pub map_filename: &'static str,
    pub music_filename: &'static str,
    /// Par time in whole seconds.
    pub par_time_seconds: u32,
    pub is_secret: bool,
    pub secret_destination: Option<usize>,
    pub is_boss_level: bool,
}

/// Every campaign map in episode and level order.
pub open spec fn campaign_table() -> Seq<CampaignMapInfo> {
    seq![
        CampaignMapInfo { episode: 1, level: 1, title: "Hollywood Holocaust", map_filename: "E1L1.MAP", music_filename: "STALKER.MID", par_time_seconds: 90, is_secret: false, secret_destination: None, is_boss_level: false },
        CampaignMapInfo { episode: 1, level: 2, title: "Red Light District", map_filename: "E1L2.MAP", music_filename: "DETHTOLL.MID", par_time_seconds: 190, is_secret: false, secret_destination: None, is_boss_level: false },
        CampaignMapInfo { episode: 1, level: 3, title: "Death Row", map_filename: "E1L3.MAP", music_filename: "STREETS.MID", par_time_seconds: 225, is_secret: false, secret_destination: Some(8), is_boss_level: false },
        CampaignMapInfo { episode: 1, level: 4, title: "Toxic Dump", map_filename: "E1L4.MAP", music_filename: "WATRWRD1.MID", par_time_seconds: 255, is_secret: false, secret_destination: None, is_boss_level: false },
        CampaignMapInfo { episode: 1, level: 5, title: "The Abyss", map_filename: "E1L5.MAP", music_filename: "SNAKE1.MID", par_time_seconds: 310, is_secret: false, secret_destination: None, is_boss_level: false },
        CampaignMapInfo { episode: 1, level: 6, title: "Launch Facility", map_filename: "E1L6.MAP", music_filename: "LORDCOFO.MID", par_time_seconds: 240, is_secret: false, secret_destination: None, is_boss_level: true },
        CampaignMapInfo { episode: 1, level: 7, title: "Faces of Death", map_filename: "E1L7.MAP", music_filename: "STALKER.MID", par_time_seconds: 120, is_secret: false, secret_destination: None, is_boss_level: false },
        CampaignMapInfo { episode: 1, level: 8, title: "Launch Facility (Secret)", map_filename: "E1L8.MAP", music_filename: "LORDCOFO.MID", par_time_seconds: 210, is_secret: true, secret_destination: None, is_boss_level: false },
        CampaignMapInfo { episode: 2, level: 1, title: "Spaceport", map_filename: "E2L1.MAP", music_filename: "ALF.MID", par_time_seconds: 165, is_secret: false, secret_destination: None, is_boss_level: false },
        CampaignMapInfo { episode: 2, level: 2, title: "Incubator", map_filename: "E2L2.MAP", music_filename: "SPACE.MID", par_time_seconds: 220, is_secret: false, secret_destination: None, is_boss_level: false },
        CampaignMapInfo { episode: 2, level: 3, title: "Warp Factor", map_filename: "E2L3.MAP", music_filename: "GUTWREN.MID", par_time_seconds: 210, is_secret: false, secret_destination: None, is_boss_level: false },
        CampaignMapInfo { episode: 2, level: 4, title: "Fusion Station", map_filename: "E2L4.MAP", music_filename: "INVADER.MID", par_time_seconds: 180, is_secret: false, secret_destination: None, is_boss_level: false },
        CampaignMapInfo { episode: 2, level: 5, title: "Occupied Territory", map_filename: "E2L5.MAP", music_filename: "GOTH.MID", par_time_seconds: 170, is_secret: false, secret_destination: Some(10), is_boss_level: false },
        CampaignMapInfo { episode: 2, level: 6, title: "Tiberius Station", map_filename: "E2L6.MAP", music_filename: "2048.MID", par_time_seconds: 195, is_secret: false, secret_destination: None, is_boss_level: false },
        CampaignMapInfo { episode: 2, level: 7, title: "Lunar Reactor", map_filename: "E2L7.MAP", music_filename: "THECALL.MID", par_time_seconds: 215, is_secret: false, secret_destination: None, is_boss_level: false },
        CampaignMapInfo { episode: 2, level: 8, title: "Dark Side", map_filename: "E2L8.MAP", music_filename: "WHOM.MID", par_time_seconds: 240, is_secret: false, secret_destination: None, is_boss_level: false },
        CampaignMapInfo { episode: 2, level: 9, title: "Overlord", map_filename: "E2L9.MAP", music_filename: "LORDCOFO.MID", par_time_seconds: 270, is_secret: false, secret_destination: None, is_boss_level: true },
        CampaignMapInfo { episode: 2, level: 10, title: "Spin Cycle (Secret)", map_filename: "E2L10.MAP", music_filename: "INVADER.MID", par_time_seconds: 120, is_secret: true, secret_destination: None, is_boss_level: false },
        CampaignMapInfo { episode: 2, level: 11, title: "Lunatic Fringe (Secret)", map_filename: "E2L11.MAP", music_filename: "SPACE.MID", par_time_seconds: 135, is_secret: true, secret_destination: None, is_boss_level: false },
        CampaignMapInfo { episode: 3, level: 1, title: "Raw Meat", map_filename: "E3L1.MAP", music_filename: "STALKER.MID", par_time_seconds: 120, is_secret: false, secret_destination: None, is_boss_level: false },
        CampaignMapInfo { episode: 3, level: 2, title: "Bank Roll", map_filename: "E3L2.MAP", music_filename: "DETHTOLL.MID", par_time_seconds: 180, is_secret: false, secret_destination: None, is_boss_level: false },
        CampaignMapInfo { episode: 3, level: 3, title: "Flood Zone", map_filename: "E3L3.MAP", music_filename: "STREETS.MID", par_time_seconds: 220, is_secret: false, secret_destination: None, is_boss_level: false },
        CampaignMapInfo { episode: 3, level: 4, title: "L.A. Rumble", map_filename: "E3L4.MAP", music_filename: "WATRWRD1.MID", par_time_seconds: 190, is_secret: false, secret_destination: None, is_boss_level: false },
        CampaignMapInfo { episode: 3, level: 5, title: "Movie Set", map_filename: "E3L5.MAP", music_filename: "SNAKE1.MID", par_time_seconds: 160, is_secret: false, secret_destination: Some(10), is_boss_level: false },
        CampaignMapInfo { episode: 3, level: 6, title: "Rabid Transit", map_filename: "E3L6.MAP", music_filename: "LORDCOFO.MID", par_time_seconds: 195, is_secret: false, secret_destination: None, is_boss_level: false },
        CampaignMapInfo { episode: 3, level: 7, title: "Fahrenheit", map_filename: "E3L7.MAP", music_filename: "ALF.MID", par_time_seconds: 210, is_secret: false, secret_destination: None, is_boss_level: false },
        CampaignMapInfo { episode: 3, level: 8, title: "Hotel Hell", map_filename: "E3L8.MAP", music_filename: "SPACE.MID", par_time_seconds: 225, is_secret: false, secret_destination: None, is_boss_level: false },
        CampaignMapInfo { episode: 3, level: 9, title: "Stadium", map_filename: "E3L9.MAP", music_filename: "GUTWREN.MID", par_time_seconds: 150, is_secret: false, secret_destination: None, is_boss_level: true },
        CampaignMapInfo { episode: 3, level: 10, title: "Tier Drops (Secret)", map_filename: "E3L10.MAP", music_filename: "STREETS.MID", par_time_seconds: 165, is_secret: true, secret_destination: None, is_boss_level: false },
        CampaignMapInfo { episode: 3, level: 11, title: "Freeway (Secret)", map_filename: "E3L11.MAP", music_filename: "WATRWRD1.MID", par_time_seconds: 135, is_secret: true, secret_destination: None, is_boss_level: false },
        CampaignMapInfo { episode: 4, level: 1, title: "It's Impossible", map_filename: "E4L1.MAP", music_filename: "GOINGDN.MID", par_time_seconds: 165, is_secret: false, secret_destination: None, is_boss_level: false },
        CampaignMapInfo { episode: 4, level: 2, title: "Duke-Burger", map_filename: "E4L2.MAP", music_filename: "BRIEFING.MID", par_time_seconds: 210, is_secret: false, secret_destination: None, is_boss_level: false },
        CampaignMapInfo { episode: 4, level: 3, title: "Shop-N-Bag", map_filename: "E4L3.MAP", music_filename: "WAREHSE.MID", par_time_seconds: 195, is_secret: false, secret_destination: None, is_boss_level: false },
        CampaignMapInfo { episode: 4, level: 4, title: "Babe Land", map_filename: "E4L4.MAP", music_filename: "BABES.MID", par_time_seconds: 270, is_secret: false, secret_destination: Some(11), is_boss_level: false },
        CampaignMapInfo { episode: 4, level: 5, title: "Pigsty", map_filename: "E4L5.MAP", music_filename: "PIGSTY.MID", par_time_seconds: 200, is_secret: false, secret_destination: None, is_boss_level: false },
        CampaignMapInfo { episode: 4, level: 6, title: "Going Postal", map_filename: "E4L6.MAP", music_filename: "POSTAL.MID", par_time_seconds: 230, is_secret: false, secret_destination: None, is_boss_level: false },
        CampaignMapInfo { episode: 4, level: 7, title: "XXX-Stacy", map_filename: "E4L7.MAP", music_filename: "STACY.MID", par_time_seconds: 220, is_secret: false, secret_destination: None, is_boss_level: false },
        CampaignMapInfo { episode: 4, level: 8, title: "Critical Mass", map_filename: "E4L8.MAP", music_filename: "CRITICAL.MID", par_time_seconds: 240, is_secret: false, secret_destination: None, is_boss_level: false },
        CampaignMapInfo { episode: 4, level: 9, title: "Derelict", map_filename: "E4L9.MAP", music_filename: "DERELICT.MID", par_time_seconds: 255, is_secret: false, secret_destination: None, is_boss_level: false },
        CampaignMapInfo { episode: 4, level: 10, title: "The Queen", map_filename: "E4L10.MAP", music_filename: "QUEEN.MID", par_time_seconds: 285, is_secret: false, secret_destination: None, is_boss_level: true },
        CampaignMapInfo { episode: 4, level: 11, title: "Area 51 (Secret)", map_filename: "E4L11.MAP", music_filename: "GOINGDN.MID", par_time_seconds: 210, is_secret: true, secret_destination: None, is_boss_level: false },
    ]
}

/// The database of the 41 campaign maps.
pub fn all_campaign_maps() -> (v: Vec<CampaignMapInfo>)
    ensures
        v@ == campaign_table(),
{
    let v = vec![
        CampaignMapInfo { episode: 1, level: 1, title: "Hollywood Holocaust", map_filename: "E1L1.MAP", music_filename: "STALKER.MID", par_time_seconds: 90, is_secret: false, secret_destination: None, is_boss_level: false },
        CampaignMapInfo { episode: 1, level: 2, title: "Red Light District", map_filename: "E1L2.MAP", music_filename: "DETHTOLL.MID", par_time_seconds: 190, is_secret: false, secret_destination: None, is_boss_level: false },
        CampaignMapInfo { episode: 1, level: 3, title: "Death Row", map_filename: "E1L3.MAP", music_filename: "STREETS.MID", par_time_seconds: 225, is_secret: false, secret_destination: Some(8), is_boss_level: false },
        CampaignMapInfo { episode: 1, level: 4, title: "Toxic Dump", map_filename: "E1L4.MAP", music_filename: "WATRWRD1.MID", par_time_seconds: 255, is_secret: false, secret_destination: None, is_boss_level: false },
        CampaignMapInfo { episode: 1, level: 5, title: "The Abyss", map_filename: "E1L5.MAP", music_filename: "SNAKE1.MID", par_time_seconds: 310, is_secret: false, secret_destination: None, is_boss_level: false },
        CampaignMapInfo { episode: 1, level: 6, title: "Launch Facility", map_filename: "E1L6.MAP", music_filename: "LORDCOFO.MID", par_time_seconds: 240, is_secret: false, secret_destination: None, is_boss_level: true },
        CampaignMapInfo { episode: 1, level: 7, title: "Faces of Death", map_filename: "E1L7.MAP", music_filename: "STALKER.MID", par_time_seconds: 120, is_secret: false, secret_destination: None, is_boss_level: false },
        CampaignMapInfo { episode: 1, level: 8, title: "Launch Facility (Secret)", map_filename: "E1L8.MAP", music_filename: "LORDCOFO.MID", par_time_seconds: 210, is_secret: true, secret_destination: None, is_boss_level: false },
        CampaignMapInfo { episode: 2, level: 1, title: "Spaceport", map_filename: "E2L1.MAP", music_filename: "ALF.MID", par_time_seconds: 165, is_secret: false, secret_destination: None, is_boss_level: false },
        CampaignMapInfo { episode: 2, level: 2, title: "Incubator", map_filename: "E2L2.MAP", music_filename: "SPACE.MID", par_time_seconds: 220, is_secret: false, secret_destination: None, is_boss_level: false },
        CampaignMapInfo { episode: 2, level: 3, title: "Warp Factor", map_filename: "E2L3.MAP", music_filename: "GUTWREN.MID", par_time_seconds: 210, is_secret: false, secret_destination: None, is_boss_level: false },
        CampaignMapInfo { episode: 2, level: 4, title: "Fusion Station", map_filename: "E2L4.MAP", music_filename: "INVADER.MID", par_time_seconds: 180, is_secret: false, secret_destination: None, is_boss_level: false },
        CampaignMapInfo { episode: 2, level: 5, title: "Occupied Territory", map_filename: "E2L5.MAP", music_filename: "GOTH.MID", par_time_seconds: 170, is_secret: false, secret_destination: Some(10), is_boss_level: false },
        CampaignMapInfo { episode: 2, level: 6, title: "Tiberius Station", map_filename: "E2L6.MAP", music_filename: "2048.MID", par_time_seconds: 195, is_secret: false, secret_destination: None, is_boss_level: false },
        CampaignMapInfo { episode: 2, level: 7, title: "Lunar Reactor", map_filename: "E2L7.MAP", music_filename: "THECALL.MID", par_time_seconds: 215, is_secret: false, secret_destination: None, is_boss_level: false },
        CampaignMapInfo { episode: 2, level: 8, title: "Dark Side", map_filename: "E2L8.MAP", music_filename: "WHOM.MID", par_time_seconds: 240, is_secret: false, secret_destination: None, is_boss_level: false },
        CampaignMapInfo { episode: 2, level: 9, title: "Overlord", map_filename: "E2L9.MAP", music_filename: "LORDCOFO.MID", par_time_seconds: 270, is_secret: false, secret_destination: None, is_boss_level: true },
        CampaignMapInfo { episode: 2, level: 10, title: "Spin Cycle (Secret)", map_filename: "E2L10.MAP", music_filename: "INVADER.MID", par_time_seconds: 120, is_secret: true, secret_destination: None, is_boss_level: false },
        CampaignMapInfo { episode: 2, level: 11, title: "Lunatic Fringe (Secret)", map_filename: "E2L11.MAP", music_filename: "SPACE.MID", par_time_seconds: 135, is_secret: true, secret_destination: None, is_boss_level: false },
        CampaignMapInfo { episode: 3, level: 1, title: "Raw Meat", map_filename: "E3L1.MAP", music_filename: "STALKER.MID", par_time_seconds: 120, is_secret: false, secret_destination: None, is_boss_level: false },
        CampaignMapInfo { episode: 3, level: 2, title: "Bank Roll", map_filename: "E3L2.MAP", music_filename: "DETHTOLL.MID", par_time_seconds: 180, is_secret: false, secret_destination: None, is_boss_level: false },
        CampaignMapInfo { episode: 3, level: 3, title: "Flood Zone", map_filename: "E3L3.MAP", music_filename: "STREETS.MID", par_time_seconds: 220, is_secret: false, secret_destination: None, is_boss_level: false },
        CampaignMapInfo { episode: 3, level: 4, title: "L.A. Rumble", map_filename: "E3L4.MAP", music_filename: "WATRWRD1.MID", par_time_seconds: 190, is_secret: false, secret_destination: None, is_boss_level: false },
        CampaignMapInfo { episode: 3, level: 5, title: "Movie Set", map_filename: "E3L5.MAP", music_filename: "SNAKE1.MID", par_time_seconds: 160, is_secret: false, secret_destination: Some(10), is_boss_level: false },
        CampaignMapInfo { episode: 3, level: 6, title: "Rabid Transit", map_filename: "E3L6.MAP", music_filename: "LORDCOFO.MID", par_time_seconds: 195, is_secret: false, secret_destination: None, is_boss_level: false },
        CampaignMapInfo { episode: 3, level: 7, title: "Fahrenheit", map_filename: "E3L7.MAP", music_filename: "ALF.MID", par_time_seconds: 210, is_secret: false, secret_destination: None, is_boss_level: false },
        CampaignMapInfo { episode: 3, level: 8, title: "Hotel Hell", map_filename: "E3L8.MAP", music_filename: "SPACE.MID", par_time_seconds: 225, is_secret: false, secret_destination: None, is_boss_level: false },
        CampaignMapInfo { episode: 3, level: 9, title: "Stadium", map_filename: "E3L9.MAP", music_filename: "GUTWREN.MID", par_time_seconds: 150, is_secret: false, secret_destination: None, is_boss_level: true },
        CampaignMapInfo { episode: 3, level: 10, title: "Tier Drops (Secret)", map_filename: "E3L10.MAP", music_filename: "STREETS.MID", par_time_seconds: 165, is_secret: true, secret_destination: None, is_boss_level: false },
        CampaignMapInfo { episode: 3, level: 11, title: "Freeway (Secret)", map_filename: "E3L11.MAP", music_filename: "WATRWRD1.MID", par_time_seconds: 135, is_secret: true, secret_destination: None, is_boss_level: false },
        CampaignMapInfo { episode: 4, level: 1, title: "It's Impossible", map_filename: "E4L1.MAP", music_filename: "GOINGDN.MID", par_time_seconds: 165, is_secret: false, secret_destination: None, is_boss_level: false },
        CampaignMapInfo { episode: 4, level: 2, title: "Duke-Burger", map_filename: "E4L2.MAP", music_filename: "BRIEFING.MID", par_time_seconds: 210, is_secret: false, secret_destination: None, is_boss_level: false },
        CampaignMapInfo { episode: 4, level: 3, title: "Shop-N-Bag", map_filename: "E4L3.MAP", music_filename: "WAREHSE.MID", par_time_seconds: 195, is_secret: false, secret_destination: None, is_boss_level: false },
        CampaignMapInfo { episode: 4, level: 4, title: "Babe Land", map_filename: "E4L4.MAP", music_filename: "BABES.MID", par_time_seconds: 270, is_secret: false, secret_destination: Some(11), is_boss_level: false },
        CampaignMapInfo { episode: 4, level: 5, title: "Pigsty", map_filename: "E4L5.MAP", music_filename: "PIGSTY.MID", par_time_seconds: 200, is_secret: false, secret_destination: None, is_boss_level: false },
        CampaignMapInfo { episode: 4, level: 6, title: "Going Postal", map_filename: "E4L6.MAP", music_filename: "POSTAL.MID", par_time_seconds: 230, is_secret: false, secret_destination: None, is_boss_level: false },
        CampaignMapInfo { episode: 4, level: 7, title: "XXX-Stacy", map_filename: "E4L7.MAP", music_filename: "STACY.MID", par_time_seconds: 220, is_secret: false, secret_destination: None, is_boss_level: false },
        CampaignMapInfo { episode: 4, level: 8, title: "Critical Mass", map_filename: "E4L8.MAP", music_filename: "CRITICAL.MID", par_time_seconds: 240, is_secret: false, secret_destination: None, is_boss_level: false },
        CampaignMapInfo { episode: 4, level: 9, title: "Derelict", map_filename: "E4L9.MAP", music_filename: "DERELICT.MID", par_time_seconds: 255, is_secret: false, secret_destination: None, is_boss_level: false },
        CampaignMapInfo { episode: 4, level: 10, title: "The Queen", map_filename: "E4L10.MAP", music_filename: "QUEEN.MID", par_time_seconds: 285, is_secret: false, secret_destination: None, is_boss_level: true },
        CampaignMapInfo { episode: 4, level: 11, title: "Area 51 (Secret)", map_filename: "E4L11.MAP", music_filename: "GOINGDN.MID", par_time_seconds: 210, is_secret: true, secret_destination: None, is_boss_level: false },
    ];
    assert(v@ =~= campaign_table());
    v
}

/// The first entry of `t` for the given episode and level.
pub open spec fn lookup_map(t: Seq<CampaignMapInfo>, episode: usize, level: usize) -> Option<CampaignMapInfo>
    decreases t.len(),
{
    if t.len() == 0 {
        None
    } else if t[0].episode == episode && t[0].level == level {
        Some(t[0])
    } else {
        lookup_map(t.drop_first(), episode, level)
    }
}

pub open spec fn campaign_lookup(episode: usize, level: usize) -> Option<CampaignMapInfo> {
    lookup_map(campaign_table(), episode, level)
}

/// The entries of `t` of one episode, in order.
pub open spec fn maps_of_episode(t: Seq<CampaignMapInfo>, episode: usize) -> Seq<CampaignMapInfo>
    decreases t.len(),
{
    if t.len() == 0 {
        Seq::empty()
    } else if t.last().episode == episode {
        maps_of_episode(t.drop_last(), episode).push(t.last())
    } else {
        maps_of_episode(t.drop_last(), episode)
    }
}

/// An episode has no more maps than the list they are drawn from.
pub proof fn lemma_maps_of_episode_len(t: Seq<CampaignMapInfo>, episode: usize)
    ensures
        maps_of_episode(t, episode).len() <= t.len(),
    decreases t.len(),
{
    if t.len() > 0 {
        lemma_maps_of_episode_len(t.drop_last(), episode);
    }
}

/// Looks a map up in the database.
pub fn get_campaign_map(episode: usize, level: usize) -> (r: Option<CampaignMapInfo>)
    ensures
        r == campaign_lookup(episode, level),
{
    let maps = all_campaign_maps();
    let n = maps.len();
    let mut i: usize = 0;
    assert(maps@.subrange(0, n as int) =~= maps@);
    while i < n
        invariant
            n == maps@.len(),
            maps@ == campaign_table(),
            i <= n,
            lookup_map(maps@.subrange(i as int, n as int), episode, level) == campaign_lookup(episode, level),
        decreases n - i,
    {
        let m = maps[i];
        proof {
            assert(maps@.subrange(i as int, n as int).drop_first() =~= maps@.subrange(i + 1, n as int));
        }
        if m.episode == episode && m.level == level {
            return Some(m);
        }
        i += 1;
    }
    None
}

/// The maps of one episode, in level order.
pub fn get_episode_maps(episode: usize) -> (v: Vec<CampaignMapInfo>)
    ensures
        v@ == maps_of_episode(campaign_table(), episode),
{
    let maps = all_campaign_maps();
    let n = maps.len();
    let mut v: Vec<CampaignMapInfo> = Vec::new();
    let mut i: usize = 0;
    while i < n
        invariant
            n == maps@.len(),
            maps@ == campaign_table(),
            i <= n,
            v@ == maps_of_episode(maps@.subrange(0, i as int), episode),
        decreases n - i,
    {
        let m = maps[i];
        proof {
            assert(maps@.subrange(0, i + 1).drop_last() =~= maps@.subrange(0, i as int));
        }
        if m.episode == episode {
            v.push(m);
        }
        i += 1;
    }
    assert(maps@.subrange(0, n as int) =~= maps@);
    v
}

/// The last level of the main route of each episode (its finale).
pub open spec fn episode_level_count(episode: usize) -> usize {
    if episode == 1 { 6 } else if episode == 2 { 9 } else if episode == 3 { 9 } else if episode == 4 { 10 } else { 6 }
}

pub fn get_episode_level_count(episode: usize) -> (r: usize)
    ensures
        r == episode_level_count(episode),
{
    match episode {
        1 => 6,
        2 => 9,
        3 => 9,
        4 => 10,
        _ => 6,
    }
}

/// "E<episode>L<level>.MAP".
pub open spec fn map_file_name(episode: usize, level: usize) -> Seq<char> {
    seq!['E'] + decimal(episode as nat) + seq!['L'] + decimal(level as nat) + seq!['.', 'M', 'A', 'P']
}

pub fn format_map_file_name(episode: usize, level: usize) -> (s: String)
    ensures
        s@ == map_file_name(episode, level),
{
    let mut cs: Vec<char> = Vec::new();
    cs.push('E');
    push_decimal(&mut cs, episode as u64);
    cs.push('L');
    push_decimal(&mut cs, level as u64);
    cs.push('.');
    cs.push('M');
    cs.push('A');
    cs.push('P');
    assert(cs@ =~= map_file_name(episode, level));
    string_from_chars(cs.as_slice())
}

#[derive(Debug, Clone, Copy, PartialEq, Eq, Structural)]
pub struct CampaignProgression {
    pub current_episode: usize,
    pub current_level: usize,
    pub skill: SkillLevel,
    pub from_bonus_level: Option<usize>,
    pub kills_count: i32,
    pub total_monsters: i32,
    pub secrets_found: i32,
    pub total_secrets: i32,
    pub level_time_ms: u32,
    pub episode_completed: bool,
}

#[derive(Debug, Clone, Copy, PartialEq, Eq, Structural)]
pub enum LevelAdvanceResult {
    NextLevel { episode: usize, level: usize },
    SecretLevel { episode: usize, level: usize },
    ReturnFromSecret { episode: usize, level: usize },
    EpisodeCompleted { episode: usize },
}

/// The state with the per-level statistics and the level timer cleared.
pub open spec fn reset_stats(p: CampaignProgression) -> CampaignProgression {
    CampaignProgression { kills_count: 0, secrets_found: 0, level_time_ms: 0, episode_completed: false, ..p }
}

/// Finishing the current map: a boss map ends the episode; a secret exit
/// leads to the map's secret level (remembering the level after this one);
/// leaving a secret level returns there; otherwise the next level, or the
/// end of the episode after its last level.
pub open spec fn spec_advance(p: CampaignProgression, is_secret_exit: bool) -> (CampaignProgression, LevelAdvanceResult) {
    let cur = campaign_lookup(p.current_episode, p.current_level);
    let ep = p.current_episode;
    if cur matches Some(m) && m.is_boss_level {
        (CampaignProgression { episode_completed: true, ..p }, LevelAdvanceResult::EpisodeCompleted { episode: ep })
    } else if is_secret_exit && (cur matches Some(m) && m.secret_destination is Some) {
        let d = cur->0.secret_destination->0;
        (reset_stats(CampaignProgression { from_bonus_level: Some((p.current_level + 1) as usize), current_level: d, ..p }),
            LevelAdvanceResult::SecretLevel { episode: ep, level: d })
    } else if p.from_bonus_level is Some {
        let r = p.from_bonus_level->0;
        (reset_stats(CampaignProgression { current_level: r, from_bonus_level: None, ..p }),
            LevelAdvanceResult::ReturnFromSecret { episode: ep, level: r })
    } else if p.current_level >= episode_level_count(ep) {
        (CampaignProgression { episode_completed: true, ..p }, LevelAdvanceResult::EpisodeCompleted { episode: ep })
    } else {
        let l = (p.current_level + 1) as usize;
        (reset_stats(CampaignProgression { current_level: l, ..p }), LevelAdvanceResult::NextLevel { episode: ep, level: l })
    }
}

impl Default for CampaignProgression {
    /// The start of a new game: E1L1 at "Let's Rock".
    fn default() -> (p: Self)
        ensures
            p.current_episode == 1 && p.current_level == 1 && p.skill == SkillLevel::LetsRock,
            p.from_bonus_level is None,
            p.kills_count == 0 && p.total_monsters == 50 && p.secrets_found == 0 && p.total_secrets == 4,
            p.level_time_ms == 0,
            !p.episode_completed,
    {
        CampaignProgression::new()
    }
}

impl CampaignProgression {
    pub fn new() -> (p: Self)
        ensures
            p.current_episode == 1 && p.current_level == 1 && p.skill == SkillLevel::LetsRock,
            p.from_bonus_level is None,
            p.kills_count == 0 && p.total_monsters == 50 && p.secrets_found == 0 && p.total_secrets == 4,
            p.level_time_ms == 0,
            !p.episode_completed,
    {
        CampaignProgression {
            current_episode: 1,
            current_level: 1,
            skill: SkillLevel::LetsRock,
            from_bonus_level: None,
            kills_count: 0,
            total_monsters: 50,
            secrets_found: 0,
            total_secrets: 4,
            level_time_ms: 0,
            episode_completed: false,
        }
    }

    pub fn current_map_info(&self) -> (r: Option<CampaignMapInfo>)
        ensures
            r == campaign_lookup(self.current_episode, self.current_level),
    {
        get_campaign_map(self.current_episode, self.current_level)
    }

    pub fn current_map_filename(&self) -> (s: String)
        ensures
            s@ == map_file_name(self.current_episode, self.current_level),
    {
        format_map_file_name(self.current_episode, self.current_level)
    }

    pub fn advance_level(&mut self, is_secret_exit: bool) -> (r: LevelAdvanceResult)
        ensures
            (*final(self), r) == spec_advance(*old(self), is_secret_exit),
    {
        let current_map = self.current_map_info();
        let is_boss = match current_map {
            Some(m) => m.is_boss_level,
            None => false,
        };
        if is_boss {
            self.episode_completed = true;
            return LevelAdvanceResult::EpisodeCompleted { episode: self.current_episode };
        }
        if is_secret_exit {
            if let Some(m) = current_map {
                if let Some(secret_dest) = m.secret_destination {
                    proof {
                        lemma_lookup_found(self.current_episode, self.current_level);
                    }
                    self.from_bonus_level = Some(self.current_level + 1);
                    self.current_level = secret_dest;
                    self.reset_level_stats();
                    return LevelAdvanceResult::SecretLevel { episode: self.current_episode, level: secret_dest };
                }
            }
        }
        if let Some(return_level) = self.from_bonus_level {
            self.from_bonus_level = None;
            self.current_level = return_level;
            self.reset_level_stats();
            return LevelAdvanceResult::ReturnFromSecret { episode: self.current_episode, level: return_level };
        }
        let max_level = get_episode_level_count(self.current_episode);
        if self.current_level >= max_level {
            self.episode_completed = true;
            LevelAdvanceResult::EpisodeCompleted { episode: self.current_episode }
        } else {
            self.current_level += 1;
            self.reset_level_stats();
            LevelAdvanceResult::NextLevel { episode: self.current_episode, level: self.current_level }
        }
    }

    pub fn reset_level_stats(&mut self)
        ensures
            *final(self) == reset_stats(*old(self)),
    {
        self.kills_count = 0;
        self.secrets_found = 0;
        self.level_time_ms = 0;
        self.episode_completed = false;
    }
}

/// Every database entry lies in episodes 1..=4, levels 1..=11.
pub proof fn lemma_table_ranges()
    ensures
        forall|i: int| 0 <= i < campaign_table().len() ==> {
            let m = #[trigger] campaign_table()[i];
            1 <= m.episode <= 4 && 1 <= m.level <= 11 && m.par_time_seconds > 0
        },
{
}

proof fn lemma_lookup_in_table(t: Seq<CampaignMapInfo>, episode: usize, level: usize)
    ensures
        lookup_map(t, episode, level) matches Some(m) ==>
            m.episode == episode && m.level == level && t.contains(m),
    decreases t.len(),
{
    if t.len() > 0 && !(t[0].episode == episode && t[0].level == level) {
        lemma_lookup_in_table(t.drop_first(), episode, level);
        if lookup_map(t, episode, level) is Some {
            let m = lookup_map(t, episode, level)->0;
            let k = choose|k: int| 0 <= k < t.drop_first().len() && t.drop_first()[k] == m;
            assert(t[k + 1] == m);
        }
    } else if t.len() > 0 {
        assert(t[0] == t[0]);
    }
}

/// The database's boss maps are the finales: each is the last level of its
/// episode's main route.
proof fn lemma_boss_maps_are_finales()
    ensures
        forall|i: int| 0 <= i < campaign_table().len() && (#[trigger] campaign_table()[i]).is_boss_level ==>
            campaign_table()[i].level == episode_level_count(campaign_table()[i].episode),
{
}

/// Finishing a level of an episode's main route (not its boss map, no
/// secret exit taken, no secret level to return from) leads to the next
/// level exactly while the episode's boss map lies ahead, and ends the
/// episode otherwise; `boss_level` is the level of the episode's boss map
/// in the database.
pub proof fn lemma_main_route_advance(p: CampaignProgression, boss_level: usize)
    requires
        campaign_lookup(p.current_episode, boss_level) matches Some(b) && b.is_boss_level,
        campaign_lookup(p.current_episode, p.current_level) matches Some(m) ==> !m.is_boss_level,
        p.from_bonus_level is None,
        p.current_level < usize::MAX,
    ensures
        spec_advance(p, false).1 == (if p.current_level < boss_level {
            LevelAdvanceResult::NextLevel { episode: p.current_episode, level: (p.current_level + 1) as usize }
        } else {
            LevelAdvanceResult::EpisodeCompleted { episode: p.current_episode }
        }),
        p.current_level < boss_level ==> spec_advance(p, false).0.current_level == p.current_level + 1,
{
    lemma_lookup_in_table(campaign_table(), p.current_episode, boss_level);
    lemma_boss_maps_are_finales();
    let b = campaign_lookup(p.current_episode, boss_level)->0;
    let k = choose|k: int| 0 <= k < campaign_table().len() && campaign_table()[k] == b;
    assert(campaign_table()[k].is_boss_level);
}

/// Finishing a boss map ends its episode, whatever exit was taken, and
/// stays on that map.
pub proof fn lemma_boss_ends_episode(p: CampaignProgression, is_secret_exit: bool)
    requires
        campaign_lookup(p.current_episode, p.current_level) matches Some(m) && m.is_boss_level,
    ensures
        spec_advance(p, is_secret_exit).1 == (LevelAdvanceResult::EpisodeCompleted { episode: p.current_episode }),
        spec_advance(p, is_secret_exit).0.current_level == p.current_level,
        spec_advance(p, is_secret_exit).0.episode_completed,
{
}

/// A looked-up map is the entry for that episode and level.
pub proof fn lemma_lookup_found(episode: usize, level: usize)
    ensures
        campaign_lookup(episode, level) matches Some(m) ==> m.episode == episode && m.level == level
            && 1 <= episode <= 4 && 1 <= level <= 11,
{
    lemma_lookup_in_table(campaign_table(), episode, level);
    lemma_table_ranges();
}

/// Taking a map's secret exit and then finishing the secret level brings the
/// player back to the level after the one the secret exit was taken from.
pub proof fn lemma_secret_exit_round_trip(p: CampaignProgression, d: usize)
    requires
        campaign_lookup(p.current_episode, p.current_level) matches Some(m)
            && !m.is_boss_level && m.secret_destination == Some(d),
        campaign_lookup(p.current_episode, d) matches Some(s) ==> !s.is_boss_level,
    ensures
        ({
            let (p1, r1) = spec_advance(p, true);
            let (p2, r2) = spec_advance(p1, false);
            &&& r1 == LevelAdvanceResult::SecretLevel { episode: p.current_episode, level: d }
            &&& p1.current_level == d
            &&& r2 == LevelAdvanceResult::ReturnFromSecret { episode: p.current_episode, level: (p.current_level + 1) as usize }
            &&& p2.current_level == p.current_level + 1
            &&& p2.current_episode == p.current_episode
            &&& p2.from_bonus_level is None
            &&& !p2.episode_completed
        }),
{
    lemma_lookup_found(p.current_episode, p.current_level);
}

/// Finishing a map never changes the episode, and finishing a boss map
/// always completes it.
pub proof fn lemma_advance_keeps_episode(p: CampaignProgression, is_secret_exit: bool)
    ensures
        spec_advance(p, is_secret_exit).0.current_episode == p.current_episode,
        (campaign_lookup(p.current_episode, p.current_level) matches Some(m) && m.is_boss_level) ==> {
            &&& spec_advance(p, is_secret_exit).0.episode_completed
            &&& spec_advance(p, is_secret_exit).1 == LevelAdvanceResult::EpisodeCompleted { episode: p.current_episode }
        },
{
}

} // verus!
