//! Level music: which MIDI file plays on which map.
use vstd::prelude::*;
use crate::campaign::{CampaignMapInfo, campaign_table, all_campaign_maps, lookup_map, campaign_lookup};
use crate::text::ends_with;

verus! {

#[derive(Debug, Clone, Copy, PartialEq, Eq, Structural, Hash)]
pub enum LevelMidiTrack {
    TitleGrabbag,
    E1L1Stalker,
    E1L2Dethtoll,
    E1L3Streets,
    E1L4Watrwrld,
    E1L5Snake1,
    E1L6TheCall,
    E1L7Ahgeez,
}

#[derive(Debug, Clone, Copy, PartialEq, Eq, Structural, Default)]
pub enum MusicState {
    #[default]
    AmbientExploration,
    CombatTension,
    SecretFoundJingle,
    BossFight,
}

impl LevelMidiTrack {
    pub open spec fn spec_filename(self) -> &'static str {
        match self {
            LevelMidiTrack::TitleGrabbag => "GRABBAG.MID",
            LevelMidiTrack::E1L1Stalker => "STALKER.MID",
            LevelMidiTrack::E1L2Dethtoll => "DETHTOLL.MID",
            LevelMidiTrack::E1L3Streets => "STREETS.MID",
            LevelMidiTrack::E1L4Watrwrld => "WATRWLD1.MID",
            LevelMidiTrack::E1L5Snake1 => "SNAKE1.MID",
            LevelMidiTrack::E1L6TheCall => "THECALL.MID",
            LevelMidiTrack::E1L7Ahgeez => "AHGEEZ.MID",
        }
    }

    pub open spec fn spec_for_level(episode: usize, level: usize) -> LevelMidiTrack {
        if episode == 1 && level == 1 {
            LevelMidiTrack::E1L1Stalker
        } else if episode == 1 && level == 2 {
            LevelMidiTrack::E1L2Dethtoll
        } else if episode == 1 && level == 3 {
            LevelMidiTrack::E1L3Streets
        } else if episode == 1 && level == 4 {
            LevelMidiTrack::E1L4Watrwrld
        } else if episode == 1 && level == 5 {
            LevelMidiTrack::E1L5Snake1
        } else if episode == 1 && level == 6 {
            LevelMidiTrack::E1L6TheCall
        } else if episode == 1 && level == 7 {
            LevelMidiTrack::E1L7Ahgeez
        } else {
            LevelMidiTrack::TitleGrabbag
        }
    }

    pub fn filename(&self) -> (r: &'static str)
        ensures
            r == self.spec_filename(),
    {
        match self {
            LevelMidiTrack::TitleGrabbag => "GRABBAG.MID",
            LevelMidiTrack::E1L1Stalker => "STALKER.MID",
            LevelMidiTrack::E1L2Dethtoll => "DETHTOLL.MID",
            LevelMidiTrack::E1L3Streets => "STREETS.MID",
            LevelMidiTrack::E1L4Watrwrld => "WATRWLD1.MID",
            LevelMidiTrack::E1L5Snake1 => "SNAKE1.MID",
            LevelMidiTrack::E1L6TheCall => "THECALL.MID",
            LevelMidiTrack::E1L7Ahgeez => "AHGEEZ.MID",
        }
    }

    /// The track of an Episode 1 level; the title theme elsewhere.
    pub fn for_level(episode: usize, level: usize) -> (r: Self)
        ensures
            r == Self::spec_for_level(episode, level),
    {
        match (episode, level) {
            (1, 1) => LevelMidiTrack::E1L1Stalker,
            (1, 2) => LevelMidiTrack::E1L2Dethtoll,
            (1, 3) => LevelMidiTrack::E1L3Streets,
            (1, 4) => LevelMidiTrack::E1L4Watrwrld,
            (1, 5) => LevelMidiTrack::E1L5Snake1,
            (1, 6) => LevelMidiTrack::E1L6TheCall,
            (1, 7) => LevelMidiTrack::E1L7Ahgeez,
            _ => LevelMidiTrack::TitleGrabbag,
        }
    }

    /// The music file the campaign database gives a map, or the title theme
    /// for maps it does not hold.
    pub fn filename_for_campaign_map(episode: usize, level: usize) -> (r: &'static str)
        ensures
            r == music_for(campaign_table(), episode, level),
    {
        let maps = all_campaign_maps();
        let n = maps.len();
        let mut i: usize = 0;
        assert(maps@.subrange(0, n as int) =~= maps@);
        while i < n
            invariant
                n == maps@.len(),
                maps@ == campaign_table(),
                i <= n,
                music_for(maps@.subrange(i as int, n as int), episode, level) == music_for(campaign_table(), episode, level),
            decreases n - i,
        {
            let m = maps[i];
            proof {
                assert(maps@.subrange(i as int, n as int).drop_first() =~= maps@.subrange(i + 1, n as int));
            }
            if m.episode == episode && m.level == level {
                return m.music_filename;
            }
            i += 1;
        }
        "GRABBAG.MID"
    }
}

/// The music of the first entry of `t` for the map, or the title theme.
pub open spec fn music_for(t: Seq<CampaignMapInfo>, episode: usize, level: usize) -> &'static str
    decreases t.len(),
{
    if t.len() == 0 {
        "GRABBAG.MID"
    } else if t[0].episode == episode && t[0].level == level {
        t[0].music_filename
    } else {
        music_for(t.drop_first(), episode, level)
    }
}

/// A literal file name ending in `.MID` ends with `.MID`.
proof fn lemma_ends_with_mid(name: &'static str)
    requires
        name@.len() >= 4,
        name@.subrange(name@.len() - 4, name@.len() as int) =~= seq!['.', 'M', 'I', 'D'],
    ensures
        ends_with(name@, ".MID"@),
{
    reveal_strlit(".MID");
    assert(".MID"@ =~= seq!['.', 'M', 'I', 'D']);
}

/// Every music file of the campaign database is a `.MID` file.
proof fn lemma_table_music_is_midi()
    ensures
        forall|i: int| 0 <= i < campaign_table().len() ==>
            ends_with((#[trigger] campaign_table()[i]).music_filename@, ".MID"@),
{
    reveal_strlit("2048.MID");
    lemma_ends_with_mid("2048.MID");
    reveal_strlit("ALF.MID");
    lemma_ends_with_mid("ALF.MID");
    reveal_strlit("BABES.MID");
    lemma_ends_with_mid("BABES.MID");
    reveal_strlit("BRIEFING.MID");
    lemma_ends_with_mid("BRIEFING.MID");
    reveal_strlit("CRITICAL.MID");
    lemma_ends_with_mid("CRITICAL.MID");
    reveal_strlit("DERELICT.MID");
    lemma_ends_with_mid("DERELICT.MID");
    reveal_strlit("DETHTOLL.MID");
    lemma_ends_with_mid("DETHTOLL.MID");
    reveal_strlit("GOINGDN.MID");
    lemma_ends_with_mid("GOINGDN.MID");
    reveal_strlit("GOTH.MID");
    lemma_ends_with_mid("GOTH.MID");
    reveal_strlit("GUTWREN.MID");
    lemma_ends_with_mid("GUTWREN.MID");
    reveal_strlit("INVADER.MID");
    lemma_ends_with_mid("INVADER.MID");
    reveal_strlit("LORDCOFO.MID");
    lemma_ends_with_mid("LORDCOFO.MID");
    reveal_strlit("PIGSTY.MID");
    lemma_ends_with_mid("PIGSTY.MID");
    reveal_strlit("POSTAL.MID");
    lemma_ends_with_mid("POSTAL.MID");
    reveal_strlit("QUEEN.MID");
    lemma_ends_with_mid("QUEEN.MID");
    reveal_strlit("SNAKE1.MID");
    lemma_ends_with_mid("SNAKE1.MID");
    reveal_strlit("SPACE.MID");
    lemma_ends_with_mid("SPACE.MID");
    reveal_strlit("STACY.MID");
    lemma_ends_with_mid("STACY.MID");
    reveal_strlit("STALKER.MID");
    lemma_ends_with_mid("STALKER.MID");
    reveal_strlit("STREETS.MID");
    lemma_ends_with_mid("STREETS.MID");
    reveal_strlit("THECALL.MID");
    lemma_ends_with_mid("THECALL.MID");
    reveal_strlit("WAREHSE.MID");
    lemma_ends_with_mid("WAREHSE.MID");
    reveal_strlit("WATRWRD1.MID");
    lemma_ends_with_mid("WATRWRD1.MID");
    reveal_strlit("WHOM.MID");
    lemma_ends_with_mid("WHOM.MID");
}

/// The music found in `t` is the entry's music file when `t` holds the map,
/// and the title theme otherwise.
proof fn lemma_music_is_lookup(t: Seq<CampaignMapInfo>, episode: usize, level: usize)
    ensures
        music_for(t, episode, level) == (match lookup_map(t, episode, level) {
            Some(m) => m.music_filename,
            None => "GRABBAG.MID",
        }),
        music_for(t, episode, level) == "GRABBAG.MID"
            || exists|i: int| 0 <= i < t.len() && #[trigger] t[i].music_filename == music_for(t, episode, level),
    decreases t.len(),
{
    if t.len() > 0 && !(t[0].episode == episode && t[0].level == level) {
        lemma_music_is_lookup(t.drop_first(), episode, level);
        if music_for(t, episode, level) != "GRABBAG.MID" {
            let k = choose|k: int| 0 <= k < t.drop_first().len()
                && #[trigger] t.drop_first()[k].music_filename == music_for(t, episode, level);
            assert(t[k + 1].music_filename == music_for(t, episode, level));
        }
    } else if t.len() > 0 {
        assert(t[0].music_filename == music_for(t, episode, level));
    }
}

/// The level music of a map is the music file the campaign database gives
/// it, or the title theme for a map it does not hold; either way a `.MID`
/// file.
pub proof fn lemma_campaign_music(episode: usize, level: usize)
    ensures
        music_for(campaign_table(), episode, level) == (match campaign_lookup(episode, level) {
            Some(m) => m.music_filename,
            None => "GRABBAG.MID",
        }),
        ends_with(music_for(campaign_table(), episode, level)@, ".MID"@),
{
    lemma_music_is_lookup(campaign_table(), episode, level);
    lemma_table_music_is_midi();
    reveal_strlit("GRABBAG.MID");
    lemma_ends_with_mid("GRABBAG.MID");
}

/// The software MIDI synthesiser's output rate.
#[derive(Debug)]
pub struct MidiSynth {
    pub sample_rate: u32,
}

impl MidiSynth {
    pub fn new(sample_rate: u32) -> (s: Self)
        ensures
            s.sample_rate == sample_rate,
    {
        MidiSynth { sample_rate }
    }

    /// The default output rate, 22050 Hz.
    pub fn default_rate() -> (s: Self)
        ensures
            s.sample_rate == 22050,
    {
        MidiSynth { sample_rate: 22050 }
    }
}

} // verus!
