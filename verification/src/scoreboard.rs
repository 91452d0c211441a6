//! The Dukematch frag table: who fragged whom, totals, deaths and leader.
use vstd::prelude::*;
use crate::net::NetMode;

verus! {

#[derive(Debug)]
pub struct DukematchState {
    pub mode: NetMode,
    pub local_player_id: u8,
    pub player_names: [String; 8],
    pub player_colors: [u8; 8],
    /// `frags[k][v]`: frags of player `k` on player `v`; the diagonal counts
    /// suicides negatively.
    pub frags: [[i32; 8]; 8],
    pub ping_ms: [u32; 8],
    pub kill_limit: i32,
    /// Match length in whole seconds.
    pub time_limit_sec: u32,
    pub show_scoreboard: bool,
}

/// Sum of the first `k` entries of row `p`.
pub open spec fn row_prefix(f: [[i32; 8]; 8], p: int, k: int) -> int
    decreases k,
{
    if k <= 0 { 0 } else { row_prefix(f, p, k - 1) + f@[p]@[k - 1] }
}

/// Sum of the magnitudes of the first `k` entries of column `p`.
pub open spec fn col_abs_prefix(f: [[i32; 8]; 8], p: int, k: int) -> int
    decreases k,
{
    if k <= 0 { 0 } else { col_abs_prefix(f, p, k - 1) + (if f@[k - 1]@[p] < 0 { -f@[k - 1]@[p] } else { f@[k - 1]@[p] as int }) }
}

pub open spec fn fits_i32(v: int) -> bool {
    i32::MIN <= v <= i32::MAX
}

/// Summing row `p` left to right never leaves `i32`.
pub open spec fn row_sum_fits(f: [[i32; 8]; 8], p: int) -> bool {
    forall|k: int| 0 <= k <= 8 ==> fits_i32(#[trigger] row_prefix(f, p, k))
}

/// Summing the magnitudes of column `p` never leaves `i32` (and no entry is
/// `i32::MIN`, whose magnitude has no `i32`).
pub open spec fn col_abs_fits(f: [[i32; 8]; 8], p: int) -> bool {
    &&& forall|k: int| 0 <= k <= 8 ==> fits_i32(#[trigger] col_abs_prefix(f, p, k))
    &&& forall|k: int| 0 <= k < 8 ==> #[trigger] f@[k]@[p] > i32::MIN
}

pub open spec fn total_frags(f: [[i32; 8]; 8], p: int) -> int {
    row_prefix(f, p, 8)
}

/// The first player with the most frags.
pub open spec fn is_leader(f: [[i32; 8]; 8], l: int) -> bool {
    &&& 0 <= l < 8
    &&& forall|i: int| 0 <= i < 8 ==> total_frags(f, i) <= total_frags(f, l)
    &&& forall|i: int| 0 <= i < l ==> total_frags(f, i) < total_frags(f, l)
}

proof fn lemma_row_prefix_update(f: [[i32; 8]; 8], g: [[i32; 8]; 8], p: int, q: int, v: int, k: int)
    requires
        0 <= p < 8,
        0 <= v < 8,
        g@[q]@ == f@[q]@.update(v, g@[q]@[v]),
        forall|r: int| 0 <= r < 8 && r != q ==> g@[r] == f@[r],
        0 <= k <= 8,
    ensures
        p != q ==> row_prefix(g, p, k) == row_prefix(f, p, k),
        p == q ==> row_prefix(g, p, k) == row_prefix(f, p, k) + (if k > v { g@[q]@[v] - f@[q]@[v] } else { 0 }),
    decreases k,
{
    if k > 0 {
        lemma_row_prefix_update(f, g, p, q, v, k - 1);
    }
}

impl Default for DukematchState {
    fn default() -> (s: Self)
        ensures
            s.mode == NetMode::SinglePlayer,
            s.local_player_id == 0,
            s.player_colors@ == seq![0u8, 9, 10, 11, 12, 13, 14, 15],
            forall|k: int, v: int| 0 <= k < 8 && 0 <= v < 8 ==> #[trigger] s.frags@[k]@[v] == 0,
            forall|k: int| 0 <= k < 8 ==> #[trigger] s.ping_ms@[k] == 0,
            s.kill_limit == 25,
            s.time_limit_sec == 900,
            !s.show_scoreboard,
    {
        DukematchState::new()
    }
}

impl DukematchState {
    /// A single-player table: default names and colours, no frags, a kill
    /// limit of 25 and a 15-minute match.
    pub fn new() -> (s: Self)
        ensures
            s.mode == NetMode::SinglePlayer,
            s.local_player_id == 0,
            s.player_colors@ == seq![0u8, 9, 10, 11, 12, 13, 14, 15],
            forall|k: int, v: int| 0 <= k < 8 && 0 <= v < 8 ==> #[trigger] s.frags@[k]@[v] == 0,
            forall|k: int| 0 <= k < 8 ==> #[trigger] s.ping_ms@[k] == 0,
            s.kill_limit == 25,
            s.time_limit_sec == 900,
            !s.show_scoreboard,
    {
        let names: [String; 8] = [
            "DUKE".to_owned(), "PLAYER 2".to_owned(), "PLAYER 3".to_owned(), "PLAYER 4".to_owned(),
            "PLAYER 5".to_owned(), "PLAYER 6".to_owned(), "PLAYER 7".to_owned(), "PLAYER 8".to_owned(),
        ];
        let colors: [u8; 8] = [0, 9, 10, 11, 12, 13, 14, 15];
        let frags = [[0i32; 8]; 8];
        let ping = [0u32; 8];
        assert(colors@ =~= seq![0u8, 9, 10, 11, 12, 13, 14, 15]);
        DukematchState {
            mode: NetMode::SinglePlayer,
            local_player_id: 0,
            player_names: names,
            player_colors: colors,
            frags,
            ping_ms: ping,
            kill_limit: 25,
            time_limit_sec: 900,
            show_scoreboard: false,
        }
    }

    /// Adds a frag of `killer_id` on `victim_id` (a suicide subtracts one);
    /// ids outside 0..8 are ignored.
    pub fn record_frag(&mut self, killer_id: usize, victim_id: usize)
        requires
            killer_id < 8 && victim_id < 8 && killer_id == victim_id ==> old(self).frags@[killer_id as int]@[victim_id as int] > i32::MIN,
            killer_id < 8 && victim_id < 8 && killer_id != victim_id ==> old(self).frags@[killer_id as int]@[victim_id as int] < i32::MAX,
        ensures
            !(killer_id < 8 && victim_id < 8) ==> final(self).frags == old(self).frags,
            killer_id < 8 && victim_id < 8 ==> {
                &&& final(self).frags@[killer_id as int]@ == old(self).frags@[killer_id as int]@.update(victim_id as int,
                    (old(self).frags@[killer_id as int]@[victim_id as int] + (if killer_id == victim_id { -1int } else { 1int })) as i32)
                &&& forall|r: int| 0 <= r < 8 && r != killer_id ==> #[trigger] final(self).frags@[r] == old(self).frags@[r]
                &&& total_frags(final(self).frags, killer_id as int) == total_frags(old(self).frags, killer_id as int)
                    + (if killer_id == victim_id { -1int } else { 1int })
                &&& forall|p: int| 0 <= p < 8 && p != killer_id ==> total_frags(final(self).frags, p) == #[trigger] total_frags(old(self).frags, p)
            },
    {
        if killer_id < 8 && victim_id < 8 {
            let mut row = self.frags[killer_id];
            if killer_id == victim_id {
                row[victim_id] = row[victim_id] - 1;
            } else {
                row[victim_id] = row[victim_id] + 1;
            }
            self.frags[killer_id] = row;
            proof {
                assert forall|p: int| 0 <= p < 8 implies
                    (p != killer_id ==> row_prefix(self.frags, p, 8) == row_prefix(old(self).frags, p, 8))
                    && (p == killer_id ==> row_prefix(self.frags, p, 8) == row_prefix(old(self).frags, p, 8)
                        + (self.frags@[killer_id as int]@[victim_id as int] - old(self).frags@[killer_id as int]@[victim_id as int])) by {
                    lemma_row_prefix_update(old(self).frags, self.frags, p, killer_id as int, victim_id as int, 8);
                }
            }
        }
    }

    /// Sum of a player's row (frags minus suicides); 0 for ids outside 0..8.
    pub fn get_total_frags(&self, player_id: usize) -> (r: i32)
        requires
            player_id < 8 ==> row_sum_fits(self.frags, player_id as int),
        ensures
            player_id >= 8 ==> r == 0,
            player_id < 8 ==> r == total_frags(self.frags, player_id as int),
    {
        if player_id >= 8 {
            return 0;
        }
        let row = self.frags[player_id];
        let mut sum: i32 = 0;
        let mut k: usize = 0;
        while k < 8
            invariant
                k <= 8,
                player_id < 8,
                row == self.frags@[player_id as int],
                row_sum_fits(self.frags, player_id as int),
                sum == row_prefix(self.frags, player_id as int, k as int),
            decreases 8 - k,
        {
            proof {
                assert(fits_i32(row_prefix(self.frags, player_id as int, k + 1)));
            }
            sum = sum + row[k];
            k += 1;
        }
        sum
    }

    /// How often a player was fragged: the magnitudes of their column.
    pub fn get_deaths(&self, player_id: usize) -> (r: i32)
        requires
            player_id < 8 ==> col_abs_fits(self.frags, player_id as int),
        ensures
            player_id >= 8 ==> r == 0,
            player_id < 8 ==> r == col_abs_prefix(self.frags, player_id as int, 8),
    {
        if player_id >= 8 {
            return 0;
        }
        let mut deaths: i32 = 0;
        let mut k: usize = 0;
        while k < 8
            invariant
                k <= 8,
                player_id < 8,
                col_abs_fits(self.frags, player_id as int),
                deaths == col_abs_prefix(self.frags, player_id as int, k as int),
            decreases 8 - k,
        {
            proof {
                assert(fits_i32(col_abs_prefix(self.frags, player_id as int, k + 1)));
                assert(self.frags@[k as int]@[player_id as int] > i32::MIN);
            }
            let v = self.frags[k][player_id];
            let a: i32 = if v < 0 { -v } else { v };
            deaths = deaths + a;
            k += 1;
        }
        deaths
    }

    /// The first player with the highest total.
    pub fn get_leader(&self) -> (r: usize)
        requires
            forall|p: int| 0 <= p < 8 ==> row_sum_fits(self.frags, p),
        ensures
            is_leader(self.frags, r as int),
    {
        let mut leader: usize = 0;
        let mut max_frags: i32 = i32::MIN;
        let mut i: usize = 0;
        while i < 8
            invariant
                i <= 8,
                leader < 8,
                forall|p: int| 0 <= p < 8 ==> row_sum_fits(self.frags, p),
                i > 0 ==> max_frags == total_frags(self.frags, leader as int),
                i > 0 ==> leader < i,
                i == 0 ==> leader == 0 && max_frags == i32::MIN,
                forall|j: int| 0 <= j < i ==> total_frags(self.frags, j) <= max_frags,
                forall|j: int| 0 <= j < leader ==> total_frags(self.frags, j) < max_frags,
            decreases 8 - i,
        {
            let frags = self.get_total_frags(i);
            proof {
                assert(fits_i32(row_prefix(self.frags, i as int, 8)));
            }
            if frags > max_frags || i == 0 && frags == max_frags {
                max_frags = frags;
                leader = i;
            }
            i += 1;
        }
        leader
    }
}

/// F7 shows or hides the frag scoreboard.
pub fn toggle_scoreboard(state: &mut DukematchState)
    ensures
        final(state).show_scoreboard == !old(state).show_scoreboard,
        final(state).mode == old(state).mode,
        final(state).local_player_id == old(state).local_player_id,
        final(state).player_names@ == old(state).player_names@,
        final(state).player_colors == old(state).player_colors,
        final(state).frags == old(state).frags,
        final(state).ping_ms == old(state).ping_ms,
        final(state).kill_limit == old(state).kill_limit,
        final(state).time_limit_sec == old(state).time_limit_sec,
{
    state.show_scoreboard = !state.show_scoreboard;
}

} // verus!
