//! The aggregate damage store.
//!
//! One instance holds everything the presentation layer reads: the roster,
//! cumulative and per-turn damage, the action-value-indexed history, and the
//! derived damage-per-action-value metric. All damage and action-value
//! figures are in milli-units (`crate::decimal`). Per-character series are
//! vectors index-aligned with `column_names`; an absent character is a zero
//! entry, so the all-zero bucket plays the part of an empty mapping.
//!
//! Every mutation is specified against `StoreModel`, the mathematical view
//! of the store, by a transition function; the laws at the end of the module
//! are proved about those transitions.

use vstd::prelude::*;

verus! {

/// Mathematical view of the aggregate store.
#[verifier::ext_equal]
pub struct StoreModel {
    /// One entry per damage event since the lineup was set: a full-width row,
    /// zero everywhere but (for a roster attacker) the attacker's column.
    pub rows: Seq<Seq<u64>>,
    /// The fixed roster, in display order.
    pub column_names: Seq<Seq<char>>,
    /// Cumulative damage per roster position; additions saturate at
    /// `u64::MAX`.
    pub total_damage: Seq<u64>,
    /// Damage per action-value window, index-aligned with `av_history`.
    pub av_damage: Seq<Seq<u64>>,
    /// One closed turn per entry; turn number = index + 1.
    pub turn_damage: Seq<Seq<u64>>,
    /// Damage accumulated in the still-open turn.
    pub current_turn: Seq<u64>,
    /// Most recent action-value cursor.
    pub current_av: u64,
    /// Action value at each recorded window, deduplicated: a turn closed at
    /// the same action value as the last window merges into it.
    pub av_history: Seq<u64>,
    /// Latest damage-per-action-value figure, milli-units.
    pub total_dpav: u64,
    /// One damage-per-action-value figure per recomputation.
    pub dpav_history: Seq<u64>,
    /// Whether the current turn bucket has been touched (by a non-empty
    /// lineup reset or a damage accrual) since the last turn close or
    /// battle-end flush. A battle end flushes the bucket only while this
    /// holds, and clears it.
    pub turn_open: bool,
}

/// Internal consistency of the store: per-character series are exactly as
/// wide as the roster, and the action-value series are index-aligned.
pub open spec fn wf(m: StoreModel) -> bool {
    &&& m.total_damage.len() == m.column_names.len()
    &&& m.current_turn.len() == m.column_names.len()
    &&& m.av_damage.len() == m.av_history.len()
    &&& forall|i: int|
        0 <= i < m.av_damage.len() ==> (#[trigger] m.av_damage[i]).len() == m.column_names.len()
    &&& forall|i: int|
        0 <= i < m.turn_damage.len() ==> (#[trigger] m.turn_damage[i]).len()
            == m.column_names.len()
    &&& forall|i: int|
        0 <= i < m.rows.len() ==> (#[trigger] m.rows[i]).len() == m.column_names.len()
}

/// A row of `n` zeros.
pub open spec fn zero_row(n: nat) -> Seq<u64> {
    Seq::new(n, |i: int| 0u64)
}

/// Addition on `u64` that pegs at `u64::MAX` instead of wrapping.
pub open spec fn sat_add(a: u64, b: u64) -> u64 {
    if a + b > u64::MAX {
        u64::MAX
    } else {
        (a + b) as u64
    }
}

/// Pointwise saturating sum of two equally wide rows.
pub open spec fn add_rows(a: Seq<u64>, b: Seq<u64>) -> Seq<u64> {
    Seq::new(a.len(), |i: int| sat_add(a[i], b[i]))
}

/// Exact sum of a damage row, as an unbounded integer.
pub open spec fn sum_milli(s: Seq<u64>) -> int
    decreases s.len(),
{
    if s.len() == 0 {
        0
    } else {
        sum_milli(s.drop_last()) + s.last()
    }
}

/// The store after a lineup event: the roster is replaced and every
/// per-battle series starts over. A non-empty roster primes the zero
/// bucket, so a battle end before any turn close still flushes it; an
/// empty roster leaves nothing to flush.
pub open spec fn lineup_model(m: StoreModel, names: Seq<Seq<char>>) -> StoreModel {
    StoreModel {
        rows: Seq::empty(),
        column_names: names,
        total_damage: zero_row(names.len()),
        av_damage: Seq::empty(),
        turn_damage: Seq::empty(),
        current_turn: zero_row(names.len()),
        current_av: 0,
        av_history: Seq::empty(),
        total_dpav: 0,
        dpav_history: Seq::empty(),
        turn_open: names.len() > 0,
    }
}

/// The full-width row recording one damage event from a roster attacker.
pub open spec fn damage_row(cols: Seq<Seq<char>>, name: Seq<char>, amount: u64) -> Seq<u64> {
    zero_row(cols.len()).update(cols.index_of_first(name).unwrap(), amount)
}

/// The store after a damage event. An attacker on the roster accrues into
/// the cumulative and current-turn buckets at the first column carrying the
/// name; any other attacker leaves every total unchanged. Either way a
/// full-width row is recorded.
pub open spec fn damage_model(m: StoreModel, name: Seq<char>, amount: u64) -> StoreModel {
    match m.column_names.index_of_first(name) {
        Some(i) => StoreModel {
            rows: m.rows.push(damage_row(m.column_names, name, amount)),
            total_damage: m.total_damage.update(i, sat_add(m.total_damage[i], amount)),
            current_turn: m.current_turn.update(i, sat_add(m.current_turn[i], amount)),
            turn_open: true,
            ..m
        },
        None => StoreModel { rows: m.rows.push(zero_row(m.column_names.len())), ..m },
    }
}

/// The derived metric, recomputed only for a positive action value: the
/// cumulative damage sum (saturated at `u64::MAX`), scaled to milli-units
/// and divided by the action-value cursor.
pub open spec fn dpav_of(totals: Seq<u64>, av: u64) -> u64 {
    let s: int = if sum_milli(totals) > u64::MAX {
        u64::MAX as int
    } else {
        sum_milli(totals)
    };
    let d: int = (s * 1000) / (av as int);
    if d > u64::MAX {
        u64::MAX
    } else {
        d as u64
    }
}

/// The store after a damage-per-action-value recomputation at cursor `av`;
/// a non-positive cursor changes nothing.
pub open spec fn dpav_model(m: StoreModel, av: u64) -> StoreModel {
    if av > 0 {
        let d = dpav_of(m.total_damage, av);
        StoreModel { total_dpav: d, dpav_history: m.dpav_history.push(d), ..m }
    } else {
        m
    }
}

/// The store after a turn close: the bucket is recorded in the action-value
/// history (merging when the window's action value equals the last recorded
/// one) and in the turn history, the metric is recomputed for a positive
/// cursor, and the bucket is reset.
pub open spec fn turn_end_model(m: StoreModel) -> StoreModel {
    let cur = m.current_turn;
    let merged = m.av_history.len() > 0 && m.av_history.last() == m.current_av;
    let m1 = if merged {
        StoreModel {
            av_damage: m.av_damage.update(
                m.av_damage.len() - 1,
                add_rows(m.av_damage.last(), cur),
            ),
            ..m
        }
    } else {
        StoreModel { av_history: m.av_history.push(m.current_av), av_damage: m.av_damage.push(cur), ..m }
    };
    let m2 = StoreModel { turn_damage: m1.turn_damage.push(cur), ..m1 };
    let m3 = dpav_model(m2, m.current_av);
    StoreModel { current_turn: zero_row(m.column_names.len()), turn_open: false, ..m3 }
}

/// The store after a battle end: a still-touched bucket is flushed into the
/// turn history (after a metric recomputation) and then cleared, so no
/// damage is lost at the battle boundary and no later event can flush it a
/// second time; an untouched bucket changes nothing.
pub open spec fn battle_end_model(m: StoreModel) -> StoreModel {
    if m.turn_open {
        let m1 = dpav_model(m, m.current_av);
        StoreModel {
            turn_damage: m1.turn_damage.push(m.current_turn),
            current_turn: zero_row(m.column_names.len()),
            turn_open: false,
            ..m1
        }
    } else {
        m
    }
}

/// The empty store.
pub open spec fn empty_store() -> StoreModel {
    StoreModel {
        rows: Seq::empty(),
        column_names: Seq::empty(),
        total_damage: Seq::empty(),
        av_damage: Seq::empty(),
        turn_damage: Seq::empty(),
        current_turn: Seq::empty(),
        current_av: 0,
        av_history: Seq::empty(),
        total_dpav: 0,
        dpav_history: Seq::empty(),
        turn_open: false,
    }
}

/// The aggregate store as the pipeline holds it. A single writer mutates it
/// through the methods below; readers take a lock outside the library and
/// see it only between mutations.
pub struct DataBufferInner {
    pub rows: Vec<Vec<u64>>,
    pub column_names: Vec<String>,
    pub total_damage: Vec<u64>,
    pub av_damage: Vec<Vec<u64>>,
    pub turn_damage: Vec<Vec<u64>>,
    pub current_turn: Vec<u64>,
    pub current_av: u64,
    pub av_history: Vec<u64>,
    pub total_dpav: u64,
    pub dpav_history: Vec<u64>,
    pub turn_open: bool,
}

impl View for DataBufferInner {
    type V = StoreModel;

    open spec fn view(&self) -> StoreModel {
        StoreModel {
            rows: self.rows@.map_values(|r: Vec<u64>| r@),
            column_names: self.column_names@.map_values(|s: String| s@),
            total_damage: self.total_damage@,
            av_damage: self.av_damage@.map_values(|r: Vec<u64>| r@),
            turn_damage: self.turn_damage@.map_values(|r: Vec<u64>| r@),
            current_turn: self.current_turn@,
            current_av: self.current_av,
            av_history: self.av_history@,
            total_dpav: self.total_dpav,
            dpav_history: self.dpav_history@,
            turn_open: self.turn_open,
        }
    }
}

impl Default for DataBufferInner {
    /// A store with no roster and no history.
    fn default() -> (r: Self)
        ensures
            r@ == empty_store(),
            wf(r@),
    {
        let r = DataBufferInner {
            rows: Vec::new(),
            column_names: Vec::new(),
            total_damage: Vec::new(),
            av_damage: Vec::new(),
            turn_damage: Vec::new(),
            current_turn: Vec::new(),
            current_av: 0,
            av_history: Vec::new(),
            total_dpav: 0,
            dpav_history: Vec::new(),
            turn_open: false,
        };
        proof {
            assert(r@ =~~= empty_store());
        }
        r
    }
}

/// A vector of `n` zeros.
fn make_zero_row(n: usize) -> (r: Vec<u64>)
    ensures
        r@ == zero_row(n as nat),
{
    let mut r: Vec<u64> = Vec::new();
    let mut i: usize = 0;
    while i < n
        invariant
            0 <= i <= n,
            r@ =~= zero_row(i as nat),
        decreases n - i,
    {
        r.push(0);
        proof {
            assert(r@ =~= zero_row((i + 1) as nat));
        }
        i = i + 1;
    }
    proof {
        assert(r@ =~= zero_row(n as nat));
    }
    r
}

/// An owned copy of a damage row.
fn copy_row(src: &Vec<u64>) -> (r: Vec<u64>)
    ensures
        r@ == src@,
{
    let mut r: Vec<u64> = Vec::new();
    let mut i: usize = 0;
    while i < src.len()
        invariant
            0 <= i <= src@.len(),
            r@ =~= src@.take(i as int),
        decreases src@.len() - i,
    {
        r.push(src[i]);
        proof {
            assert(r@ =~= src@.take((i + 1) as int));
        }
        i = i + 1;
    }
    proof {
        assert(r@ =~= src@);
    }
    r
}

impl DataBufferInner {
    /// The first roster column carrying `name`, if any.
    pub fn find_column(&self, name: &String) -> (r: Option<usize>)
        ensures
            match r {
                Some(i) => i < self@.column_names.len() && self@.column_names.index_of_first(
                    name@,
                ) == Some(i as int),
                None => self@.column_names.index_of_first(name@) is None,
            },
    {
        let ghost cols = self@.column_names;
        let mut i: usize = 0;
        while i < self.column_names.len()
            invariant
                0 <= i <= cols.len(),
                cols == self@.column_names,
                cols.len() == self.column_names@.len(),
                forall|j: int| 0 <= j < i ==> cols[j] != name@,
            decreases cols.len() - i,
        {
            if self.column_names[i] == *name {
                proof {
                    assert(cols[i as int] == name@);
                    cols.index_of_first_ensures(name@);
                    assert(cols.contains(name@));
                    let idx = cols.index_of_first(name@).unwrap();
                    assert(idx <= i) by {
                        if idx > i {
                            assert(cols[i as int] != name@);
                        }
                    }
                    assert(idx >= i) by {
                        if idx < i {
                            assert(cols[idx] != name@);
                        }
                    }
                }
                return Some(i);
            }
            i = i + 1;
        }
        proof {
            cols.index_of_first_ensures(name@);
            assert(!cols.contains(name@)) by {
                if cols.contains(name@) {
                    let k = choose|k: int| 0 <= k < cols.len() && cols[k] == name@;
                    assert(cols[k] != name@);
                }
            }
        }
        None
    }

    /// Installs a fresh roster and starts every per-battle series over.
    pub fn init_characters(&mut self, names: &[String])
        ensures
            final(self)@ == lineup_model(old(self)@, names@.map_values(|s: String| s@)),
            wf(final(self)@),
    {
        let ghost target = names@.map_values(|s: String| s@);
        let mut cols: Vec<String> = Vec::new();
        let mut i: usize = 0;
        while i < names.len()
            invariant
                0 <= i <= names@.len(),
                target == names@.map_values(|s: String| s@),
                cols@.map_values(|s: String| s@) =~= target.take(i as int),
            decreases names@.len() - i,
        {
            proof {
                assert(cols@.map_values(|s: String| s@).len() == cols@.len());
                assert(cols@.len() == i);
            }
            cols.push(names[i].clone());
            proof {
                assert(cols@.map_values(|s: String| s@) =~= target.take((i + 1) as int));
            }
            i = i + 1;
        }
        proof {
            assert(cols@.map_values(|s: String| s@) =~= target);
        }
        let n: usize = names.len();
        self.column_names = cols;
        self.total_damage = make_zero_row(n);
        self.current_turn = make_zero_row(n);
        self.rows = Vec::new();
        self.av_damage = Vec::new();
        self.turn_damage = Vec::new();
        self.av_history = Vec::new();
        self.current_av = 0;
        self.total_dpav = 0;
        self.dpav_history = Vec::new();
        self.turn_open = n > 0;
        proof {
            assert(self@ =~~= lineup_model(old(self)@, target));
        }
    }

    /// Accrues one damage event. Returns the recorded full-width row when
    /// the attacker is on the roster, `None` (with the totals untouched)
    /// when not.
    pub fn accrue_damage(&mut self, attacker: &String, amount: u64) -> (r: Option<Vec<u64>>)
        requires
            wf(old(self)@),
        ensures
            final(self)@ == damage_model(old(self)@, attacker@, amount),
            wf(final(self)@),
            r is Some <==> old(self)@.column_names.index_of_first(attacker@) is Some,
            r matches Some(row) ==> row@ == damage_row(old(self)@.column_names, attacker@, amount),
    {
        let found = self.find_column(attacker);
        let width: usize = self.column_names.len();
        proof {
            assert(width == old(self)@.column_names.len());
        }
        match found {
            Some(i) => {
                let mut row = make_zero_row(width);
                row.set(i, amount);
                let t: u64 = self.total_damage[i];
                self.total_damage.set(i, t.saturating_add(amount));
                let c: u64 = self.current_turn[i];
                self.current_turn.set(i, c.saturating_add(amount));
                let row_copy = copy_row(&row);
                self.rows.push(row);
                self.turn_open = true;
                proof {
                    assert(self.rows@.map_values(|r2: Vec<u64>| r2@) =~= old(
                        self,
                    )@.rows.push(damage_row(old(self)@.column_names, attacker@, amount)));
                    assert(self@ =~~= damage_model(old(self)@, attacker@, amount));
                }
                Some(row_copy)
            },
            None => {
                let row = make_zero_row(width);
                self.rows.push(row);
                proof {
                    assert(self.rows@.map_values(|r2: Vec<u64>| r2@) =~= old(
                        self,
                    )@.rows.push(zero_row(old(self)@.column_names.len())));
                    assert(self@ =~~= damage_model(old(self)@, attacker@, amount));
                }
                None
            },
        }
    }

    /// Recomputes the damage-per-action-value metric at cursor `av`; a
    /// non-positive cursor changes nothing.
    pub fn update_dpav(&mut self, av: u64)
        requires
            wf(old(self)@),
        ensures
            final(self)@ == dpav_model(old(self)@, av),
            wf(final(self)@),
    {
        if av > 0 {
            let mut s: u64 = 0;
            let mut i: usize = 0;
            let ghost totals = self@.total_damage;
            while i < self.total_damage.len()
                invariant
                    0 <= i <= totals.len(),
                    totals == self@.total_damage,
                    totals.len() == self.total_damage@.len(),
                    s == if sum_milli(totals.take(i as int)) > u64::MAX {
                        u64::MAX as int
                    } else {
                        sum_milli(totals.take(i as int))
                    },
                decreases totals.len() - i,
            {
                proof {
                    lemma_sum_milli_nonneg(totals.take(i as int));
                    assert(totals.take((i + 1) as int).drop_last() =~= totals.take(i as int));
                }
                s = s.saturating_add(self.total_damage[i]);
                i = i + 1;
            }
            proof {
                assert(totals.take(totals.len() as int) =~= totals);
            }
            let scaled: u128 = (s as u128) * 1000;
            let q: u128 = scaled / (av as u128);
            let d: u64 = if q > u64::MAX as u128 {
                u64::MAX
            } else {
                q as u64
            };
            proof {
                assert(d == dpav_of(old(self)@.total_damage, av));
            }
            self.total_dpav = d;
            self.dpav_history.push(d);
            proof {
                assert(self@ =~~= dpav_model(old(self)@, av));
            }
        }
    }

    /// Closes the current turn: records the bucket in the action-value and
    /// turn histories, recomputes the metric for a positive cursor, and
    /// resets the bucket.
    pub fn close_turn(&mut self)
        requires
            wf(old(self)@),
        ensures
            final(self)@ == turn_end_model(old(self)@),
            wf(final(self)@),
    {
        let cur = copy_row(&self.current_turn);
        let n: usize = self.av_history.len();
        if n > 0 && self.av_history[n - 1] == self.current_av {
            let mut merged: Vec<u64> = Vec::new();
            let ghost prev = self@.av_damage.last();
            let mut i: usize = 0;
            let prev_row_len: usize = self.av_damage[n - 1].len();
            while i < prev_row_len
                invariant
                    *self == *old(self),
                    wf(self@),
                    1 <= n,
                    n == self.av_history@.len(),
                    n == self.av_damage@.len(),
                    prev == self@.av_damage.last(),
                    prev == self.av_damage@[n - 1 as int]@,
                    prev.len() == self@.column_names.len(),
                    prev_row_len == prev.len(),
                    cur@ == self@.current_turn,
                    cur@.len() == prev.len(),
                    0 <= i <= prev.len(),
                    merged@ =~= add_rows(prev, cur@).take(i as int),
                decreases prev.len() - i,
            {
                let a: u64 = self.av_damage[n - 1][i];
                let b: u64 = cur[i];
                merged.push(a.saturating_add(b));
                proof {
                    assert(merged@ =~= add_rows(prev, cur@).take((i + 1) as int));
                }
                i = i + 1;
            }
            proof {
                assert(merged@ =~= add_rows(prev, cur@));
            }
            self.av_damage.set(n - 1, merged);
        } else {
            self.av_history.push(self.current_av);
            let cur2 = copy_row(&cur);
            self.av_damage.push(cur2);
        }
        let cur3 = copy_row(&cur);
        self.turn_damage.push(cur3);
        let av: u64 = self.current_av;
        proof {
            lemma_mid_turn_end_wf(old(self)@);
            assert(self@ =~~= mid_turn_end_model(old(self)@));
        }
        if av > 0 {
            self.update_dpav(av);
        }
        let width: usize = self.column_names.len();
        self.current_turn = make_zero_row(width);
        self.turn_open = false;
        proof {
            assert(self@ =~~= turn_end_model(old(self)@));
        }
    }

    /// Flushes a still-touched turn bucket at the battle boundary: the final
    /// partial turn is recorded before the battle's outputs close, so no
    /// damage is lost, and the bucket is cleared so nothing flushes it
    /// twice.
    pub fn flush_final_turn(&mut self)
        requires
            wf(old(self)@),
        ensures
            final(self)@ == battle_end_model(old(self)@),
            wf(final(self)@),
    {
        if self.turn_open {
            let av: u64 = self.current_av;
            self.update_dpav(av);
            let cur = copy_row(&self.current_turn);
            self.turn_damage.push(cur);
            let width: usize = self.column_names.len();
            self.current_turn = make_zero_row(width);
            self.turn_open = false;
            proof {
                assert(self@ =~~= battle_end_model(old(self)@));
            }
        }
    }
}

/// The store between the history updates and the metric recomputation of a
/// turn close.
spec fn mid_turn_end_model(m: StoreModel) -> StoreModel {
    let cur = m.current_turn;
    let merged = m.av_history.len() > 0 && m.av_history.last() == m.current_av;
    let m1 = if merged {
        StoreModel {
            av_damage: m.av_damage.update(
                m.av_damage.len() - 1,
                add_rows(m.av_damage.last(), cur),
            ),
            ..m
        }
    } else {
        StoreModel { av_history: m.av_history.push(m.current_av), av_damage: m.av_damage.push(cur), ..m }
    };
    StoreModel { turn_damage: m1.turn_damage.push(cur), ..m1 }
}

proof fn lemma_mid_turn_end_wf(m: StoreModel)
    requires
        wf(m),
    ensures
        wf(mid_turn_end_model(m)),
{
}

proof fn lemma_sum_milli_nonneg(s: Seq<u64>)
    ensures
        sum_milli(s) >= 0,
    decreases s.len(),
{
    if s.len() > 0 {
        lemma_sum_milli_nonneg(s.drop_last());
    }
}

/// Folds a run of damage events — attacker name and amount — into the store.
pub open spec fn apply_damage_events(m: StoreModel, evs: Seq<(Seq<char>, u64)>) -> StoreModel
    decreases evs.len(),
{
    if evs.len() == 0 {
        m
    } else {
        damage_model(apply_damage_events(m, evs.drop_last()), evs.last().0, evs.last().1)
    }
}

/// Sum of the amounts of the events naming `name`.
pub open spec fn sum_for(evs: Seq<(Seq<char>, u64)>, name: Seq<char>) -> int
    decreases evs.len(),
{
    if evs.len() == 0 {
        0
    } else {
        sum_for(evs.drop_last(), name) + if evs.last().0 == name {
            evs.last().1 as int
        } else {
            0
        }
    }
}

proof fn lemma_sum_for_nonneg(evs: Seq<(Seq<char>, u64)>, name: Seq<char>)
    ensures
        sum_for(evs, name) >= 0,
    decreases evs.len(),
{
    if evs.len() > 0 {
        lemma_sum_for_nonneg(evs.drop_last(), name);
    }
}

/// A damage event never touches the roster and keeps the store consistent.
pub proof fn lemma_damage_model_wf(m: StoreModel, name: Seq<char>, amount: u64)
    requires
        wf(m),
    ensures
        wf(damage_model(m, name, amount)),
        damage_model(m, name, amount).column_names == m.column_names,
        damage_model(m, name, amount).total_damage.len() == m.total_damage.len(),
{
    m.column_names.index_of_first_ensures(name);
}

/// Damage accrual is exactly additive: over any run of damage events, the
/// total at a roster column equals its starting total plus the sum of the
/// amounts naming that column (while that sum stays within `u64`), and the
/// roster itself never changes — an unknown attacker never adds a column.
pub proof fn lemma_damage_accrual(m: StoreModel, evs: Seq<(Seq<char>, u64)>, i: int)
    requires
        wf(m),
        0 <= i < m.column_names.len(),
        m.column_names.index_of_first(m.column_names[i]) == Some(i),
        m.total_damage[i] + sum_for(evs, m.column_names[i]) <= u64::MAX,
    ensures
        apply_damage_events(m, evs).column_names == m.column_names,
        wf(apply_damage_events(m, evs)),
        apply_damage_events(m, evs).total_damage[i] == m.total_damage[i] + sum_for(
            evs,
            m.column_names[i],
        ),
    decreases evs.len(),
{
    let name = m.column_names[i];
    if evs.len() > 0 {
        let pre = evs.drop_last();
        let e = evs.last();
        lemma_sum_for_nonneg(pre, name);
        lemma_damage_accrual(m, pre, i);
        let mp = apply_damage_events(m, pre);
        mp.column_names.index_of_first_ensures(e.0);
        lemma_damage_model_wf(mp, e.0, e.1);
        if e.0 == name {
            assert(mp.column_names.index_of_first(e.0) == Some(i));
        } else {
            match mp.column_names.index_of_first(e.0) {
                Some(j) => {
                    assert(mp.column_names[j] == e.0);
                    assert(j != i);
                },
                None => {},
            }
        }
    }
}

/// Closing a turn appends exactly the pre-close bucket to the turn history
/// and resets the bucket to all zeros; the action-value history afterwards
/// ends at the unchanged cursor, ready to merge a same-value successor.
pub proof fn lemma_turn_close_resets(m: StoreModel)
    requires
        wf(m),
    ensures
        ({
            let m2 = turn_end_model(m);
            &&& m2.turn_damage == m.turn_damage.push(m.current_turn)
            &&& m2.turn_damage.len() == m.turn_damage.len() + 1
            &&& m2.current_turn == zero_row(m.column_names.len())
            &&& forall|i: int| 0 <= i < m2.current_turn.len() ==> m2.current_turn[i] == 0
            &&& !m2.turn_open
            &&& m2.av_history.len() > 0
            &&& m2.av_history.last() == m.current_av
            &&& m2.current_av == m.current_av
            &&& m2.column_names == m.column_names
            &&& wf(m2)
        }),
{
}

/// A battle end with a touched bucket appends the final partial turn to the
/// turn history before anything closes — no damage is lost at the battle
/// boundary — and clears the bucket, so a repeated battle end flushes
/// nothing more.
pub proof fn lemma_battle_end_flush(m: StoreModel)
    requires
        wf(m),
        m.turn_open,
    ensures
        battle_end_model(m).turn_damage == m.turn_damage.push(m.current_turn),
        battle_end_model(m).turn_damage.len() == m.turn_damage.len() + 1,
        battle_end_model(m).current_turn == zero_row(m.column_names.len()),
        !battle_end_model(m).turn_open,
        battle_end_model(battle_end_model(m)) == battle_end_model(m),
        wf(battle_end_model(m)),
{
}

/// A turn closed at the same action value as the last recorded window adds
/// no new window: the bucket is summed into the last `av_damage` entry
/// instead. Together with `lemma_turn_close_resets` (the history ends at the
/// cursor after any close), two consecutive closes at one action value
/// produce a single window holding both turns' damage.
pub proof fn lemma_same_av_merge(m: StoreModel)
    requires
        wf(m),
        m.av_history.len() > 0,
        m.av_history.last() == m.current_av,
    ensures
        turn_end_model(m).av_history == m.av_history,
        turn_end_model(m).av_damage.len() == m.av_damage.len(),
        turn_end_model(m).av_damage.last() == add_rows(m.av_damage.last(), m.current_turn),
        wf(turn_end_model(m)),
{
}


/// Damage events never touch the turn or action-value histories, the
/// cursor, or the metric: only the totals, the bucket, and the row log
/// move.
pub proof fn lemma_damage_events_frame(m: StoreModel, evs: Seq<(Seq<char>, u64)>)
    requires
        wf(m),
    ensures
        wf(apply_damage_events(m, evs)),
        apply_damage_events(m, evs).column_names == m.column_names,
        apply_damage_events(m, evs).av_history == m.av_history,
        apply_damage_events(m, evs).av_damage == m.av_damage,
        apply_damage_events(m, evs).turn_damage == m.turn_damage,
        apply_damage_events(m, evs).current_av == m.current_av,
        apply_damage_events(m, evs).total_dpav == m.total_dpav,
        apply_damage_events(m, evs).dpav_history == m.dpav_history,
    decreases evs.len(),
{
    if evs.len() > 0 {
        lemma_damage_events_frame(m, evs.drop_last());
        lemma_damage_model_wf(apply_damage_events(m, evs.drop_last()), evs.last().0, evs.last().1);
    }
}

/// Two consecutive turn closes with only damage events between them — so
/// the action value never moves — record exactly one action-value window:
/// the second close adds no entry and sums the second bucket into the
/// window the first close left behind.
pub proof fn lemma_consecutive_closes_merge(m: StoreModel, evs: Seq<(Seq<char>, u64)>)
    requires
        wf(m),
    ensures
        ({
            let after_first = turn_end_model(m);
            let mid = apply_damage_events(after_first, evs);
            let after_second = turn_end_model(mid);
            &&& after_second.av_history == after_first.av_history
            &&& after_second.av_damage.len() == after_first.av_damage.len()
            &&& after_second.av_damage.last() == add_rows(
                after_first.av_damage.last(),
                mid.current_turn,
            )
        }),
{
    let after_first = turn_end_model(m);
    lemma_turn_close_resets(m);
    let mid = apply_damage_events(after_first, evs);
    lemma_damage_events_frame(after_first, evs);
    lemma_same_av_merge(mid);
}

/// A turn closed at a fresh action value opens a new window holding exactly
/// this turn's bucket.
pub proof fn lemma_new_av_window(m: StoreModel)
    requires
        wf(m),
        m.av_history.len() == 0 || m.av_history.last() != m.current_av,
    ensures
        turn_end_model(m).av_history == m.av_history.push(m.current_av),
        turn_end_model(m).av_damage == m.av_damage.push(m.current_turn),
        wf(turn_end_model(m)),
{
}

} // verus!
