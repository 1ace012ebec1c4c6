//! What the bot remembers between checks: the items already announced and
//! delivery statistics.

use vstd::prelude::*;
use vstd::string::*;
use crate::clock::{is_rfc3339_utc, now_rfc3339};
use crate::text::{str_equal, views};

verus! {

broadcast use vstd::string::group_string_axioms;

/// Most news items remembered as seen.
pub const MAX_SEEN_ANN: usize = 1000;

/// Most episodes remembered as seen.
pub const MAX_SEEN_ANILIST: usize = 500;

/// The bot's persistent state.
#[derive(Debug)]
pub struct AppState {
    /// Identifiers of the news items already handled, oldest first.
    pub seen_ann: Vec<String>,
    /// Identifiers of the episodes already handled, oldest first.
    pub seen_anilist: Vec<i64>,
    /// Whether a first check has completed.
    pub initialized: bool,
    pub stats: Stats,
}

/// Delivery statistics.
#[derive(Debug)]
pub struct Stats {
    pub total_articles_sent: u64,
    pub total_episodes_sent: u64,
    pub total_errors: u64,
    pub last_check: Option<String>,
}

/// The remembered list after pruning: once it holds more than `max`
/// entries, only the most recent `max / 2` are kept.
pub open spec fn pruned<T>(seen: Seq<T>, max: nat) -> Seq<T> {
    if seen.len() > max {
        seen.skip(seen.len() - max / 2)
    } else {
        seen
    }
}

/// The remembered list after recording `item` (added at the end unless
/// already there), then pruning.
pub open spec fn remembered<T>(seen: Seq<T>, item: T, max: nat) -> Seq<T> {
    pruned(
        if seen.contains(item) {
            seen
        } else {
            seen.push(item)
        },
        max,
    )
}

/// Whether no identifier occurs twice.
pub open spec fn no_duplicates<T>(s: Seq<T>) -> bool {
    forall|i: int, j: int| 0 <= i < j < s.len() ==> s[i] != s[j]
}

/// The list with every repeated identifier dropped after its first
/// occurrence.
pub open spec fn first_occurrences<T>(s: Seq<T>) -> Seq<T>
    decreases s.len(),
{
    if s.len() == 0 {
        Seq::empty()
    } else {
        let p = first_occurrences(s.drop_last());
        if p.contains(s.last()) {
            p
        } else {
            p.push(s.last())
        }
    }
}

impl Default for Stats {
    fn default() -> (r: Self)
        ensures
            r.total_articles_sent == 0,
            r.total_episodes_sent == 0,
            r.total_errors == 0,
            r.last_check is None,
    {
        Stats { total_articles_sent: 0, total_episodes_sent: 0, total_errors: 0, last_check: None }
    }
}

impl Default for AppState {
    fn default() -> (r: Self)
        ensures
            r.seen_ann@.len() == 0,
            r.seen_anilist@.len() == 0,
            !r.initialized,
            r.stats.total_articles_sent == 0,
            r.stats.total_episodes_sent == 0,
            r.stats.total_errors == 0,
            r.stats.last_check is None,
    {
        AppState {
            seen_ann: Vec::new(),
            seen_anilist: Vec::new(),
            initialized: false,
            stats: Stats::default(),
        }
    }
}

impl AppState {
    /// Records a news item as seen, forgetting the older half of the list
    /// once it grows past `MAX_SEEN_ANN`.
    pub fn add_seen_ann(&mut self, guid: String)
        requires
            no_duplicates(views(old(self).seen_ann@)),
        ensures
            views(final(self).seen_ann@) == remembered(
                views(old(self).seen_ann@),
                guid@,
                MAX_SEEN_ANN as nat,
            ),
            no_duplicates(views(final(self).seen_ann@)),
            final(self).seen_anilist@ == old(self).seen_anilist@,
            final(self).initialized == old(self).initialized,
            final(self).stats == old(self).stats,
    {
        proof {
            lemma_remembered_no_duplicates(views(self.seen_ann@), guid@, MAX_SEEN_ANN as nat);
        }
        let ghost before = views(self.seen_ann@);
        if !self.is_seen_ann(guid.as_str()) {
            self.seen_ann.push(guid);
            assert(views(self.seen_ann@) =~= before.push(guid@));
        }
        self.prune_seen_ann();
    }

    /// Records an episode as seen, forgetting the older half of the list
    /// once it grows past `MAX_SEEN_ANILIST`.
    pub fn add_seen_anilist(&mut self, id: i64)
        requires
            no_duplicates(old(self).seen_anilist@),
        ensures
            final(self).seen_anilist@ == remembered(
                old(self).seen_anilist@,
                id,
                MAX_SEEN_ANILIST as nat,
            ),
            no_duplicates(final(self).seen_anilist@),
            final(self).seen_ann@ == old(self).seen_ann@,
            final(self).initialized == old(self).initialized,
            final(self).stats == old(self).stats,
    {
        proof {
            lemma_remembered_no_duplicates(self.seen_anilist@, id, MAX_SEEN_ANILIST as nat);
        }
        if !self.is_seen_anilist(id) {
            self.seen_anilist.push(id);
        }
        self.prune_seen_anilist();
    }

    /// Whether the news item `guid` has been seen.
    pub fn is_seen_ann(&self, guid: &str) -> (r: bool)
        ensures
            r == views(self.seen_ann@).contains(guid@),
    {
        let mut i: usize = 0;
        while i < self.seen_ann.len()
            invariant
                i <= self.seen_ann@.len(),
                forall|k: int| 0 <= k < i ==> self.seen_ann@[k]@ != guid@,
            decreases self.seen_ann@.len() - i,
        {
            if str_equal(self.seen_ann[i].as_str(), guid) {
                assert(views(self.seen_ann@)[i as int] == guid@);
                return true;
            }
            i = i + 1;
        }
        assert(!views(self.seen_ann@).contains(guid@)) by {
            if views(self.seen_ann@).contains(guid@) {
                let k = choose|k: int|
                    0 <= k < views(self.seen_ann@).len() && views(self.seen_ann@)[k] == guid@;
                assert(self.seen_ann@[k]@ == guid@);
            }
        }
        false
    }

    /// Whether the episode `id` has been seen.
    pub fn is_seen_anilist(&self, id: i64) -> (r: bool)
        ensures
            r == self.seen_anilist@.contains(id),
    {
        let mut i: usize = 0;
        while i < self.seen_anilist.len()
            invariant
                i <= self.seen_anilist@.len(),
                forall|k: int| 0 <= k < i ==> self.seen_anilist@[k] != id,
            decreases self.seen_anilist@.len() - i,
        {
            if self.seen_anilist[i] == id {
                assert(self.seen_anilist@[i as int] == id);
                return true;
            }
            i = i + 1;
        }
        false
    }

    /// Counts one more delivered article and stamps the check time.
    pub fn increment_articles_sent(&mut self)
        requires
            old(self).stats.total_articles_sent < u64::MAX,
        ensures
            final(self).stats.total_articles_sent == old(self).stats.total_articles_sent + 1,
            final(self).stats.total_episodes_sent == old(self).stats.total_episodes_sent,
            final(self).stats.total_errors == old(self).stats.total_errors,
            final(self).stats.last_check matches Some(t) && is_rfc3339_utc(t@),
            final(self).seen_ann@ == old(self).seen_ann@,
            final(self).seen_anilist@ == old(self).seen_anilist@,
            final(self).initialized == old(self).initialized,
    {
        self.stats.total_articles_sent = self.stats.total_articles_sent + 1;
        self.update_last_check();
    }

    /// Counts one more delivered episode and stamps the check time.
    pub fn increment_episodes_sent(&mut self)
        requires
            old(self).stats.total_episodes_sent < u64::MAX,
        ensures
            final(self).stats.total_episodes_sent == old(self).stats.total_episodes_sent + 1,
            final(self).stats.total_articles_sent == old(self).stats.total_articles_sent,
            final(self).stats.total_errors == old(self).stats.total_errors,
            final(self).stats.last_check matches Some(t) && is_rfc3339_utc(t@),
            final(self).seen_ann@ == old(self).seen_ann@,
            final(self).seen_anilist@ == old(self).seen_anilist@,
            final(self).initialized == old(self).initialized,
    {
        self.stats.total_episodes_sent = self.stats.total_episodes_sent + 1;
        self.update_last_check();
    }

    /// Counts one more delivery error.
    pub fn increment_errors(&mut self)
        requires
            old(self).stats.total_errors < u64::MAX,
        ensures
            final(self).stats.total_errors == old(self).stats.total_errors + 1,
            final(self).stats.total_articles_sent == old(self).stats.total_articles_sent,
            final(self).stats.total_episodes_sent == old(self).stats.total_episodes_sent,
            final(self).stats.last_check == old(self).stats.last_check,
            final(self).seen_ann@ == old(self).seen_ann@,
            final(self).seen_anilist@ == old(self).seen_anilist@,
            final(self).initialized == old(self).initialized,
    {
        self.stats.total_errors = self.stats.total_errors + 1;
    }

    /// Stamps the check time with the current time.
    pub fn update_last_check(&mut self)
        ensures
            final(self).stats.last_check matches Some(t) && is_rfc3339_utc(t@),
            final(self).stats.total_articles_sent == old(self).stats.total_articles_sent,
            final(self).stats.total_episodes_sent == old(self).stats.total_episodes_sent,
            final(self).stats.total_errors == old(self).stats.total_errors,
            final(self).seen_ann@ == old(self).seen_ann@,
            final(self).seen_anilist@ == old(self).seen_anilist@,
            final(self).initialized == old(self).initialized,
    {
        let now = now_rfc3339();
        self.set_last_check(now);
    }

    /// Stamps the check time with `stamp`.
    pub fn set_last_check(&mut self, stamp: String)
        ensures
            final(self).stats.last_check == Some(stamp),
            final(self).stats.total_articles_sent == old(self).stats.total_articles_sent,
            final(self).stats.total_episodes_sent == old(self).stats.total_episodes_sent,
            final(self).stats.total_errors == old(self).stats.total_errors,
            final(self).seen_ann@ == old(self).seen_ann@,
            final(self).seen_anilist@ == old(self).seen_anilist@,
            final(self).initialized == old(self).initialized,
    {
        self.stats.last_check = Some(stamp);
    }

    /// Marks the first check as done and stamps the check time.
    pub fn complete_check(&mut self)
        ensures
            final(self).initialized,
            final(self).stats.last_check matches Some(t) && is_rfc3339_utc(t@),
            final(self).stats.total_articles_sent == old(self).stats.total_articles_sent,
            final(self).stats.total_episodes_sent == old(self).stats.total_episodes_sent,
            final(self).stats.total_errors == old(self).stats.total_errors,
            final(self).seen_ann@ == old(self).seen_ann@,
            final(self).seen_anilist@ == old(self).seen_anilist@,
    {
        self.initialized = true;
        self.update_last_check();
    }

    /// Drops every identifier that is remembered twice, keeping its first
    /// (oldest) place, so that no identifier occurs twice (as in a state
    /// read back from a file).
    pub fn dedup_seen(&mut self)
        ensures
            views(final(self).seen_ann@) == first_occurrences(views(old(self).seen_ann@)),
            final(self).seen_anilist@ == first_occurrences(old(self).seen_anilist@),
            no_duplicates(views(final(self).seen_ann@)),
            no_duplicates(final(self).seen_anilist@),
            final(self).initialized == old(self).initialized,
            final(self).stats == old(self).stats,
    {
        let ghost ann = views(self.seen_ann@);
        let mut kept: Vec<String> = Vec::new();
        let mut i: usize = 0;
        assert(ann.take(0) =~= Seq::<Seq<char>>::empty());
        while i < self.seen_ann.len()
            invariant
                i <= self.seen_ann@.len(),
                ann == views(self.seen_ann@),
                views(kept@) == first_occurrences(ann.take(i as int)),
            decreases self.seen_ann@.len() - i,
        {
            assert(ann.take(i + 1).drop_last() == ann.take(i as int));
            assert(ann.take(i + 1).last() == self.seen_ann@[i as int]@);
            if !seen_in(&kept, self.seen_ann[i].as_str()) {
                let g = self.seen_ann[i].clone();
                kept.push(g);
                assert(views(kept@) =~= first_occurrences(ann.take(i + 1)));
            }
            i = i + 1;
        }
        assert(ann.take(self.seen_ann@.len() as int) == ann);
        let mut ids: Vec<i64> = Vec::new();
        let mut j: usize = 0;
        assert(self.seen_anilist@.take(0) =~= Seq::<i64>::empty());
        while j < self.seen_anilist.len()
            invariant
                j <= self.seen_anilist@.len(),
                ids@ == first_occurrences(self.seen_anilist@.take(j as int)),
            decreases self.seen_anilist@.len() - j,
        {
            assert(self.seen_anilist@.take(j + 1).drop_last() == self.seen_anilist@.take(j as int));
            let id = self.seen_anilist[j];
            let mut found = false;
            let mut k: usize = 0;
            while k < ids.len()
                invariant
                    k <= ids@.len(),
                    found <==> ids@.take(k as int).contains(id),
                decreases ids@.len() - k,
            {
                let ghost t = ids@.take(k as int);
                assert(ids@.take(k + 1) =~= t.push(ids@[k as int]));
                if ids[k] == id {
                    found = true;
                    assert(ids@.take(k + 1)[k as int] == id);
                } else {
                    assert(ids@.take(k + 1).contains(id) ==> t.contains(id)) by {
                        if ids@.take(k + 1).contains(id) {
                            let m = choose|m: int| 0 <= m < k + 1 && #[trigger] ids@.take(k + 1)[m] == id;
                            assert(t[m] == id);
                        }
                    }
                    assert(t.contains(id) ==> ids@.take(k + 1).contains(id)) by {
                        if t.contains(id) {
                            let m = choose|m: int| 0 <= m < t.len() && t[m] == id;
                            assert(ids@.take(k + 1)[m] == id);
                        }
                    }
                }
                k = k + 1;
            }
            assert(ids@.take(ids@.len() as int) == ids@);
            if !found {
                ids.push(id);
            }
            j = j + 1;
        }
        assert(self.seen_anilist@.take(self.seen_anilist@.len() as int) == self.seen_anilist@);
        proof {
            lemma_first_occurrences(ann);
            lemma_first_occurrences(self.seen_anilist@);
        }
        self.seen_ann = kept;
        self.seen_anilist = ids;
    }

    /// Keeps only the most recent `MAX_SEEN_ANN / 2` news items once more
    /// than `MAX_SEEN_ANN` are remembered.
    fn prune_seen_ann(&mut self)
        ensures
            views(final(self).seen_ann@) == pruned(views(old(self).seen_ann@), MAX_SEEN_ANN as nat),
            final(self).seen_ann@ == pruned(old(self).seen_ann@, MAX_SEEN_ANN as nat),
            final(self).seen_anilist@ == old(self).seen_anilist@,
            final(self).initialized == old(self).initialized,
            final(self).stats == old(self).stats,
    {
        let len = self.seen_ann.len();
        if len > MAX_SEEN_ANN {
            let kept = self.seen_ann.split_off(len - MAX_SEEN_ANN / 2);
            self.seen_ann = kept;
            assert(views(self.seen_ann@) =~= pruned(
                views(old(self).seen_ann@),
                MAX_SEEN_ANN as nat,
            ));
        }
    }

    /// Keeps only the most recent `MAX_SEEN_ANILIST / 2` episodes once more
    /// than `MAX_SEEN_ANILIST` are remembered.
    fn prune_seen_anilist(&mut self)
        ensures
            final(self).seen_anilist@ == pruned(old(self).seen_anilist@, MAX_SEEN_ANILIST as nat),
            final(self).seen_ann@ == old(self).seen_ann@,
            final(self).initialized == old(self).initialized,
            final(self).stats == old(self).stats,
    {
        let len = self.seen_anilist.len();
        if len > MAX_SEEN_ANILIST {
            let kept = self.seen_anilist.split_off(len - MAX_SEEN_ANILIST / 2);
            self.seen_anilist = kept;
            assert(self.seen_anilist@ =~= pruned(
                old(self).seen_anilist@,
                MAX_SEEN_ANILIST as nat,
            ));
        }
    }
}


/// Whether `guid` is in `list`.
fn seen_in(list: &Vec<String>, guid: &str) -> (r: bool)
    ensures
        r == views(list@).contains(guid@),
{
    let mut i: usize = 0;
    while i < list.len()
        invariant
            i <= list@.len(),
            forall|k: int| 0 <= k < i ==> list@[k]@ != guid@,
        decreases list@.len() - i,
    {
        if str_equal(list[i].as_str(), guid) {
            assert(views(list@)[i as int] == guid@);
            return true;
        }
        i = i + 1;
    }
    assert(!views(list@).contains(guid@)) by {
        if views(list@).contains(guid@) {
            let k = choose|k: int| 0 <= k < views(list@).len() && views(list@)[k] == guid@;
            assert(list@[k]@ == guid@);
        }
    }
    false
}

/// Dropping repeated identifiers leaves no repetition, keeps every
/// identifier, and changes nothing in a list without repetition.
pub proof fn lemma_first_occurrences<T>(s: Seq<T>)
    ensures
        no_duplicates(first_occurrences(s)),
        forall|x: T| first_occurrences(s).contains(x) <==> s.contains(x),
        no_duplicates(s) ==> first_occurrences(s) == s,
    decreases s.len(),
{
    if s.len() > 0 {
        let d = s.drop_last();
        lemma_first_occurrences(d);
        let p = first_occurrences(d);
        let fo = first_occurrences(s);
        assert forall|x: T| fo.contains(x) implies s.contains(x) by {
            if x == s.last() {
                assert(s[s.len() - 1] == x);
            } else {
                let k = choose|k: int| 0 <= k < fo.len() && fo[k] == x;
                if !p.contains(s.last()) {
                    assert(fo == p.push(s.last()));
                    assert(k < p.len());
                    assert(p[k] == x);
                }
                assert(p.contains(x));
                assert(d.contains(x));
                let m = choose|m: int| 0 <= m < d.len() && d[m] == x;
                assert(s[m] == x);
            }
        }
        assert forall|x: T| s.contains(x) implies fo.contains(x) by {
            if x == s.last() {
                if !p.contains(s.last()) {
                    assert(fo[p.len() as int] == x);
                }
            } else {
                let k = choose|k: int| 0 <= k < s.len() && s[k] == x;
                assert(k < d.len());
                assert(d[k] == x);
                assert(d.contains(x));
                assert(p.contains(x));
                let m = choose|m: int| 0 <= m < p.len() && p[m] == x;
                if !p.contains(s.last()) {
                    assert(fo[m] == x);
                }
            }
        }
        if !p.contains(s.last()) {
            let q = p.push(s.last());
            assert forall|i: int, j: int| 0 <= i < j < q.len() implies q[i] != q[j] by {
                if j == q.len() - 1 {
                    assert(p.contains(p[i]));
                }
            }
        }
        if no_duplicates(s) {
            assert(no_duplicates(d));
            assert(!d.contains(s.last())) by {
                if d.contains(s.last()) {
                    let k = choose|k: int| 0 <= k < d.len() && d[k] == s.last();
                    assert(s[k] == s[s.len() - 1]);
                }
            }
            assert(p.push(s.last()) =~= s);
        }
    }
}

/// The remembered list as a set: recording `item` in a list without
/// repetition gives the old identifiers plus `item` while they number at
/// most `max`; past that, it keeps `max / 2` of them and nothing else.
pub proof fn lemma_remembered_set<T>(seen: Seq<T>, item: T, max: nat)
    requires
        no_duplicates(seen),
    ensures
        remembered(seen, item, max).len() <= max,
        no_duplicates(remembered(seen, item, max)),
        remembered(seen, item, max).to_set().len() == remembered(seen, item, max).len(),
        seen.to_set().insert(item).len() <= max ==> remembered(seen, item, max).to_set()
            == seen.to_set().insert(item),
        seen.to_set().insert(item).len() > max ==> {
            &&& remembered(seen, item, max).to_set().subset_of(seen.to_set().insert(item))
            &&& remembered(seen, item, max).len() == max / 2
        },
{
    let r = remembered(seen, item, max);
    let added = if seen.contains(item) {
        seen
    } else {
        seen.push(item)
    };
    lemma_remembered_no_duplicates(seen, item, max);
    assert(no_duplicates(added)) by {
        lemma_remembered_no_duplicates(seen, item, added.len());
    }
    assert(added.to_set() =~= seen.to_set().insert(item)) by {
        assert forall|x: T| added.contains(x) <==> seen.to_set().insert(item).contains(x) by {
            if !seen.contains(item) {
                if x == item {
                    assert(added[added.len() - 1] == x);
                }
                if added.contains(x) && x != item {
                    let k = choose|k: int| 0 <= k < added.len() && added[k] == x;
                    assert(seen[k] == x);
                }
                if seen.contains(x) {
                    let k = choose|k: int| 0 <= k < seen.len() && seen[k] == x;
                    assert(added[k] == x);
                }
            }
        }
    }
    assert(added.no_duplicates());
    added.unique_seq_to_set();
    assert(r.no_duplicates());
    r.unique_seq_to_set();
    if added.len() > max {
        let k = added.len() - max / 2;
        assert(r == added.skip(k));
        assert forall|x: T| r.to_set().contains(x) implies added.to_set().contains(x) by {
            let i = choose|i: int| 0 <= i < r.len() && r[i] == x;
            assert(added[i + k] == x);
        }
    } else {
        assert(r == added);
    }
}

/// Recording an item never leaves more than `max` entries, whatever the
/// list held before.
pub proof fn lemma_remembered_bounded<T>(seen: Seq<T>, item: T, max: nat)
    ensures
        remembered(seen, item, max).len() <= max,
{
}

/// Recording an item in a remembered list that is within its bound keeps
/// the list within its bound, and the item is then remembered: a lookup
/// right after recording finds it.
pub proof fn lemma_remembered_finds_item<T>(seen: Seq<T>, item: T, max: nat)
    requires
        seen.len() <= max,
        max >= 2,
    ensures
        remembered(seen, item, max).contains(item),
        remembered(seen, item, max).len() <= max,
{
    let r = remembered(seen, item, max);
    if seen.contains(item) {
        assert(r == seen);
    } else {
        let added = seen.push(item);
        assert(added[added.len() - 1] == item);
        if added.len() > max {
            let k = added.len() - max / 2;
            assert(r == added.skip(k));
            assert(r[r.len() - 1] == item);
        } else {
            assert(r == added);
        }
    }
}

/// Recording an item never makes an identifier occur twice.
pub proof fn lemma_remembered_no_duplicates<T>(seen: Seq<T>, item: T, max: nat)
    requires
        no_duplicates(seen),
    ensures
        no_duplicates(remembered(seen, item, max)),
{
    let added = if seen.contains(item) {
        seen
    } else {
        seen.push(item)
    };
    assert(no_duplicates(added)) by {
        if !seen.contains(item) {
            assert forall|i: int, j: int| 0 <= i < j < added.len() implies added[i] != added[j] by {
                if j == added.len() - 1 {
                    assert(added[i] == seen[i]);
                }
            }
        }
    }
    if added.len() > max {
        let k = added.len() - max / 2;
        assert forall|i: int, j: int|
            0 <= i < j < added.skip(k).len() implies added.skip(k)[i] != added.skip(k)[j] by {
            assert(added.skip(k)[i] == added[i + k]);
            assert(added.skip(k)[j] == added[j + k]);
        }
    }
}

/// Pruning keeps exactly the most recent entries: what is left is a suffix
/// of what was there, and an item that stays in the list keeps its order.
pub proof fn lemma_pruned_is_suffix<T>(seen: Seq<T>, max: nat)
    ensures
        pruned(seen, max).len() <= seen.len(),
        pruned(seen, max) == seen.skip(seen.len() - pruned(seen, max).len()),
        seen.len() > max ==> pruned(seen, max).len() == max / 2,
{
    if seen.len() <= max {
        assert(seen.skip(0) =~= seen);
    }
}

/// After `add_seen_ann` on a state that remembers at most `MAX_SEEN_ANN`
/// news items, the item is seen and the bound still holds; the same for
/// `add_seen_anilist` and `MAX_SEEN_ANILIST`.
pub proof fn lemma_seen_after_add(state: AppState, guid: Seq<char>, id: i64)
    requires
        state.seen_ann@.len() <= MAX_SEEN_ANN,
        state.seen_anilist@.len() <= MAX_SEEN_ANILIST,
    ensures
        remembered(views(state.seen_ann@), guid, MAX_SEEN_ANN as nat).contains(guid),
        remembered(views(state.seen_ann@), guid, MAX_SEEN_ANN as nat).len() <= MAX_SEEN_ANN,
        remembered(state.seen_anilist@, id, MAX_SEEN_ANILIST as nat).contains(id),
        remembered(state.seen_anilist@, id, MAX_SEEN_ANILIST as nat).len() <= MAX_SEEN_ANILIST,
{
    lemma_remembered_finds_item(views(state.seen_ann@), guid, MAX_SEEN_ANN as nat);
    lemma_remembered_finds_item(state.seen_anilist@, id, MAX_SEEN_ANILIST as nat);
}


// ---------------------------------------------------------------------
// Announcing each item once
// ---------------------------------------------------------------------

/// One check over candidate keys (`None` for a candidate that cannot be
/// identified): starting from the remembered list `seen`, the first `n`
/// candidates are looked at in order; a key not remembered yet is
/// recorded and announced, anything else is skipped. The result is the
/// remembered list after the check and the announced keys in order.
pub open spec fn dedup_batch<T>(seen: Seq<T>, keys: Seq<Option<T>>, n: nat, max: nat) -> (
    Seq<T>,
    Seq<T>,
)
    decreases n,
{
    if n == 0 || n > keys.len() {
        (seen, Seq::empty())
    } else {
        let prev = dedup_batch(seen, keys, (n - 1) as nat, max);
        match keys[n - 1] {
            None => prev,
            Some(k) => if prev.0.contains(k) {
                prev
            } else {
                (remembered(prev.0, k, max), prev.1.push(k))
            },
        }
    }
}

/// While a check announces at most `max / 2` keys, the remembered list ends
/// with the announced keys, which are pairwise distinct; and when the list
/// cannot overflow during the check, it is the old list followed by the
/// announced keys.
pub proof fn lemma_dedup_tail<T>(seen: Seq<T>, keys: Seq<Option<T>>, n: nat, max: nat) -> (y: Seq<T>)
    requires
        n <= max / 2,
    ensures
        dedup_batch(seen, keys, n, max).0 == y + dedup_batch(seen, keys, n, max).1,
        dedup_batch(seen, keys, n, max).1.len() <= n,
        no_duplicates(dedup_batch(seen, keys, n, max).1),
        seen.len() + n <= max ==> y == seen,
    decreases n,
{
    if n == 0 || n > keys.len() {
        assert(seen == seen + Seq::<T>::empty());
        seen
    } else {
        let y0 = lemma_dedup_tail(seen, keys, (n - 1) as nat, max);
        let prev = dedup_batch(seen, keys, (n - 1) as nat, max);
        match keys[n - 1] {
            None => y0,
            Some(k) => {
                if prev.0.contains(k) {
                    y0
                } else {
                    let a = prev.1;
                    let a2 = a.push(k);
                    assert(!a.contains(k)) by {
                        if a.contains(k) {
                            let j = choose|j: int| 0 <= j < a.len() && a[j] == k;
                            assert(prev.0[y0.len() + j] == k);
                        }
                    }
                    assert(no_duplicates(a2)) by {
                        assert forall|i: int, j: int| 0 <= i < j < a2.len() implies a2[i]
                            != a2[j] by {
                            if j == a2.len() - 1 {
                                assert(a2[i] == a[i]);
                                assert(a.contains(a[i]));
                            }
                        }
                    }
                    let pushed = prev.0.push(k);
                    assert(pushed == y0 + a2);
                    if pushed.len() > max {
                        let m = pushed.len() - max / 2;
                        assert(m <= y0.len());
                        assert((y0 + a2).skip(m) =~= y0.skip(m) + a2);
                        y0.skip(m)
                    } else {
                        y0
                    }
                }
            },
        }
    }
}

/// Each key is announced at most once in a check of at most `max / 2`
/// candidates, and every announced key is remembered afterwards; when the
/// list cannot overflow during the check, no key that was remembered
/// before is announced.
pub proof fn lemma_dedup_announces_once<T>(seen: Seq<T>, keys: Seq<Option<T>>, n: nat, max: nat)
    requires
        n <= max / 2,
    ensures
        no_duplicates(dedup_batch(seen, keys, n, max).1),
        forall|k: T|
            dedup_batch(seen, keys, n, max).1.contains(k) ==> dedup_batch(
                seen,
                keys,
                n,
                max,
            ).0.contains(k),
        seen.len() + n <= max ==> forall|k: T|
            dedup_batch(seen, keys, n, max).1.contains(k) ==> !seen.contains(k),
{
    let y = lemma_dedup_tail(seen, keys, n, max);
    let r = dedup_batch(seen, keys, n, max);
    assert forall|k: T| r.1.contains(k) implies r.0.contains(k) by {
        let j = choose|j: int| 0 <= j < r.1.len() && r.1[j] == k;
        assert(r.0[y.len() + j] == k);
    }
    if seen.len() + n <= max {
        lemma_dedup_fresh(seen, keys, n, max);
    }
}

proof fn lemma_dedup_fresh<T>(seen: Seq<T>, keys: Seq<Option<T>>, n: nat, max: nat)
    requires
        seen.len() + n <= max,
    ensures
        dedup_batch(seen, keys, n, max).0 == seen + dedup_batch(seen, keys, n, max).1,
        dedup_batch(seen, keys, n, max).1.len() <= n,
        forall|k: T| dedup_batch(seen, keys, n, max).1.contains(k) ==> !seen.contains(k),
    decreases n,
{
    if n == 0 || n > keys.len() {
        assert(seen == seen + Seq::<T>::empty());
    } else {
        lemma_dedup_fresh(seen, keys, (n - 1) as nat, max);
        let prev = dedup_batch(seen, keys, (n - 1) as nat, max);
        match keys[n - 1] {
            None => {},
            Some(k) => {
                if !prev.0.contains(k) {
                    assert(!seen.contains(k)) by {
                        if seen.contains(k) {
                            let j = choose|j: int| 0 <= j < seen.len() && seen[j] == k;
                            assert(prev.0[j] == k);
                        }
                    }
                    assert(prev.0.push(k) =~= seen + prev.1.push(k));
                    let r = dedup_batch(seen, keys, n, max);
                    assert forall|x: T| r.1.contains(x) implies !seen.contains(x) by {
                        let j = choose|j: int| 0 <= j < r.1.len() && r.1[j] == x;
                        if j < prev.1.len() {
                            assert(prev.1[j] == x);
                            assert(prev.1.contains(x));
                        }
                    }
                }
            },
        }
    }
}

/// After a check that cannot overflow the list, every key it looked at is
/// remembered, and so is every key remembered before.
proof fn lemma_dedup_covers<T>(seen: Seq<T>, keys: Seq<Option<T>>, n: nat, max: nat)
    requires
        seen.len() + n <= max,
        n <= keys.len(),
    ensures
        forall|i: int|
            0 <= i < n && keys[i] is Some ==> dedup_batch(seen, keys, n, max).0.contains(
                #[trigger] keys[i]->0,
            ),
        forall|k: T| seen.contains(k) ==> dedup_batch(seen, keys, n, max).0.contains(k),
    decreases n,
{
    if n > 0 {
        lemma_dedup_covers(seen, keys, (n - 1) as nat, max);
        lemma_dedup_fresh(seen, keys, (n - 1) as nat, max);
        let prev = dedup_batch(seen, keys, (n - 1) as nat, max);
        let cur = dedup_batch(seen, keys, n, max);
        assert forall|k: T| prev.0.contains(k) implies cur.0.contains(k) by {
            let j = choose|j: int| 0 <= j < prev.0.len() && prev.0[j] == k;
            if cur.0 != prev.0 {
                assert(cur.0 == prev.0.push(keys[n - 1]->0));
                assert(cur.0[j] == k);
            }
        }
        assert forall|i: int| 0 <= i < n && keys[i] is Some implies cur.0.contains(
            #[trigger] keys[i]->0,
        ) by {
            if i < n - 1 {
                assert(prev.0.contains(keys[i]->0));
            } else if !prev.0.contains(keys[i]->0) {
                assert(cur.0 == prev.0.push(keys[i]->0));
                assert(cur.0[prev.0.len() as int] == keys[i]->0);
            }
        }
    }
}

/// A check whose keys are all remembered announces nothing and leaves the
/// list as it is.
proof fn lemma_dedup_all_known<T>(seen: Seq<T>, keys: Seq<Option<T>>, n: nat, max: nat)
    requires
        n <= keys.len(),
        forall|i: int| 0 <= i < n && keys[i] is Some ==> seen.contains(#[trigger] keys[i]->0),
    ensures
        dedup_batch(seen, keys, n, max) == (seen, Seq::<T>::empty()),
    decreases n,
{
    if n > 0 {
        lemma_dedup_all_known(seen, keys, (n - 1) as nat, max);
        if keys[n - 1] is Some {
            assert(seen.contains(keys[n - 1]->0));
        }
    }
}

/// Running the same check twice: when the first run cannot overflow the
/// list, the second announces nothing and leaves the list unchanged.
pub proof fn lemma_dedup_repeat_announces_nothing<T>(
    seen: Seq<T>,
    keys: Seq<Option<T>>,
    n: nat,
    max: nat,
)
    requires
        seen.len() + n <= max,
        n <= keys.len(),
    ensures
        dedup_batch(dedup_batch(seen, keys, n, max).0, keys, n, max) == (
            dedup_batch(seen, keys, n, max).0,
            Seq::<T>::empty(),
        ),
{
    lemma_dedup_covers(seen, keys, n, max);
    lemma_dedup_all_known(dedup_batch(seen, keys, n, max).0, keys, n, max);
}

/// Two checks in a row never announce the same key twice, as long as the
/// first check announces at most `max / 2` keys and the second cannot
/// overflow the list.
pub proof fn lemma_no_repeat_across_checks<T>(
    seen: Seq<T>,
    first: Seq<Option<T>>,
    n1: nat,
    second: Seq<Option<T>>,
    n2: nat,
    max: nat,
)
    requires
        n1 <= max / 2,
        n2 <= max / 2,
        dedup_batch(seen, first, n1, max).0.len() + n2 <= max,
    ensures
        forall|k: T|
            dedup_batch(seen, first, n1, max).1.contains(k) ==> !dedup_batch(
                dedup_batch(seen, first, n1, max).0,
                second,
                n2,
                max,
            ).1.contains(k),
{
    let after = dedup_batch(seen, first, n1, max).0;
    lemma_dedup_announces_once(seen, first, n1, max);
    lemma_dedup_announces_once(after, second, n2, max);
}

} // verus!
