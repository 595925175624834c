use vstd::prelude::*;

use crate::common::config::{DatabaseConfig, HoggConfig};

verus! {

/// Version written into a freshly created database.
pub const DB_VERSION: &'static str = "1.0.0";

/// One finding of a scan, with whether a user has already looked at it.
#[derive(Debug, Clone)]
pub struct Detection<T> {
    pub viewed: bool,
    pub data: T,
}

/// What the database file holds.
#[derive(Debug, Clone)]
pub struct DbStruct<T> {
    pub version: String,
    pub detections: Vec<Detection<T>>,
}

/// The detection database: the file it lives in, its contents and its settings.
pub struct HoggDatabase<T> {
    pub path: String,
    pub structure: DbStruct<T>,
    pub config: DatabaseConfig,
}

/// Positions, in increasing order, of the detections among the first `n` of `ds`
/// that nobody has viewed yet.
pub open spec fn unviewed_indices<T>(ds: Seq<Detection<T>>, n: int) -> Seq<usize>
    decreases n,
{
    if n <= 0 {
        seq![]
    } else if !ds[n - 1].viewed {
        unviewed_indices(ds, n - 1).push((n - 1) as usize)
    } else {
        unviewed_indices(ds, n - 1)
    }
}

/// `ds` with every detection marked as viewed when `mark` holds, and unchanged otherwise.
pub open spec fn marked<T>(ds: Seq<Detection<T>>, mark: bool) -> Seq<Detection<T>> {
    Seq::new(ds.len(), |i: int| Detection { viewed: ds[i].viewed || mark, data: ds[i].data })
}

/// Unviewed positions of a prefix do not depend on what follows it.
proof fn lemma_unviewed_prefix<T>(ds: Seq<Detection<T>>, es: Seq<Detection<T>>, n: int)
    requires
        0 <= n <= ds.len(),
        n <= es.len(),
        forall|j: int| 0 <= j < n ==> ds[j] == es[j],
    ensures
        unviewed_indices(ds, n) == unviewed_indices(es, n),
    decreases n,
{
    if n > 0 {
        lemma_unviewed_prefix(ds, es, n - 1);
    }
}

/// The positions reported are exactly those of the detections nobody has
/// viewed, each once, in increasing order.
pub proof fn law_unviewed_are_exactly_the_unviewed<T>(ds: Seq<Detection<T>>, n: int)
    requires
        0 <= n <= ds.len(),
        ds.len() <= usize::MAX,
    ensures
        forall|i: int| 0 <= i < n ==> (!ds[i].viewed <==> #[trigger] unviewed_indices(ds, n).contains(i as usize)),
        forall|a: int, b: int|
            0 <= a < b < unviewed_indices(ds, n).len() ==> unviewed_indices(ds, n)[a] < unviewed_indices(ds, n)[b],
        forall|a: int| 0 <= a < unviewed_indices(ds, n).len() ==> unviewed_indices(ds, n)[a] < n,
    decreases n,
{
    if n > 0 {
        law_unviewed_are_exactly_the_unviewed(ds, n - 1);
        let prev = unviewed_indices(ds, n - 1);
        let cur = unviewed_indices(ds, n);
        assert forall|i: int| 0 <= i < n implies (!ds[i].viewed <==> #[trigger] cur.contains(i as usize)) by {
            if !ds[i].viewed {
                if i < n - 1 {
                    assert(prev.contains(i as usize));
                    let k = choose|k: int| 0 <= k < prev.len() && prev[k] == i as usize;
                    assert(cur[k] == i as usize);
                } else {
                    assert(cur[cur.len() - 1] == i as usize);
                }
            }
            if cur.contains(i as usize) {
                let k = choose|k: int| 0 <= k < cur.len() && cur[k] == i as usize;
                if k < prev.len() {
                    assert(prev[k] == i as usize);
                    assert(prev.contains(i as usize));
                } else {
                    assert(i == n - 1);
                }
            }
        }
    }
}

/// Once every detection has been marked as viewed, none is reported as unviewed:
/// asking for the unviewed detections a second time, after a call that marked
/// them, gives nothing.
pub proof fn law_marked_detections_are_not_reported_again<T>(ds: Seq<Detection<T>>)
    ensures
        unviewed_indices(marked(ds, true), ds.len() as int) == Seq::<usize>::empty(),
{
    let m = marked(ds, true);
    assert forall|n: int| 0 <= n <= ds.len() implies unviewed_indices(m, n) == Seq::<usize>::empty() by {
        lemma_all_viewed_prefix(m, n);
    }
}

proof fn lemma_all_viewed_prefix<T>(m: Seq<Detection<T>>, n: int)
    requires
        0 <= n <= m.len(),
        forall|j: int| 0 <= j < m.len() ==> m[j].viewed,
    ensures
        unviewed_indices(m, n) == Seq::<usize>::empty(),
    decreases n,
{
    if n > 0 {
        lemma_all_viewed_prefix(m, n - 1);
    }
}

/// Looking without marking changes nothing, and marking never changes how many
/// detections there are nor what they hold.
pub proof fn law_viewing_keeps_findings<T>(ds: Seq<Detection<T>>, mark: bool)
    ensures
        marked(ds, false) == ds,
        marked(ds, mark).len() == ds.len(),
        forall|i: int| 0 <= i < ds.len() ==> #[trigger] marked(ds, mark)[i].data == ds[i].data,
{
    assert(marked(ds, false) =~= ds);
}

/// A detection just added is reported as unviewed, after all those that were
/// unviewed before it.
pub proof fn law_added_detection_is_unviewed<T>(ds: Seq<Detection<T>>, data: T)
    requires
        ds.len() < usize::MAX,
    ensures
        unviewed_indices(
            ds.push(Detection { viewed: false, data }),
            (ds.len() + 1) as int,
        ) == unviewed_indices(ds, ds.len() as int).push(ds.len() as usize),
{
    let es = ds.push(Detection { viewed: false, data });
    lemma_unviewed_prefix(ds, es, ds.len() as int);
}

impl<T> Default for DbStruct<T> {
    /// No version and no detections.
    fn default() -> (s: Self)
        ensures
            s.version@ == Seq::<char>::empty(),
            s.detections@ == Seq::<Detection<T>>::empty(),
    {
        DbStruct { version: String::new(), detections: Vec::new() }
    }
}

impl<T> DbStruct<T> {
    /// The contents a database file gets when it is created: the current
    /// version and no detections.
    pub fn initial() -> (s: Self)
        ensures
            s.version@ == DB_VERSION@,
            s.detections@ == Seq::<Detection<T>>::empty(),
    {
        DbStruct { version: String::from_str(DB_VERSION), detections: Vec::new() }
    }
}

impl<T> HoggDatabase<T> {
    /// The database read from `path`, configured by the `database` part of `config`.
    pub fn from_structure(path: String, structure: DbStruct<T>, config: HoggConfig) -> (db: Self)
        ensures
            db.path == path,
            db.structure == structure,
            db.config == config.database,
    {
        HoggDatabase { path, structure, config: config.database }
    }

    /// The database read from `path`, with the default settings.
    pub fn from_structure_unconfigured(path: String, structure: DbStruct<T>) -> (db: Self)
        ensures
            db.path == path,
            db.structure == structure,
            !db.config.save_detections,
            !db.config.detections_limiter_enabled,
            db.config.max_detections == 0,
    {
        HoggDatabase { path, structure, config: DatabaseConfig::default() }
    }

    /// Appends `detection` as a new, not yet viewed, detection.
    pub fn add_detection(&mut self, detection: T)
        ensures
            final(self).structure.detections@ == old(self).structure.detections@.push(
                Detection { viewed: false, data: detection },
            ),
            final(self).structure.version == old(self).structure.version,
            final(self).path == old(self).path,
            final(self).config == old(self).config,
    {
        self.structure.detections.push(Detection { viewed: false, data: detection });
    }

    /// Records a finding of a scan when the database is set to save
    /// detections, as a new unviewed detection; tells whether it did.
    pub fn record_finding(&mut self, detection: T) -> (saved: bool)
        ensures
            saved == old(self).config.save_detections,
            saved ==> final(self).structure.detections@ == old(self).structure.detections@.push(
                Detection { viewed: false, data: detection },
            ),
            !saved ==> final(self).structure.detections@ == old(self).structure.detections@,
            final(self).structure.version == old(self).structure.version,
            final(self).path == old(self).path,
            final(self).config == old(self).config,
    {
        if self.config.save_detections {
            self.add_detection(detection);
            true
        } else {
            false
        }
    }

    /// Removes every detection.
    pub fn flush_detections(&mut self)
        ensures
            final(self).structure.detections@ == Seq::<Detection<T>>::empty(),
            final(self).structure.version == old(self).structure.version,
            final(self).path == old(self).path,
            final(self).config == old(self).config,
    {
        self.structure.detections.clear();
    }

    /// The positions of the detections that nobody has viewed yet, in order;
    /// when `mark_as_viewed` holds, they are all marked as viewed.
    pub fn get_unviewed_detections(&mut self, mark_as_viewed: bool) -> (r: Vec<usize>)
        ensures
            r@ == unviewed_indices(
                old(self).structure.detections@,
                old(self).structure.detections@.len() as int,
            ),
            final(self).structure.detections@ == marked(
                old(self).structure.detections@,
                mark_as_viewed,
            ),
            final(self).structure.version == old(self).structure.version,
            final(self).path == old(self).path,
            final(self).config == old(self).config,
    {
        let ghost ds0 = self.structure.detections@;
        let n = self.structure.detections.len();
        let mut r: Vec<usize> = Vec::new();
        let mut i: usize = 0;
        while i < n
            invariant
                n == ds0.len(),
                i <= n,
                self.structure.detections@.len() == n,
                r@ == unviewed_indices(ds0, i as int),
                forall|j: int| 0 <= j < i ==> self.structure.detections@[j] == #[trigger] marked(ds0, mark_as_viewed)[j],
                forall|j: int| i <= j < n ==> self.structure.detections@[j] == ds0[j],
                self.structure.version == old(self).structure.version,
                self.path == old(self).path,
                self.config == old(self).config,
                ds0 == old(self).structure.detections@,
            decreases n - i,
        {
            if !self.structure.detections[i].viewed {
                if mark_as_viewed {
                    self.structure.detections[i].viewed = true;
                }
                r.push(i);
            }
            i = i + 1;
        }
        assert(self.structure.detections@ =~= marked(ds0, mark_as_viewed));
        r
    }

    /// The `limit` detections that start at position `offset`.
    pub fn get_detections(&self, offset: usize, limit: usize) -> (r: Vec<&Detection<T>>)
        requires
            offset + limit <= self.structure.detections@.len(),
        ensures
            r@.len() == limit,
            forall|i: int| 0 <= i < limit ==> *r@[i] == self.structure.detections@[offset + i],
    {
        let mut r: Vec<&Detection<T>> = Vec::new();
        let mut i: usize = 0;
        while i < limit
            invariant
                i <= limit,
                offset + limit <= self.structure.detections.len(),
                r@.len() == i,
                forall|j: int| 0 <= j < i ==> *r@[j] == self.structure.detections@[offset + j],
            decreases limit - i,
        {
            r.push(&self.structure.detections[offset + i]);
            i = i + 1;
        }
        r
    }
}

} // verus!
