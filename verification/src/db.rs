use vstd::prelude::*;

verus! {

/// A wallpaper that was fetched or applied.
#[derive(Debug, Clone)]
pub struct Wallpaper {
    pub id: i64,
    pub source: String,
    pub source_id: String,
    pub photographer: Option<String>,
    pub title: Option<String>,
    pub source_url: Option<String>,
    pub file_path: String,
    pub is_local: bool,
    pub width: Option<i64>,
    pub height: Option<i64>,
    pub fetched_at: i64,
}

/// One application of a wallpaper.
#[derive(Debug, Clone)]
pub struct HistoryEntry {
    pub history_id: i64,
    pub wallpaper: Wallpaper,
    pub set_at: i64,
    pub display_id: Option<String>,
}

/// A named set of search tags.
#[derive(Debug, Clone)]
pub struct Collection {
    pub id: i64,
    pub name: String,
    pub tags: Vec<String>,
}

/// The number of schema migrations that the application ships.
pub const MIGRATION_COUNT: usize = 6;

/// The versions still to apply, in order, to a database at schema version
/// `current`, when `count` migrations exist (numbered 1 to `count`).
pub open spec fn pending_spec(current: int, count: int) -> Seq<int> {
    let start = if current < 0 { 0 } else { current };
    if start >= count {
        Seq::empty()
    } else {
        Seq::new((count - start) as nat, |j: int| start + 1 + j)
    }
}

/// The schema version a database is at after the pending migrations were applied.
pub open spec fn version_after(current: int, count: int) -> int {
    if current < count { count } else { current }
}

/// The versions of the migrations to run on a database at version `current`:
/// each `v` in `1..=count` with `v > current`, in increasing order.
pub fn pending_migrations(current: i64, count: usize) -> (r: Vec<i64>)
    requires
        count <= i64::MAX,
    ensures
        r@.len() == pending_spec(current as int, count as int).len(),
        forall|j: int| 0 <= j < r@.len() ==> r@[j] as int == pending_spec(current as int, count as int)[j],
{
    let mut out: Vec<i64> = Vec::new();
    let mut i: usize = 0;
    let ghost start: int = if current < 0 { 0 } else { current as int };
    while i < count
        invariant
            i <= count,
            count <= i64::MAX,
            start == (if current < 0 { 0 } else { current as int }),
            out@.len() == (if i as int <= start { 0 } else { i - start }),
            forall|j: int| 0 <= j < out@.len() ==> out@[j] as int == start + 1 + j,
        decreases count - i,
    {
        let v: i64 = (i + 1) as i64;
        if v > current {
            out.push(v);
        }
        i = i + 1;
    }
    out
}

/// Running the migrations twice does nothing the second time: once the
/// pending ones are applied, none is pending; and no version is applied twice.
pub proof fn law_migrations_idempotent(current: int, count: int)
    requires
        count >= 0,
    ensures
        pending_spec(version_after(current, count), count).len() == 0,
        forall|j: int, k: int|
            0 <= j < k < pending_spec(current, count).len() ==> pending_spec(current, count)[j]
                < pending_spec(current, count)[k],
        forall|j: int|
            0 <= j < pending_spec(current, count).len() ==> current < #[trigger] pending_spec(current, count)[j]
                <= count,
{
}

/// The tags of the collection `active` names; none when no collection has that id.
pub open spec fn tags_of(collections: Seq<Collection>, active: Option<i64>) -> Seq<String>
    decreases collections.len(),
{
    match active {
        None => Seq::empty(),
        Some(id) => if collections.len() == 0 {
            Seq::empty()
        } else if collections[0].id == id {
            collections[0].tags@
        } else {
            tags_of(collections.skip(1), active)
        },
    }
}

/// A copy of a list of strings.
pub fn clone_strings(v: &Vec<String>) -> (r: Vec<String>)
    ensures
        r@ == v@,
{
    let mut out: Vec<String> = Vec::new();
    let mut i: usize = 0;
    while i < v.len()
        invariant
            i <= v@.len(),
            out@ == v@.take(i as int),
        decreases v@.len() - i,
    {
        out.push(v[i].clone());
        assert(v@.take(i + 1) =~= v@.take(i as int).push(v@[i as int]));
        i = i + 1;
    }
    assert(v@.take(i as int) =~= v@);
    out
}

/// The tags of the first collection whose id is `active`.
pub fn tags_for(collections: &Vec<Collection>, active: Option<i64>) -> (r: Vec<String>)
    ensures
        r@ == tags_of(collections@, active),
{
    match active {
        None => Vec::new(),
        Some(id) => {
            let mut i: usize = 0;
            assert(collections@.skip(0) =~= collections@);
            while i < collections.len()
                invariant
                    i <= collections@.len(),
                    active == Some(id),
                    tags_of(collections@, active) == tags_of(collections@.skip(i as int), active),
                decreases collections@.len() - i,
            {
                assert(collections@.skip(i as int)[0] == collections@[i as int]);
                if collections[i].id == id {
                    return clone_strings(&collections[i].tags);
                }
                assert(collections@.skip(i as int).skip(1) =~= collections@.skip(i + 1));
                i = i + 1;
            }
            Vec::new()
        },
    }
}

/// The tags of the active collection are those of the first collection in
/// the list whose id is the active id, wherever it stands; none when no
/// collection has that id, or when there is no active collection.
pub proof fn law_tags_of_active(c: Seq<Collection>, id: i64, i: int)
    ensures
        0 <= i < c.len() && c[i].id == id && (forall|j: int| 0 <= j < i ==> (#[trigger] c[j]).id != id)
            ==> tags_of(c, Some(id)) == c[i].tags@,
        (forall|j: int| 0 <= j < c.len() ==> (#[trigger] c[j]).id != id) ==> tags_of(c, Some(id)) == Seq::<String>::empty(),
        tags_of(c, None) == Seq::<String>::empty(),
    decreases c.len(),
{
    if c.len() > 0 {
        let t = c.skip(1);
        assert forall|j: int| 0 <= j < t.len() implies #[trigger] t[j] == c[j + 1] by {}
        if 0 <= i < c.len() && c[i].id == id && (forall|j: int| 0 <= j < i ==> (#[trigger] c[j]).id != id) {
            if i > 0 {
                assert(c[0].id != id);
                assert forall|j: int| 0 <= j < i - 1 implies (#[trigger] t[j]).id != id by {
                    assert(t[j] == c[j + 1]);
                }
                assert(t[i - 1] == c[i]);
                law_tags_of_active(t, id, i - 1);
            }
        }
        if forall|j: int| 0 <= j < c.len() ==> (#[trigger] c[j]).id != id {
            assert(c[0].id != id);
            assert forall|j: int| 0 <= j < t.len() implies (#[trigger] t[j]).id != id by {
                assert(t[j] == c[j + 1]);
            }
            law_tags_of_active(t, id, i - 1);
        }
    }
}

} // verus!
