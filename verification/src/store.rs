//! The repository of pastes, and an in-memory one.
//!
//! A repository is a finite map from slugs to pastes together with the last
//! id that it gave out. [`StoreView`] is that model and says what each
//! operation does to it; [`PasteStore`] keeps the pastes in a vector and is
//! proved to behave as the model says. Inserting is one step: whether the slug
//! is free is decided by the insert itself, never by an earlier look.

use crate::lookup::{id_of, lookup_plan, plan_view, Query, QueryView};
use crate::pasta::{NewPasta, NewPastaView, Pasta, PastaView};
use vstd::prelude::*;

verus! {

/// The state of a repository.
pub struct StoreView {
    /// The pastes, each under its slug.
    pub pastes: Map<Seq<char>, PastaView>,
    /// The last id given out; 0 before the first insert.
    pub last_id: u32,
}

impl StoreView {
    /// The state of a repository that nothing was ever inserted into.
    pub open spec fn empty() -> StoreView {
        StoreView { pastes: Map::empty(), last_id: 0 }
    }

    /// What holds of every repository: it is finite, each paste is filed
    /// under its own slug, ids start at 1 and none was given out twice.
    pub open spec fn wf(self) -> bool {
        &&& self.pastes.dom().finite()
        &&& forall|slug: Seq<char>| #[trigger]
            self.pastes.dom().contains(slug) ==> {
                &&& self.pastes[slug].slug == slug
                &&& 1 <= self.pastes[slug].id <= self.last_id
            }
        &&& forall|a: Seq<char>, b: Seq<char>|
            #![trigger self.pastes[a], self.pastes[b]]
            self.pastes.dom().contains(a) && self.pastes.dom().contains(b) && self.pastes[a].id
                == self.pastes[b].id ==> a == b
    }

    /// Some paste has this slug.
    pub open spec fn has_slug(self, slug: Seq<char>) -> bool {
        self.pastes.dom().contains(slug)
    }

    /// The paste with this slug, if there is one.
    pub open spec fn find_by_slug(self, slug: Seq<char>) -> Option<PastaView> {
        if self.has_slug(slug) {
            Some(self.pastes[slug])
        } else {
            None
        }
    }

    /// The paste under `slug` has this id.
    pub open spec fn holds_id(self, slug: Seq<char>, id: u32) -> bool {
        self.pastes.dom().contains(slug) && self.pastes[slug].id == id
    }

    /// The paste with this id, if there is one.
    pub open spec fn find_by_id(self, id: u32) -> Option<PastaView> {
        if exists|slug: Seq<char>| self.holds_id(slug, id) {
            Some(self.pastes[choose|slug: Seq<char>| self.holds_id(slug, id)])
        } else {
            None
        }
    }

    /// The answer to one query.
    pub open spec fn answer(self, query: QueryView) -> Option<PastaView> {
        match query {
            QueryView::Slug(slug) => self.find_by_slug(slug),
            QueryView::Id(id) => self.find_by_id(id),
        }
    }

    /// The paste that an identifier stands for: the one with that slug, else
    /// the one with the id that the identifier denotes.
    pub open spec fn resolve(self, identifier: Seq<char>) -> Option<PastaView> {
        match self.find_by_slug(identifier) {
            Some(found) => Some(found),
            None => match id_of(identifier) {
                Some(id) => self.find_by_id(id),
                None => None,
            },
        }
    }

    /// No id is left to give out.
    pub open spec fn ids_exhausted(self) -> bool {
        self.last_id == u32::MAX
    }

    /// The id that the next insert gives out.
    pub open spec fn next_id(self) -> u32 {
        (self.last_id + 1) as u32
    }

    /// The state after `new` was stored under the next id.
    pub open spec fn inserted(self, new: NewPastaView) -> StoreView {
        StoreView {
            pastes: self.pastes.insert(new.slug, new.with_id(self.next_id())),
            last_id: self.next_id(),
        }
    }

    /// The state after the paste under `slug` was removed. Its id is not
    /// given out again.
    pub open spec fn removed(self, slug: Seq<char>) -> StoreView {
        StoreView { pastes: self.pastes.remove(slug), last_id: self.last_id }
    }

    /// The outcome of an insert and the state after it.
    pub open spec fn insert(self, new: NewPastaView) -> (InsertOutcomeView, StoreView) {
        if self.has_slug(new.slug) {
            (InsertOutcomeView::Conflict, self)
        } else if self.ids_exhausted() {
            (InsertOutcomeView::Failed, self)
        } else {
            (InsertOutcomeView::Inserted(new.with_id(self.next_id())), self.inserted(new))
        }
    }

    /// The outcome of a query. The model never fails.
    pub open spec fn lookup(self, query: QueryView) -> LookupOutcomeView {
        match self.answer(query) {
            Some(found) => LookupOutcomeView::Found(found),
            None => LookupOutcomeView::Missing,
        }
    }

    /// The outcome of deleting the paste with this id, and the state after
    /// it.
    pub open spec fn delete_by_id(self, id: u32) -> (DeleteOutcome, StoreView) {
        match self.find_by_id(id) {
            Some(found) => (DeleteOutcome::Removed, self.removed(found.slug)),
            None => (DeleteOutcome::Missing, self),
        }
    }

    /// The state after the paste that `identifier` stands for, if any, was
    /// deleted.
    pub open spec fn delete(self, identifier: Seq<char>) -> StoreView {
        match self.resolve(identifier) {
            Some(found) => self.removed(found.slug),
            None => self,
        }
    }
}

/// An insert leaves a repository well formed.
pub proof fn lemma_insert_wf(store: StoreView, new: NewPastaView)
    requires
        store.wf(),
    ensures
        store.insert(new).1.wf(),
{
    let after = store.insert(new).1;
    if after != store {
        assert forall|slug: Seq<char>| #[trigger] after.pastes.dom().contains(slug) implies {
            &&& after.pastes[slug].slug == slug
            &&& 1 <= after.pastes[slug].id <= after.last_id
        } by {
            if slug != new.slug {
                assert(store.pastes.dom().contains(slug));
            }
        }
        assert forall|a: Seq<char>, b: Seq<char>|
            #![trigger after.pastes[a], after.pastes[b]]
            after.pastes.dom().contains(a) && after.pastes.dom().contains(b) && after.pastes[a].id
                == after.pastes[b].id implies a == b by {
            if a != new.slug {
                assert(store.pastes.dom().contains(a));
            }
            if b != new.slug {
                assert(store.pastes.dom().contains(b));
            }
        }
    }
}

/// A delete leaves a repository well formed.
pub proof fn lemma_delete_wf(store: StoreView, identifier: Seq<char>)
    requires
        store.wf(),
    ensures
        store.delete(identifier).wf(),
{
    let after = store.delete(identifier);
    assert forall|slug: Seq<char>| #[trigger] after.pastes.dom().contains(slug) implies {
        &&& after.pastes[slug].slug == slug
        &&& 1 <= after.pastes[slug].id <= after.last_id
    } by {
        assert(store.pastes.dom().contains(slug));
    }
    assert forall|a: Seq<char>, b: Seq<char>|
        #![trigger after.pastes[a], after.pastes[b]]
        after.pastes.dom().contains(a) && after.pastes.dom().contains(b) && after.pastes[a].id
            == after.pastes[b].id implies a == b by {
        assert(store.pastes.dom().contains(a));
        assert(store.pastes.dom().contains(b));
    }
}

/// What an identifier stands for is a paste of the repository, filed under
/// its slug.
pub proof fn lemma_resolve_is_stored(store: StoreView, identifier: Seq<char>)
    requires
        store.wf(),
        store.resolve(identifier) is Some,
    ensures
        store.has_slug(store.resolve(identifier)->0.slug),
        store.pastes[store.resolve(identifier)->0.slug] == store.resolve(identifier)->0,
{
    if store.find_by_slug(identifier) is None {
        let id = id_of(identifier)->0;
        let slug = choose|slug: Seq<char>| store.holds_id(slug, id);
        assert(store.holds_id(slug, id));
    }
}

/// A paste of the repository is the one that its id finds.
pub proof fn lemma_found_by_own_id(store: StoreView, slug: Seq<char>)
    requires
        store.wf(),
        store.has_slug(slug),
    ensures
        store.find_by_id(store.pastes[slug].id) == Some(store.pastes[slug]),
{
    let id = store.pastes[slug].id;
    assert(store.holds_id(slug, id));
    let chosen = choose|other: Seq<char>| store.holds_id(other, id);
    assert(store.holds_id(chosen, id));
    assert(store.pastes[chosen].id == store.pastes[slug].id);
}

/// Deleting the paste that an identifier stands for is deleting by its id.
pub proof fn lemma_delete_is_by_id(store: StoreView, identifier: Seq<char>)
    requires
        store.wf(),
        store.resolve(identifier) is Some,
    ensures
        store.delete_by_id(store.resolve(identifier)->0.id) == (
            DeleteOutcome::Removed,
            store.delete(identifier),
        ),
{
    lemma_resolve_is_stored(store, identifier);
    lemma_found_by_own_id(store, store.resolve(identifier)->0.slug);
}

/// Ids are not given out twice: a paste that is stored gets an id above
/// that of every paste in the repository, and above the last id given out,
/// which a delete does not lower.
pub proof fn lemma_ids_not_reused(store: StoreView, identifier: Seq<char>, new: NewPastaView)
    requires
        store.wf(),
    ensures
        store.delete(identifier).last_id == store.last_id,
        store.insert(new).1.last_id >= store.last_id,
        store.insert(new).0 matches InsertOutcomeView::Inserted(stored) ==> {
            &&& stored.id > store.last_id
            &&& forall|slug: Seq<char>| #[trigger]
                store.has_slug(slug) ==> store.pastes[slug].id < stored.id
        },
        store.resolve(identifier) matches Some(gone) ==> (store.delete(identifier).insert(new).0
            matches InsertOutcomeView::Inserted(stored) ==> stored.id != gone.id),
{
    if store.resolve(identifier) is Some {
        lemma_resolve_is_stored(store, identifier);
    }
}

/// How an insert ended.
#[derive(Debug)]
pub enum InsertOutcome {
    /// The paste was stored; this is the stored row.
    Inserted(Pasta),
    /// The slug is taken. Nothing was stored.
    Conflict,
    /// Storage failed. Nothing was stored.
    Failed,
}

/// What an [`InsertOutcome`] holds, as plain values.
pub enum InsertOutcomeView {
    Inserted(PastaView),
    Conflict,
    Failed,
}

impl View for InsertOutcome {
    type V = InsertOutcomeView;

    open spec fn view(&self) -> InsertOutcomeView {
        match self {
            InsertOutcome::Inserted(stored) => InsertOutcomeView::Inserted(stored@),
            InsertOutcome::Conflict => InsertOutcomeView::Conflict,
            InsertOutcome::Failed => InsertOutcomeView::Failed,
        }
    }
}

/// How a query ended.
#[derive(Debug)]
pub enum LookupOutcome {
    /// This paste answers the query.
    Found(Pasta),
    /// No paste answers the query.
    Missing,
    /// Storage failed.
    Failed,
}

/// What a [`LookupOutcome`] holds, as plain values.
pub enum LookupOutcomeView {
    Found(PastaView),
    Missing,
    Failed,
}

impl View for LookupOutcome {
    type V = LookupOutcomeView;

    open spec fn view(&self) -> LookupOutcomeView {
        match self {
            LookupOutcome::Found(paste) => LookupOutcomeView::Found(paste@),
            LookupOutcome::Missing => LookupOutcomeView::Missing,
            LookupOutcome::Failed => LookupOutcomeView::Failed,
        }
    }
}

/// How a delete ended.
#[derive(Debug, Clone, Copy, PartialEq, Eq, Structural)]
pub enum DeleteOutcome {
    /// The paste was removed.
    Removed,
    /// There was no such paste. Nothing was removed.
    Missing,
    /// Storage failed. Nothing was removed.
    Failed,
}

/// Some row has this slug.
spec fn slug_at(rows: Seq<PastaView>, slug: Seq<char>, i: int) -> bool {
    0 <= i < rows.len() && rows[i].slug == slug
}

/// The map from slugs to rows.
spec fn rows_map(rows: Seq<PastaView>) -> Map<Seq<char>, PastaView> {
    Map::new(
        |slug: Seq<char>| exists|i: int| slug_at(rows, slug, i),
        |slug: Seq<char>| rows[choose|i: int| slug_at(rows, slug, i)],
    )
}

/// No two rows share a slug; ids ascend from 1 and stay within `last_id`.
spec fn rows_wf(rows: Seq<PastaView>, last_id: u32) -> bool {
    &&& forall|i: int, j: int|
        0 <= i < j < rows.len() ==> (#[trigger] rows[i]).slug != (#[trigger] rows[j]).slug
    &&& forall|i: int, j: int|
        0 <= i < j < rows.len() ==> (#[trigger] rows[i]).id < (#[trigger] rows[j]).id
    &&& forall|i: int| 0 <= i < rows.len() ==> 1 <= (#[trigger] rows[i]).id <= last_id
}

/// Each row is filed under its slug.
proof fn lemma_row_filed(rows: Seq<PastaView>, last_id: u32, i: int)
    requires
        rows_wf(rows, last_id),
        0 <= i < rows.len(),
    ensures
        rows_map(rows).dom().contains(rows[i].slug),
        rows_map(rows)[rows[i].slug] == rows[i],
{
    let slug = rows[i].slug;
    assert(slug_at(rows, slug, i));
    let k = choose|k: int| slug_at(rows, slug, k);
    assert(slug_at(rows, slug, k));
    if k < i {
        assert(rows[k].slug != rows[i].slug);
    } else if i < k {
        assert(rows[i].slug != rows[k].slug);
    }
}

/// Each filed paste is a row.
proof fn lemma_filed_row(rows: Seq<PastaView>, last_id: u32, slug: Seq<char>) -> (i: int)
    requires
        rows_wf(rows, last_id),
        rows_map(rows).dom().contains(slug),
    ensures
        slug_at(rows, slug, i),
        rows_map(rows)[slug] == rows[i],
{
    let i = choose|i: int| slug_at(rows, slug, i);
    assert(slug_at(rows, slug, i));
    lemma_row_filed(rows, last_id, i);
    i
}

/// The map of well-formed rows is a well-formed repository with as many
/// pastes as there are rows.
proof fn lemma_rows_map_wf(rows: Seq<PastaView>, last_id: u32)
    requires
        rows_wf(rows, last_id),
    ensures
        (StoreView { pastes: rows_map(rows), last_id }).wf(),
        rows_map(rows).dom().len() == rows.len(),
{
    let pastes = rows_map(rows);
    let slugs = Seq::new(rows.len(), |i: int| rows[i].slug);
    assert(pastes.dom() =~= slugs.to_set()) by {
        assert forall|slug: Seq<char>| pastes.dom().contains(slug) implies slugs.to_set().contains(
            slug,
        ) by {
            let i = lemma_filed_row(rows, last_id, slug);
            assert(slugs[i] == slug);
        }
        assert forall|slug: Seq<char>| slugs.to_set().contains(slug) implies pastes.dom().contains(
            slug,
        ) by {
            let i = choose|i: int| 0 <= i < slugs.len() && slugs[i] == slug;
            assert(slug_at(rows, slug, i));
        }
    }
    vstd::seq_lib::seq_to_set_is_finite(slugs);
    assert(slugs.no_duplicates()) by {
        assert forall|i: int, j: int|
            0 <= i < slugs.len() && 0 <= j < slugs.len() && i != j implies slugs[i] != slugs[j] by {
            if i < j {
                assert(rows[i].slug != rows[j].slug);
            } else {
                assert(rows[j].slug != rows[i].slug);
            }
        }
    }
    slugs.unique_seq_to_set();
    assert forall|slug: Seq<char>| #[trigger] pastes.dom().contains(slug) implies {
        &&& pastes[slug].slug == slug
        &&& 1 <= pastes[slug].id <= last_id
    } by {
        let i = lemma_filed_row(rows, last_id, slug);
    }
    assert forall|a: Seq<char>, b: Seq<char>|
        #![trigger pastes[a], pastes[b]]
        pastes.dom().contains(a) && pastes.dom().contains(b) && pastes[a].id
            == pastes[b].id implies a == b by {
        let i = lemma_filed_row(rows, last_id, a);
        let j = lemma_filed_row(rows, last_id, b);
        if i < j {
            assert(rows[i].id < rows[j].id);
        } else if j < i {
            assert(rows[j].id < rows[i].id);
        }
    }
}

/// Appending a row with a free slug files it and leaves the rest as it was.
proof fn lemma_rows_map_push(rows: Seq<PastaView>, last_id: u32, row: PastaView, next: u32)
    requires
        rows_wf(rows, last_id),
        !rows_map(rows).dom().contains(row.slug),
        last_id < row.id <= next,
    ensures
        rows_wf(rows.push(row), next),
        rows_map(rows.push(row)) == rows_map(rows).insert(row.slug, row),
{
    let longer = rows.push(row);
    assert forall|i: int| 0 <= i < rows.len() implies (#[trigger] rows[i]).slug != row.slug by {
        lemma_row_filed(rows, last_id, i);
    }
    assert(rows_wf(longer, next));
    assert(rows_map(longer) =~= rows_map(rows).insert(row.slug, row)) by {
        assert forall|slug: Seq<char>|
            rows_map(longer).dom().contains(slug) <==> rows_map(rows).insert(
                row.slug,
                row,
            ).dom().contains(slug) by {
            if rows_map(longer).dom().contains(slug) {
                let i = lemma_filed_row(longer, next, slug);
                if i < rows.len() {
                    assert(slug_at(rows, slug, i));
                }
            }
            if rows_map(rows).dom().contains(slug) {
                let i = lemma_filed_row(rows, last_id, slug);
                assert(slug_at(longer, slug, i));
            }
            if slug == row.slug {
                assert(slug_at(longer, slug, rows.len() as int));
            }
        }
        assert forall|slug: Seq<char>| rows_map(longer).dom().contains(slug) implies rows_map(
            longer,
        )[slug] == rows_map(rows).insert(row.slug, row)[slug] by {
            let i = lemma_filed_row(longer, next, slug);
            if i < rows.len() {
                lemma_row_filed(rows, last_id, i);
            }
        }
    }
}

/// Taking a row out removes its paste and leaves the rest as it was.
proof fn lemma_rows_map_remove(rows: Seq<PastaView>, last_id: u32, at: int)
    requires
        rows_wf(rows, last_id),
        0 <= at < rows.len(),
    ensures
        rows_wf(rows.remove(at), last_id),
        rows_map(rows.remove(at)) == rows_map(rows).remove(rows[at].slug),
{
    let shorter = rows.remove(at);
    let from = |i: int| if i < at { i } else { i + 1 };
    assert forall|i: int| 0 <= i < shorter.len() implies #[trigger] shorter[i] == rows[from(i)] by {}
    assert(rows_wf(shorter, last_id)) by {
        assert forall|i: int, j: int| 0 <= i < j < shorter.len() implies (#[trigger] shorter[i]).slug
            != (#[trigger] shorter[j]).slug by {
            assert(rows[from(i)].slug != rows[from(j)].slug);
        }
        assert forall|i: int, j: int| 0 <= i < j < shorter.len() implies (#[trigger] shorter[i]).id
            < (#[trigger] shorter[j]).id by {
            assert(rows[from(i)].id < rows[from(j)].id);
        }
        assert forall|i: int| 0 <= i < shorter.len() implies 1 <= (#[trigger] shorter[i]).id
            <= last_id by {
            assert(1 <= rows[from(i)].id <= last_id);
        }
    }
    let gone = rows[at].slug;
    assert(rows_map(shorter) =~= rows_map(rows).remove(gone)) by {
        assert forall|slug: Seq<char>|
            rows_map(shorter).dom().contains(slug) <==> rows_map(rows).remove(gone).dom().contains(
                slug,
            ) by {
            if rows_map(shorter).dom().contains(slug) {
                let i = lemma_filed_row(shorter, last_id, slug);
                assert(slug_at(rows, slug, from(i)));
                if from(i) < at {
                    assert(rows[from(i)].slug != rows[at].slug);
                } else {
                    assert(rows[at].slug != rows[from(i)].slug);
                }
            }
            if rows_map(rows).remove(gone).dom().contains(slug) {
                let k = lemma_filed_row(rows, last_id, slug);
                let i = if k < at { k } else { k - 1 };
                assert(shorter[i] == rows[from(i)]);
                assert(slug_at(shorter, slug, i));
            }
        }
        assert forall|slug: Seq<char>| rows_map(shorter).dom().contains(slug) implies rows_map(
            shorter,
        )[slug] == rows_map(rows).remove(gone)[slug] by {
            let i = lemma_filed_row(shorter, last_id, slug);
            lemma_row_filed(rows, last_id, from(i));
        }
    }
}

/// An in-memory repository.
#[derive(Debug)]
pub struct PasteStore {
    rows: Vec<Pasta>,
    last_id: u32,
}

impl View for PasteStore {
    type V = StoreView;

    closed spec fn view(&self) -> StoreView {
        StoreView { pastes: rows_map(self.row_views()), last_id: self.last_id }
    }
}

impl PasteStore {
    /// The rows as plain values.
    spec fn row_views(&self) -> Seq<PastaView> {
        Seq::new(self.rows@.len(), |i: int| self.rows@[i]@)
    }

    /// The invariant of the store.
    pub closed spec fn wf(&self) -> bool {
        rows_wf(self.row_views(), self.last_id)
    }

    /// A well-formed store holds a well-formed repository.
    pub proof fn lemma_view_wf(&self)
        requires
            self.wf(),
        ensures
            self@.wf(),
    {
        lemma_rows_map_wf(self.row_views(), self.last_id);
    }

    /// An empty store.
    pub fn new() -> (store: Self)
        ensures
            store.wf(),
            store@ == StoreView::empty(),
    {
        let store = PasteStore { rows: Vec::new(), last_id: 0 };
        assert(store@.pastes =~= Map::empty());
        store
    }

    /// The number of pastes.
    pub fn len(&self) -> (count: usize)
        requires
            self.wf(),
        ensures
            count == self@.pastes.dom().len(),
    {
        proof {
            lemma_rows_map_wf(self.row_views(), self.last_id);
        }
        self.rows.len()
    }

    /// The place of the row with this slug.
    fn position_by_slug(&self, slug: &String) -> (at: Option<usize>)
        requires
            self.wf(),
        ensures
            match at {
                Some(i) => i < self.rows@.len() && self.rows@[i as int].slug@ == slug@
                    && self@.find_by_slug(slug@) == Some(self.rows@[i as int]@),
                None => self@.find_by_slug(slug@) is None,
            },
    {
        let mut i: usize = 0;
        while i < self.rows.len()
            invariant
                i <= self.rows@.len(),
                self.wf(),
                forall|j: int| 0 <= j < i ==> (#[trigger] self.rows@[j]).slug@ != slug@,
            decreases self.rows@.len() - i,
        {
            if self.rows[i].slug == *slug {
                proof {
                    assert(self.row_views()[i as int] == self.rows@[i as int]@);
                    lemma_row_filed(self.row_views(), self.last_id, i as int);
                }
                return Some(i);
            }
            i += 1;
        }
        proof {
            if self@.pastes.dom().contains(slug@) {
                let k = lemma_filed_row(self.row_views(), self.last_id, slug@);
                assert(self.rows@[k].slug@ != slug@);
            }
        }
        None
    }

    /// The place of the row with this id.
    fn position_by_id(&self, id: u32) -> (at: Option<usize>)
        requires
            self.wf(),
        ensures
            match at {
                Some(i) => i < self.rows@.len() && self.rows@[i as int].id == id
                    && self@.find_by_id(id) == Some(self.rows@[i as int]@),
                None => self@.find_by_id(id) is None,
            },
    {
        let mut i: usize = 0;
        while i < self.rows.len()
            invariant
                i <= self.rows@.len(),
                self.wf(),
                forall|j: int| 0 <= j < i ==> (#[trigger] self.rows@[j]).id != id,
            decreases self.rows@.len() - i,
        {
            if self.rows[i].id == id {
                proof {
                    let rows = self.row_views();
                    assert(rows[i as int] == self.rows@[i as int]@);
                    lemma_row_filed(rows, self.last_id, i as int);
                    assert(self@.holds_id(rows[i as int].slug, id));
                    let chosen = choose|slug: Seq<char>| self@.holds_id(slug, id);
                    let k = lemma_filed_row(rows, self.last_id, chosen);
                    if k < i {
                        assert(rows[k].id < rows[i as int].id);
                    } else if i < k {
                        assert(rows[i as int].id < rows[k].id);
                    }
                }
                return Some(i);
            }
            i += 1;
        }
        proof {
            if exists|slug: Seq<char>| self@.holds_id(slug, id) {
                let chosen = choose|slug: Seq<char>| self@.holds_id(slug, id);
                let k = lemma_filed_row(self.row_views(), self.last_id, chosen);
                assert(self.rows@[k].id != id);
            }
        }
        None
    }

    /// Whether some paste has this slug.
    pub fn exists_by_slug(&self, slug: &str) -> (taken: bool)
        requires
            self.wf(),
        ensures
            taken == self@.has_slug(slug@),
    {
        let key = slug.to_owned();
        self.position_by_slug(&key).is_some()
    }

    /// The paste with this slug, if there is one.
    pub fn find_by_slug(&self, slug: &str) -> (found: Option<&Pasta>)
        requires
            self.wf(),
        ensures
            found is Some <==> self@.has_slug(slug@),
            found matches Some(paste) ==> self@.find_by_slug(slug@) == Some(paste@),
    {
        let key = slug.to_owned();
        match self.position_by_slug(&key) {
            Some(i) => Some(&self.rows[i]),
            None => None,
        }
    }

    /// The paste with this id, if there is one.
    pub fn find_by_id(&self, id: u32) -> (found: Option<&Pasta>)
        requires
            self.wf(),
        ensures
            found is Some <==> self@.find_by_id(id) is Some,
            found matches Some(paste) ==> self@.find_by_id(id) == Some(paste@),
    {
        match self.position_by_id(id) {
            Some(i) => Some(&self.rows[i]),
            None => None,
        }
    }

    /// The place of the row that answers a query.
    fn position(&self, query: &Query) -> (at: Option<usize>)
        requires
            self.wf(),
        ensures
            match at {
                Some(i) => i < self.rows@.len() && self@.answer(query@) == Some(
                    self.rows@[i as int]@,
                ),
                None => self@.answer(query@) is None,
            },
    {
        match query {
            Query::Slug(slug) => self.position_by_slug(slug),
            Query::Id(id) => self.position_by_id(*id),
        }
    }

    /// The place of the row that an identifier stands for.
    fn resolve_position(&self, identifier: &str) -> (at: Option<usize>)
        requires
            self.wf(),
        ensures
            match at {
                Some(i) => i < self.rows@.len() && self@.resolve(identifier@) == Some(
                    self.rows@[i as int]@,
                ),
                None => self@.resolve(identifier@) is None,
            },
    {
        let plan = lookup_plan(identifier);
        let ghost queries = plan_view(plan@);
        proof {
            assert(queries[0] == QueryView::Slug(identifier@));
            assert(id_of(identifier@) matches Some(id) ==> queries.len() == 2 && queries[1]
                == QueryView::Id(id));
            assert(id_of(identifier@) is None ==> queries.len() == 1);
        }
        let mut i: usize = 0;
        while i < plan.len()
            invariant
                i <= plan@.len(),
                self.wf(),
                queries == plan_view(plan@),
                queries[0] == QueryView::Slug(identifier@),
                id_of(identifier@) matches Some(id) ==> queries.len() == 2 && queries[1]
                    == QueryView::Id(id),
                id_of(identifier@) is None ==> queries.len() == 1,
                forall|j: int| 0 <= j < i ==> self@.answer(#[trigger] queries[j]) is None,
            decreases plan@.len() - i,
        {
            let at = self.position(&plan[i]);
            proof {
                assert(queries[i as int] == plan@[i as int]@);
            }
            if at.is_some() {
                proof {
                    if i == 1 {
                        assert(self@.answer(queries[0]) is None);
                    }
                }
                return at;
            }
            i += 1;
        }
        proof {
            assert(self@.answer(queries[0]) is None);
            if id_of(identifier@) is Some {
                assert(self@.answer(queries[1]) is None);
            }
        }
        None
    }

    /// The answer to one query.
    pub fn find(&self, query: &Query) -> (found: Option<&Pasta>)
        requires
            self.wf(),
        ensures
            found is Some <==> self@.answer(query@) is Some,
            found matches Some(paste) ==> self@.answer(query@) == Some(paste@),
    {
        match self.position(query) {
            Some(i) => Some(&self.rows[i]),
            None => None,
        }
    }

    /// The paste that an identifier stands for, if there is one: the one with
    /// that slug, else the one with that id.
    pub fn resolve(&self, identifier: &str) -> (found: Option<&Pasta>)
        requires
            self.wf(),
        ensures
            found is Some <==> self@.resolve(identifier@) is Some,
            found matches Some(paste) ==> self@.resolve(identifier@) == Some(paste@),
    {
        match self.resolve_position(identifier) {
            Some(i) => Some(&self.rows[i]),
            None => None,
        }
    }

    /// Stores a paste under the next id, unless its slug is taken or no id
    /// is left.
    pub fn insert(&mut self, new: &NewPasta) -> (outcome: InsertOutcome)
        requires
            old(self).wf(),
        ensures
            final(self).wf(),
            (outcome@, final(self)@) == old(self)@.insert(new@),
    {
        if self.position_by_slug(&new.slug).is_some() {
            return InsertOutcome::Conflict;
        }
        if self.last_id == u32::MAX {
            return InsertOutcome::Failed;
        }
        let id = self.last_id + 1;
        let ghost before = self.row_views();
        let ghost added = new@.with_id(id);
        let row = new.with_id(id);
        let stored = row.clone();
        self.rows.push(row);
        self.last_id = id;
        proof {
            assert(self.row_views() =~= before.push(added));
            lemma_rows_map_push(before, old(self).last_id, added, id);
        }
        InsertOutcome::Inserted(stored)
    }

    /// Takes out the row at `at`.
    fn remove_at(&mut self, at: usize)
        requires
            old(self).wf(),
            at < old(self).rows@.len(),
        ensures
            final(self).wf(),
            final(self)@ == old(self)@.removed(old(self).rows@[at as int].slug@),
    {
        let ghost before = self.row_views();
        self.rows.remove(at);
        proof {
            assert(self.row_views() =~= before.remove(at as int));
            lemma_rows_map_remove(before, self.last_id, at as int);
        }
    }

    /// Answers a query with a copy of the paste that it finds.
    pub fn ask(&self, query: &Query) -> (outcome: LookupOutcome)
        requires
            self.wf(),
        ensures
            outcome@ == self@.lookup(query@),
    {
        match self.position(query) {
            Some(i) => LookupOutcome::Found(self.rows[i].clone()),
            None => LookupOutcome::Missing,
        }
    }

    /// Deletes the paste with this id.
    pub fn delete_by_id(&mut self, id: u32) -> (outcome: DeleteOutcome)
        requires
            old(self).wf(),
        ensures
            final(self).wf(),
            (outcome, final(self)@) == old(self)@.delete_by_id(id),
    {
        match self.position_by_id(id) {
            Some(at) => {
                self.remove_at(at);
                DeleteOutcome::Removed
            },
            None => DeleteOutcome::Missing,
        }
    }

    /// Deletes the paste that `identifier` stands for. Says whether there
    /// was one.
    pub fn delete_by_id_or_slug(&mut self, identifier: &str) -> (deleted: bool)
        requires
            old(self).wf(),
        ensures
            final(self).wf(),
            deleted == old(self)@.resolve(identifier@).is_some(),
            final(self)@ == old(self)@.delete(identifier@),
    {
        match self.resolve_position(identifier) {
            Some(at) => {
                self.remove_at(at);
                true
            },
            None => false,
        }
    }
}

} // verus!
