//! Whole requests, run against the in-memory repository.
//!
//! Each function here asks the repository what [`crate::flow`] plans and
//! returns what it decides. Reading goes by the slug alone; deleting takes a
//! slug or an id. What a request does is stated over the model of
//! the repository, and the laws at the end are proved from those statements.

use crate::error::{KeyKind, PasteError};
use crate::flow::{
    after_delete, after_insert_with, after_lookup, after_query, authorize_delete, authorize_view,
    body_result_view, deletable, hashed, lookup_result_view, next_step, plan_with, planned,
    prepared, retries, shown, CreatePlanView, CreateStep, CreateStepView, LookupStep,
    SLUG_RETRIES,
};
use crate::guard::secret_bytes;
use crate::hasher::secret_hash;
use crate::lookup::{id_of, lookup_plan, plan_view, Query, QueryView};
use crate::pasta::{
    NewPastaPayload, NewPastaPayloadView, Pasta, PastaBody, PastaBodyView, PastaView,
};
use crate::slug::{
    generate, is_generated, is_valid_slug, lemma_generated_byte_len, DEFAULT_SLUG_LEN,
};
use crate::store::{
    lemma_delete_is_by_id, lemma_delete_wf, lemma_insert_wf, InsertOutcome, InsertOutcomeView,
    PasteStore, StoreView,
};
use vstd::prelude::*;
use vstd::utf8::*;

verus! {

/// What publishing a payload under `slug` answers, and the repository after
/// it. Nothing is stored unless the answer is a paste.
pub open spec fn created(store: StoreView, payload: NewPastaPayloadView, slug: Seq<char>) -> (
    Result<PastaBodyView, PasteError>,
    StoreView,
) {
    if !is_valid_slug(slug) {
        (Err(PasteError::Validation), store)
    } else {
        match store.insert(prepared(payload, slug)) {
            (InsertOutcomeView::Inserted(stored), after) => (Ok(stored.body()), after),
            (InsertOutcomeView::Conflict, _) => (Err(PasteError::Conflict), store),
            (InsertOutcomeView::Failed, _) => (Err(PasteError::Storage), store),
        }
    }
}

/// What a list of slugs holds, as plain values.
pub open spec fn slugs_view(slugs: Seq<String>) -> Seq<Seq<char>> {
    Seq::new(slugs.len(), |i: int| slugs[i]@)
}

/// Each of `slugs` is one that the generator can produce.
pub open spec fn all_generated(slugs: Seq<Seq<char>>) -> bool {
    forall|i: int| 0 <= i < slugs.len() ==> is_generated(#[trigger] slugs[i], DEFAULT_SLUG_LEN as nat)
}

/// What carrying out a plan answers, and the repository after it, when
/// `fresh` are the slugs at hand for retries, taken in order.
///
/// The paste of the plan is inserted. Each step is the one that
/// [`next_step`] gives: where it is a retry, the next fresh slug is used and
/// the new plan is carried out with the slugs that are left. A retry that
/// finds no slug left is a failure of storage.
pub open spec fn attempted(store: StoreView, plan: CreatePlanView, fresh: Seq<Seq<char>>) -> (
    Result<PastaBodyView, PasteError>,
    StoreView,
)
    decreases fresh.len(),
{
    let (outcome, after) = store.insert(plan.request);
    if retries(plan, outcome) {
        if fresh.len() == 0 {
            (Err(PasteError::Storage), store)
        } else {
            match next_step(plan, outcome, fresh[0]) {
                CreateStepView::Retry(next) => attempted(store, next, fresh.drop_first()),
                CreateStepView::Done(answer) => (answer, store),
            }
        }
    } else {
        match next_step(plan, outcome, Seq::empty()) {
            CreateStepView::Done(answer) => (answer, after),
            CreateStepView::Retry(_) => (Err(PasteError::Storage), store),
        }
    }
}

/// What publishing a payload answers, and the repository after it, when
/// `fresh` are the generated slugs at hand, taken in order.
///
/// A payload that asks for a slug is planned with that slug and uses none of
/// `fresh`. One that asks for none is planned with the first of `fresh`, and
/// is a failure of storage if there is none; the rest serve the retries.
pub open spec fn created_with(
    store: StoreView,
    payload: NewPastaPayloadView,
    fresh: Seq<Seq<char>>,
) -> (Result<PastaBodyView, PasteError>, StoreView) {
    if payload.slug is Some {
        match planned(payload, Seq::empty()) {
            Ok(plan) => attempted(store, plan, fresh),
            Err(error) => (Err(error), store),
        }
    } else if fresh.len() == 0 {
        (Err(PasteError::Storage), store)
    } else {
        match planned(payload, fresh[0]) {
            Ok(plan) => attempted(store, plan, fresh.drop_first()),
            Err(error) => (Err(error), store),
        }
    }
}

/// Publishes a paste with `fresh` as the generated slugs at hand.
///
/// The slug is the one asked for, which must be long enough, or the first of
/// `fresh`. The keys are stored as hashes. A generated slug that is taken is
/// replaced by the next of `fresh` while retries and slugs are left; a slug
/// that was asked for and is taken is a conflict.
pub fn create_with(store: &mut PasteStore, payload: NewPastaPayload, fresh: Vec<String>) -> (answer:
    Result<PastaBody, PasteError>)
    requires
        old(store).wf(),
    ensures
        final(store).wf(),
        (body_result_view(answer), final(store)@) == created_with(
            old(store)@,
            payload@,
            slugs_view(fresh@),
        ),
{
    let ghost asked = payload@;
    let ghost supply = slugs_view(fresh@);
    let mut used: usize = 0;
    let first = if payload.slug.is_some() {
        String::new()
    } else {
        if fresh.len() == 0 {
            return Err(PasteError::Storage);
        }
        used = 1;
        fresh[0].clone()
    };
    proof {
        assert(supply.skip(0) =~= supply);
        if asked.slug is None {
            assert(supply.skip(1) =~= supply.drop_first());
            assert(first@ == supply[0]);
        }
    }
    let mut plan = match plan_with(payload, first) {
        Ok(plan) => plan,
        Err(error) => {
            return Err(error);
        },
    };
    loop
        invariant
            store.wf(),
            store@ == old(store)@,
            used <= fresh@.len(),
            asked == payload@,
            supply == slugs_view(fresh@),
            created_with(old(store)@, asked, supply) == attempted(
                store@,
                plan@,
                supply.skip(used as int),
            ),
        decreases fresh@.len() - used,
    {
        let ghost left = supply.skip(used as int);
        let outcome = store.insert(&plan.request);
        let retry = match outcome {
            InsertOutcome::Conflict => plan.generated && plan.retries_left > 0,
            _ => false,
        };
        if retry {
            if used >= fresh.len() {
                return Err(PasteError::Storage);
            }
            let slug = fresh[used].clone();
            proof {
                assert(left[0] == slug@);
                assert(left.drop_first() =~= supply.skip(used + 1));
            }
            used = used + 1;
            match after_insert_with(plan, outcome, slug) {
                CreateStep::Retry(next) => {
                    plan = next;
                },
                CreateStep::Done(answer) => {
                    return answer;
                },
            }
        } else {
            match after_insert_with(plan, outcome, String::new()) {
                CreateStep::Done(answer) => {
                    return answer;
                },
                CreateStep::Retry(_) => {
                    return Err(PasteError::Storage);
                },
            }
        }
    }
}

/// How many slugs a request that asks for none may use: the first and one
/// for each retry.
pub open spec fn slugs_drawn(payload: NewPastaPayloadView) -> nat {
    if payload.slug is None {
        (SLUG_RETRIES + 1) as nat
    } else {
        0
    }
}

/// What [`create`] does: what [`create_with`] does with as many slugs from
/// the generator as the request may use.
pub open spec fn create_post(
    before: StoreView,
    payload: NewPastaPayloadView,
    answer: Result<PastaBodyView, PasteError>,
    after: StoreView,
) -> bool {
    exists|fresh: Seq<Seq<char>>|
        fresh.len() == slugs_drawn(payload) && all_generated(fresh) && (answer, after)
            == #[trigger] created_with(before, payload, fresh)
}

/// Publishes a paste, drawing the slugs it may need from the generator.
///
/// With a slug asked for, the answer and the repository afterwards are those
/// of publishing under that slug.
pub fn create(store: &mut PasteStore, payload: NewPastaPayload) -> (answer: Result<
    PastaBody,
    PasteError,
>)
    requires
        old(store).wf(),
    ensures
        final(store).wf(),
        create_post(old(store)@, payload@, body_result_view(answer), final(store)@),
        payload@.slug matches Some(asked) ==> (body_result_view(answer), final(store)@) == created(
            old(store)@,
            payload@,
            asked,
        ),
{
    let mut fresh: Vec<String> = Vec::new();
    if payload.slug.is_none() {
        let mut drawn: usize = 0;
        while drawn < SLUG_RETRIES + 1
            invariant
                drawn <= SLUG_RETRIES + 1,
                fresh@.len() == drawn,
                all_generated(slugs_view(fresh@)),
            decreases SLUG_RETRIES + 1 - drawn,
        {
            let ghost before = slugs_view(fresh@);
            let slug = generate(DEFAULT_SLUG_LEN);
            fresh.push(slug);
            proof {
                assert(slugs_view(fresh@) =~= before.push(slug@));
            }
            drawn = drawn + 1;
        }
    }
    let ghost drawn = slugs_view(fresh@);
    let ghost asked = payload@;
    let answer = create_with(store, payload, fresh);
    proof {
        if asked.slug is Some {
            lemma_asked_slug_is_used(old(store)@, asked, drawn);
        }
    }
    answer
}

/// A payload that asks for a slug is published under that slug, whatever
/// slugs are at hand.
pub proof fn lemma_asked_slug_is_used(
    store: StoreView,
    payload: NewPastaPayloadView,
    fresh: Seq<Seq<char>>,
)
    requires
        payload.slug is Some,
    ensures
        created_with(store, payload, fresh) == created(store, payload, payload.slug->0),
{
}

/// Some slug that the generator can produce is taken.
pub open spec fn generated_slug_taken(store: StoreView) -> bool {
    exists|slug: Seq<char>|
        is_generated(slug, DEFAULT_SLUG_LEN as nat) && #[trigger] store.has_slug(slug)
}

/// Carrying out a plan with a generated slug, with generated slugs at hand:
/// a paste in the answer was published under a generated slug; a failure is
/// a failure of storage, leaves the repository as it was, and comes only
/// where no id was left or a slug that the generator can produce was taken.
proof fn lemma_attempted_generated(
    store: StoreView,
    payload: NewPastaPayloadView,
    plan: CreatePlanView,
    fresh: Seq<Seq<char>>,
)
    requires
        plan.generated,
        is_generated(plan.request.slug, DEFAULT_SLUG_LEN as nat),
        plan.request == prepared(payload, plan.request.slug),
        all_generated(fresh),
    ensures
        generated_outcome(store, payload, attempted(store, plan, fresh)),
    decreases fresh.len(),
{
    lemma_generated_byte_len(plan.request.slug, DEFAULT_SLUG_LEN as nat);
    let (outcome, after) = store.insert(plan.request);
    if retries(plan, outcome) {
        assert(store.has_slug(plan.request.slug));
        if fresh.len() > 0 {
            assert(is_generated(fresh[0], DEFAULT_SLUG_LEN as nat));
            lemma_generated_byte_len(fresh[0], DEFAULT_SLUG_LEN as nat);
            let next = next_step(plan, outcome, fresh[0])->Retry_0;
            assert forall|i: int| 0 <= i < fresh.drop_first().len() implies is_generated(
                #[trigger] fresh.drop_first()[i],
                DEFAULT_SLUG_LEN as nat,
            ) by {
                assert(fresh.drop_first()[i] == fresh[i + 1]);
            }
            lemma_attempted_generated(store, payload, next, fresh.drop_first());
        }
    } else {
        if outcome is Inserted {
            assert(attempted(store, plan, fresh) == created(store, payload, plan.request.slug));
        } else if outcome is Conflict {
            assert(store.has_slug(plan.request.slug));
        }
    }
}

/// What holds of publishing without a slug asked for, whichever generated
/// slugs were at hand.
pub open spec fn generated_outcome(
    store: StoreView,
    payload: NewPastaPayloadView,
    end: (Result<PastaBodyView, PasteError>, StoreView),
) -> bool {
    match end.0 {
        Ok(_) => exists|slug: Seq<char>|
            is_generated(slug, DEFAULT_SLUG_LEN as nat) && end == #[trigger] created(
                store,
                payload,
                slug,
            ),
        Err(error) => {
            &&& error == PasteError::Storage
            &&& end.1 == store
            &&& store.ids_exhausted() || generated_slug_taken(store)
        },
    }
}

/// Publishing without a slug asked for, with at least one generated slug at
/// hand: a paste in the answer was published under a generated slug; a
/// failure is a failure of storage, leaves the repository as it was, and
/// comes only where no id was left or a slug that the generator can produce
/// was taken. So it succeeds on a repository with ids left in which no such
/// slug is taken.
pub proof fn lemma_generated_create(
    store: StoreView,
    payload: NewPastaPayloadView,
    fresh: Seq<Seq<char>>,
)
    requires
        payload.slug is None,
        fresh.len() > 0,
        all_generated(fresh),
    ensures
        generated_outcome(store, payload, created_with(store, payload, fresh)),
{
    assert(is_generated(fresh[0], DEFAULT_SLUG_LEN as nat));
    lemma_generated_byte_len(fresh[0], DEFAULT_SLUG_LEN as nat);
    let plan = planned(payload, fresh[0])->Ok_0;
    assert forall|i: int| 0 <= i < fresh.drop_first().len() implies is_generated(
        #[trigger] fresh.drop_first()[i],
        DEFAULT_SLUG_LEN as nat,
    ) by {
        assert(fresh.drop_first()[i] == fresh[i + 1]);
    }
    lemma_attempted_generated(store, payload, plan, fresh.drop_first());
}

/// Reads the paste at `slug`, if the guard of its view key lets the
/// requester pass. Only the public fields are answered. A paste is never
/// read by its id.
pub fn retrieve(store: &PasteStore, slug: &str, presented: Option<&[u8]>) -> (answer: Result<
    PastaBody,
    PasteError,
>)
    requires
        store.wf(),
    ensures
        body_result_view(answer) == shown(store@.find_by_slug(slug@), secret_bytes(presented)),
{
    let query = Query::Slug(slug.to_owned());
    match after_lookup(store.ask(&query)) {
        Err(error) => Err(error),
        Ok(found) => authorize_view(found.as_ref(), presented),
    }
}

/// Looks up the paste that an identifier stands for, query by query as
/// planned: by slug, and then, for a numeral, by id.
pub fn look_up(store: &PasteStore, identifier: &str) -> (found: Result<Option<Pasta>, PasteError>)
    requires
        store.wf(),
    ensures
        lookup_result_view(found) == Ok::<Option<PastaView>, PasteError>(
            store@.resolve(identifier@),
        ),
{
    let plan = lookup_plan(identifier);
    let ghost queries = plan_view(plan@);
    proof {
        assert(queries[0] == QueryView::Slug(identifier@));
        assert(id_of(identifier@) matches Some(id) ==> queries.len() == 2 && queries[1]
            == QueryView::Id(id));
        assert(id_of(identifier@) is None ==> queries.len() == 1);
    }
    let mut at: usize = 0;
    loop
        invariant
            store.wf(),
            at < plan@.len(),
            queries == plan_view(plan@),
            queries[0] == QueryView::Slug(identifier@),
            id_of(identifier@) matches Some(id) ==> queries.len() == 2 && queries[1]
                == QueryView::Id(id),
            id_of(identifier@) is None ==> queries.len() == 1,
            forall|j: int| 0 <= j < at ==> store@.answer(#[trigger] queries[j]) is None,
        decreases plan@.len() - at,
    {
        let outcome = store.ask(&plan[at]);
        proof {
            assert(queries[at as int] == plan@[at as int]@);
            if at == 1 {
                assert(store@.answer(queries[0]) is None);
            }
        }
        match after_query(&plan, at, outcome) {
            LookupStep::Ask(next) => {
                at = next;
            },
            LookupStep::Done(found) => {
                return found;
            },
        }
    }
}

/// What deleting answers, and the repository after it: the paste that
/// `identifier` stands for is removed if the guard of its edit key lets the
/// requester pass, and nothing changes otherwise.
pub open spec fn deleted(store: StoreView, identifier: Seq<char>, presented: Option<Seq<u8>>) -> (
    Result<(), PasteError>,
    StoreView,
) {
    match deletable(store.resolve(identifier), presented) {
        Ok(_) => (Ok(()), store.delete(identifier)),
        Err(error) => (Err(error), store),
    }
}

/// Deletes the paste that `identifier` stands for, a slug or an id, if the
/// guard of its edit key lets the requester pass.
pub fn delete(store: &mut PasteStore, identifier: &str, presented: Option<&[u8]>) -> (answer:
    Result<(), PasteError>)
    requires
        old(store).wf(),
    ensures
        final(store).wf(),
        (answer, final(store)@) == deleted(old(store)@, identifier@, secret_bytes(presented)),
{
    let found = match look_up(store, identifier) {
        Ok(found) => found,
        Err(error) => {
            return Err(error);
        },
    };
    match authorize_delete(found.as_ref(), presented) {
        Err(error) => Err(error),
        Ok(id) => {
            proof {
                store.lemma_view_wf();
                lemma_delete_is_by_id(store@, identifier@);
            }
            after_delete(store.delete_by_id(id))
        },
    }
}

/// Reading goes by the slug alone: a request to read is answered "not
/// found" exactly where no paste has that slug, whatever is presented and
/// even where the slug is the numeral of a stored id.
pub proof fn lemma_not_found_iff_slug_unknown(
    store: StoreView,
    slug: Seq<char>,
    presented: Option<Seq<u8>>,
)
    ensures
        shown(store.find_by_slug(slug), presented) == Err::<PastaBodyView, PasteError>(
            PasteError::NotFound,
        ) <==> !store.has_slug(slug),
{
}

/// Publishing leaves a repository well formed.
pub proof fn lemma_created_wf(store: StoreView, payload: NewPastaPayloadView, slug: Seq<char>)
    requires
        store.wf(),
    ensures
        created(store, payload, slug).1.wf(),
{
    lemma_insert_wf(store, prepared(payload, slug));
}

/// Deleting leaves a repository well formed.
pub proof fn lemma_deleted_wf(store: StoreView, identifier: Seq<char>, presented: Option<Seq<u8>>)
    requires
        store.wf(),
    ensures
        deleted(store, identifier, presented).1.wf(),
{
    lemma_delete_wf(store, identifier);
}

/// What is published has a slug of at least the default length and holds
/// its keys as hashes of the secrets that were sent.
pub proof fn lemma_created_is_valid(store: StoreView, payload: NewPastaPayloadView, slug: Seq<char>)
    requires
        created(store, payload, slug).0 is Ok,
    ensures
        ({
            let after = created(store, payload, slug).1;
            &&& is_valid_slug(slug)
            &&& after.has_slug(slug)
            &&& after.pastes[slug].view_key == hashed(payload.view_key)
            &&& after.pastes[slug].edit_key == hashed(payload.edit_key)
        }),
{
}

/// A slug is taken once: after a paste was published under a slug, publishing
/// under the same slug is a conflict and changes nothing.
pub proof fn lemma_second_create_conflicts(
    store: StoreView,
    first: NewPastaPayloadView,
    second: NewPastaPayloadView,
    slug: Seq<char>,
)
    requires
        created(store, first, slug).0 is Ok,
    ensures
        created(created(store, first, slug).1, second, slug) == (
            Err::<PastaBodyView, PasteError>(PasteError::Conflict),
            created(store, first, slug).1,
        ),
{
}

/// Round trip: a paste that was published without a view key is read back
/// under its slug, whatever is presented, with the title and the content
/// that were sent and as the answer that publishing gave.
pub proof fn lemma_round_trip(
    store: StoreView,
    payload: NewPastaPayloadView,
    slug: Seq<char>,
    presented: Option<Seq<u8>>,
)
    requires
        payload.view_key is None,
        created(store, payload, slug).0 is Ok,
    ensures
        ({
            let (answer, after) = created(store, payload, slug);
            &&& shown(after.find_by_slug(answer->Ok_0.slug), presented) == answer
            &&& answer->Ok_0.slug == slug
            &&& answer->Ok_0.title == payload.title
            &&& answer->Ok_0.content == payload.content
        }),
{
}

/// A view key guards reading: a paste that was published with one is not
/// read without a secret, is read with the key that was sent, and is not
/// read with a secret that hashes to something else.
pub proof fn lemma_view_key_guards(
    store: StoreView,
    payload: NewPastaPayloadView,
    slug: Seq<char>,
    presented: Option<Seq<u8>>,
)
    requires
        payload.view_key is Some,
        created(store, payload, slug).0 is Ok,
    ensures
        ({
            let (answer, after) = created(store, payload, slug);
            let key = encode_utf8(payload.view_key->0);
            let read = shown(after.find_by_slug(slug), presented);
            &&& presented is None ==> read == Err::<PastaBodyView, PasteError>(
                PasteError::SecretRequired(KeyKind::View),
            )
            &&& presented == Some(key) ==> read == answer
            &&& presented is Some && secret_hash(presented->0) != secret_hash(key) ==> read == Err::<
                PastaBodyView,
                PasteError,
            >(PasteError::InvalidSecret(KeyKind::View))
        }),
{
}

/// An edit key guards deleting: without the key the paste stays, with it the
/// paste is gone and its slug is free again.
pub proof fn lemma_edit_key_guards(
    store: StoreView,
    payload: NewPastaPayloadView,
    slug: Seq<char>,
    presented: Option<Seq<u8>>,
)
    requires
        payload.edit_key is Some,
        created(store, payload, slug).0 is Ok,
    ensures
        ({
            let after = created(store, payload, slug).1;
            let key = encode_utf8(payload.edit_key->0);
            let (answer, last) = deleted(after, slug, presented);
            &&& presented is None ==> answer == Err::<(), PasteError>(
                PasteError::SecretRequired(KeyKind::Edit),
            ) && last == after
            &&& presented is Some && secret_hash(presented->0) != secret_hash(key) ==> answer
                == Err::<(), PasteError>(PasteError::InvalidSecret(KeyKind::Edit)) && last == after
            &&& presented == Some(key) ==> answer == Ok::<(), PasteError>(()) && !last.has_slug(
                slug,
            )
        }),
{
}

} // verus!
