//! The course of each request, one decision at a time.
//!
//! Storage is not called from here. A request is planned, the caller asks
//! storage what the plan says, and hands the answer back for the next
//! decision. The same decisions therefore serve a database behind a
//! connection pool and the in-memory repository of this crate.

use crate::error::{KeyKind, PasteError};
use crate::guard::{check, decide, denial, secret_bytes};
use crate::hasher::{hash_secret, secret_hash};
use crate::pasta::{
    text_view, NewPasta, NewPastaPayload, NewPastaPayloadView, NewPastaView, Pasta, PastaBody,
    PastaBodyView, PastaView,
};
use crate::slug::{generate, is_generated, is_valid_slug, validate, DEFAULT_SLUG_LEN};
use crate::lookup::Query;
use crate::store::{
    DeleteOutcome, InsertOutcome, InsertOutcomeView, LookupOutcome, LookupOutcomeView,
};
use vstd::prelude::*;
use vstd::utf8::*;

verus! {

/// How often a generated slug that turned out to be taken is replaced by a
/// fresh one before the request is given up.
pub const SLUG_RETRIES: usize = 3;

/// The stored form of an optional key: the hash of its bytes.
pub open spec fn hashed(key: Option<Seq<char>>) -> Option<Seq<char>> {
    match key {
        Some(secret) => Some(secret_hash(encode_utf8(secret))),
        None => None,
    }
}

/// Hashes an optional key for storage.
pub fn hash_key(key: &Option<String>) -> (stored: Option<String>)
    ensures
        text_view(stored) == hashed(text_view(*key)),
{
    match key {
        Some(secret) => Some(hash_secret(secret.as_str().as_bytes())),
        None => None,
    }
}

/// The paste that a payload asks to store under `slug`: title and content as
/// sent, the keys hashed.
pub open spec fn prepared(payload: NewPastaPayloadView, slug: Seq<char>) -> NewPastaView {
    NewPastaView {
        title: payload.title,
        content: payload.content,
        slug,
        view_key: hashed(payload.view_key),
        edit_key: hashed(payload.edit_key),
    }
}

/// A request to publish a paste, on its way through storage.
#[derive(Debug)]
pub struct CreatePlan {
    /// The paste to insert next.
    pub request: NewPasta,
    /// The slug was generated, not asked for.
    pub generated: bool,
    /// How many more generated slugs may be tried.
    pub retries_left: usize,
}

/// What a [`CreatePlan`] holds, as plain values.
pub struct CreatePlanView {
    pub request: NewPastaView,
    pub generated: bool,
    pub retries_left: usize,
}

impl View for CreatePlan {
    type V = CreatePlanView;

    open spec fn view(&self) -> CreatePlanView {
        CreatePlanView {
            request: self.request@,
            generated: self.generated,
            retries_left: self.retries_left,
        }
    }
}

/// What a planned request, or its rejection, holds as plain values.
pub open spec fn plan_result_view(planned: Result<CreatePlan, PasteError>) -> Result<
    CreatePlanView,
    PasteError,
> {
    match planned {
        Ok(plan) => Ok(plan@),
        Err(error) => Err(error),
    }
}

/// What the answer to a request holds as plain values.
pub open spec fn body_result_view(answer: Result<PastaBody, PasteError>) -> Result<
    PastaBodyView,
    PasteError,
> {
    match answer {
        Ok(body) => Ok(body@),
        Err(error) => Err(error),
    }
}

/// The plan for a payload when `fresh` is the slug at hand for a request that
/// asks for none. The slug that is used, asked for or fresh, must be valid.
pub open spec fn planned(payload: NewPastaPayloadView, fresh: Seq<char>) -> Result<
    CreatePlanView,
    PasteError,
> {
    let slug = match payload.slug {
        Some(asked) => asked,
        None => fresh,
    };
    if is_valid_slug(slug) {
        Ok(
            CreatePlanView {
                request: prepared(payload, slug),
                generated: payload.slug is None,
                retries_left: SLUG_RETRIES,
            },
        )
    } else {
        Err(PasteError::Validation)
    }
}

/// Plans a request with `fresh` as the slug to use if the payload asks for
/// none. A slug that is too short is rejected before storage is involved.
pub fn plan_with(payload: NewPastaPayload, fresh: String) -> (plan: Result<CreatePlan, PasteError>)
    ensures
        plan_result_view(plan) == planned(payload@, fresh@),
{
    let generated = payload.slug.is_none();
    let slug = match payload.slug {
        Some(asked) => asked,
        None => fresh,
    };
    match validate(slug.as_str(), DEFAULT_SLUG_LEN) {
        Err(error) => Err(error),
        Ok(()) => {
            let view_key = hash_key(&payload.view_key);
            let edit_key = hash_key(&payload.edit_key);
            Ok(
                CreatePlan {
                    request: NewPasta {
                        title: payload.title,
                        content: payload.content,
                        slug,
                        view_key,
                        edit_key,
                    },
                    generated,
                    retries_left: SLUG_RETRIES,
                },
            )
        },
    }
}

/// Plans a request, generating a slug if the payload asks for none.
///
/// With a slug asked for, the plan is settled by the payload. Without, it is
/// the plan for some generated slug of the default length, and never a
/// rejection.
pub fn begin_create(payload: NewPastaPayload) -> (plan: Result<CreatePlan, PasteError>)
    ensures
        payload@.slug is Some ==> plan_result_view(plan) == planned(payload@, Seq::empty()),
        payload@.slug is None ==> plan is Ok && is_generated(
            plan->Ok_0@.request.slug,
            DEFAULT_SLUG_LEN as nat,
        ) && plan_result_view(plan) == planned(payload@, plan->Ok_0@.request.slug),
{
    if payload.slug.is_some() {
        plan_with(payload, String::new())
    } else {
        let fresh = generate(DEFAULT_SLUG_LEN);
        plan_with(payload, fresh)
    }
}

/// What comes after an insert.
#[derive(Debug)]
pub enum CreateStep {
    /// Insert again, under another slug.
    Retry(CreatePlan),
    /// The request is answered.
    Done(Result<PastaBody, PasteError>),
}

/// What a [`CreateStep`] holds, as plain values.
pub enum CreateStepView {
    Retry(CreatePlanView),
    Done(Result<PastaBodyView, PasteError>),
}

impl View for CreateStep {
    type V = CreateStepView;

    open spec fn view(&self) -> CreateStepView {
        match self {
            CreateStep::Retry(plan) => CreateStepView::Retry(plan@),
            CreateStep::Done(answer) => CreateStepView::Done(body_result_view(*answer)),
        }
    }
}

/// A generated slug was taken and another one may still be tried.
pub open spec fn retries(plan: CreatePlanView, outcome: InsertOutcomeView) -> bool {
    outcome is Conflict && plan.generated && plan.retries_left > 0
}

/// The step after an insert, when `fresh` is the slug at hand for a retry.
///
/// A stored paste is answered with its public fields. A failure of storage
/// is passed on. A conflict on a slug that was asked for is passed on too:
/// the caller chose that address. A conflict on a generated slug is mended
/// with a fresh one while retries are left, and counts as a failure of
/// storage when none is.
pub open spec fn next_step(
    plan: CreatePlanView,
    outcome: InsertOutcomeView,
    fresh: Seq<char>,
) -> CreateStepView {
    match outcome {
        InsertOutcomeView::Inserted(stored) => CreateStepView::Done(Ok(stored.body())),
        InsertOutcomeView::Failed => CreateStepView::Done(Err(PasteError::Storage)),
        InsertOutcomeView::Conflict => if !plan.generated {
            CreateStepView::Done(Err(PasteError::Conflict))
        } else if plan.retries_left == 0 {
            CreateStepView::Done(Err(PasteError::Storage))
        } else if !is_valid_slug(fresh) {
            CreateStepView::Done(Err(PasteError::Validation))
        } else {
            CreateStepView::Retry(
                CreatePlanView {
                    request: NewPastaView { slug: fresh, ..plan.request },
                    generated: true,
                    retries_left: (plan.retries_left - 1) as usize,
                },
            )
        },
    }
}

/// Decides the step after an insert, with `fresh` as the slug for a retry.
pub fn after_insert_with(plan: CreatePlan, outcome: InsertOutcome, fresh: String) -> (step:
    CreateStep)
    ensures
        step@ == next_step(plan@, outcome@, fresh@),
{
    match outcome {
        InsertOutcome::Inserted(stored) => CreateStep::Done(Ok(stored.body())),
        InsertOutcome::Failed => CreateStep::Done(Err(PasteError::Storage)),
        InsertOutcome::Conflict => {
            if !plan.generated {
                CreateStep::Done(Err(PasteError::Conflict))
            } else if plan.retries_left == 0 {
                CreateStep::Done(Err(PasteError::Storage))
            } else {
                match validate(fresh.as_str(), DEFAULT_SLUG_LEN) {
                    Err(error) => CreateStep::Done(Err(error)),
                    Ok(()) => CreateStep::Retry(
                        CreatePlan {
                            request: NewPasta {
                                title: plan.request.title,
                                content: plan.request.content,
                                slug: fresh,
                                view_key: plan.request.view_key,
                                edit_key: plan.request.edit_key,
                            },
                            generated: true,
                            retries_left: plan.retries_left - 1,
                        },
                    ),
                }
            }
        },
    }
}

/// Decides the step after an insert, generating the slug for a retry.
///
/// Where no retry is due the step is settled by the plan and the outcome.
/// Where one is due, it is the retry with some generated slug of the default
/// length.
pub fn after_insert(plan: CreatePlan, outcome: InsertOutcome) -> (step: CreateStep)
    ensures
        !retries(plan@, outcome@) ==> step@ == next_step(plan@, outcome@, Seq::empty()),
        retries(plan@, outcome@) ==> step is Retry && is_generated(
            step->Retry_0@.request.slug,
            DEFAULT_SLUG_LEN as nat,
        ) && step@ == next_step(plan@, outcome@, step->Retry_0@.request.slug),
{
    let retry = match outcome {
        InsertOutcome::Conflict => plan.generated && plan.retries_left > 0,
        _ => false,
    };
    if retry {
        let fresh = generate(DEFAULT_SLUG_LEN);
        after_insert_with(plan, outcome, fresh)
    } else {
        after_insert_with(plan, outcome, String::new())
    }
}

/// The answer to a request to read: the public fields of the paste that was
/// found, if the guard of its view key lets the requester pass.
pub open spec fn shown(found: Option<PastaView>, presented: Option<Seq<u8>>) -> Result<
    PastaBodyView,
    PasteError,
> {
    match found {
        None => Err(PasteError::NotFound),
        Some(paste) => match denial(decide(paste.view_key, presented), KeyKind::View) {
            Ok(_) => Ok(paste.body()),
            Err(error) => Err(error),
        },
    }
}

/// What a paste that was looked up, if any was found, holds as plain values.
pub open spec fn found_view(found: Option<&Pasta>) -> Option<PastaView> {
    match found {
        Some(paste) => Some(paste@),
        None => None,
    }
}

/// Answers a request to read the paste that was looked up.
pub fn authorize_view(found: Option<&Pasta>, presented: Option<&[u8]>) -> (answer: Result<
    PastaBody,
    PasteError,
>)
    ensures
        body_result_view(answer) == shown(found_view(found), secret_bytes(presented)),
{
    match found {
        None => Err(PasteError::NotFound),
        Some(paste) => match check(&paste.view_key, presented).into_result(KeyKind::View) {
            Ok(()) => Ok(paste.body()),
            Err(error) => Err(error),
        },
    }
}

/// The decision on a request to delete: the id of the paste to remove, if
/// one was found and the guard of its edit key lets the requester pass.
pub open spec fn deletable(found: Option<PastaView>, presented: Option<Seq<u8>>) -> Result<
    u32,
    PasteError,
> {
    match found {
        None => Err(PasteError::NotFound),
        Some(paste) => match denial(decide(paste.edit_key, presented), KeyKind::Edit) {
            Ok(_) => Ok(paste.id),
            Err(error) => Err(error),
        },
    }
}

/// Decides a request to delete the paste that was looked up.
pub fn authorize_delete(found: Option<&Pasta>, presented: Option<&[u8]>) -> (decision: Result<
    u32,
    PasteError,
>)
    ensures
        decision == deletable(found_view(found), secret_bytes(presented)),
{
    match found {
        None => Err(PasteError::NotFound),
        Some(paste) => match check(&paste.edit_key, presented).into_result(KeyKind::Edit) {
            Ok(()) => Ok(paste.id),
            Err(error) => Err(error),
        },
    }
}

/// The answer to a request to delete once storage has said how the delete
/// ended: a paste that was gone by then was not found, and a failure of
/// storage is passed on.
pub open spec fn delete_answer(outcome: DeleteOutcome) -> Result<(), PasteError> {
    match outcome {
        DeleteOutcome::Removed => Ok(()),
        DeleteOutcome::Missing => Err(PasteError::NotFound),
        DeleteOutcome::Failed => Err(PasteError::Storage),
    }
}

/// Answers a request to delete once storage has said how the delete ended.
pub fn after_delete(outcome: DeleteOutcome) -> (answer: Result<(), PasteError>)
    ensures
        answer == delete_answer(outcome),
{
    match outcome {
        DeleteOutcome::Removed => Ok(()),
        DeleteOutcome::Missing => Err(PasteError::NotFound),
        DeleteOutcome::Failed => Err(PasteError::Storage),
    }
}

/// What a lookup that has ended holds, as plain values.
pub open spec fn lookup_result_view(found: Result<Option<Pasta>, PasteError>) -> Result<
    Option<PastaView>,
    PasteError,
> {
    match found {
        Ok(Some(paste)) => Ok(Some(paste@)),
        Ok(None) => Ok(None),
        Err(error) => Err(error),
    }
}

/// What a single query tells: the paste, that there is none, or that
/// storage failed, which is never taken for "none".
pub open spec fn looked_up(outcome: LookupOutcomeView) -> Result<Option<PastaView>, PasteError> {
    match outcome {
        LookupOutcomeView::Found(paste) => Ok(Some(paste)),
        LookupOutcomeView::Missing => Ok(None),
        LookupOutcomeView::Failed => Err(PasteError::Storage),
    }
}

/// Takes in the outcome of the only query of a lookup.
pub fn after_lookup(outcome: LookupOutcome) -> (found: Result<Option<Pasta>, PasteError>)
    ensures
        lookup_result_view(found) == looked_up(outcome@),
{
    match outcome {
        LookupOutcome::Found(paste) => Ok(Some(paste)),
        LookupOutcome::Missing => Ok(None),
        LookupOutcome::Failed => Err(PasteError::Storage),
    }
}

/// What comes after a query of a planned lookup.
#[derive(Debug)]
pub enum LookupStep {
    /// Ask the query at this place of the plan.
    Ask(usize),
    /// The lookup has ended.
    Done(Result<Option<Pasta>, PasteError>),
}

/// What a [`LookupStep`] holds, as plain values.
pub enum LookupStepView {
    Ask(usize),
    Done(Result<Option<PastaView>, PasteError>),
}

impl View for LookupStep {
    type V = LookupStepView;

    open spec fn view(&self) -> LookupStepView {
        match self {
            LookupStep::Ask(next) => LookupStepView::Ask(*next),
            LookupStep::Done(found) => LookupStepView::Done(lookup_result_view(*found)),
        }
    }
}

/// The step after the query at place `asked` of a plan of `queries` queries
/// was answered: a paste that was found, or a failure, ends the lookup; a
/// miss moves on to the next query, and ends the lookup with nothing found
/// after the last.
pub open spec fn next_query(queries: nat, asked: usize, outcome: LookupOutcomeView) -> LookupStepView {
    match outcome {
        LookupOutcomeView::Missing => if asked + 1 < queries {
            LookupStepView::Ask((asked + 1) as usize)
        } else {
            LookupStepView::Done(Ok(None))
        },
        _ => LookupStepView::Done(looked_up(outcome)),
    }
}

/// Decides the step after the query at place `asked` of `plan` was answered.
pub fn after_query(plan: &Vec<Query>, asked: usize, outcome: LookupOutcome) -> (step: LookupStep)
    ensures
        step@ == next_query(plan@.len(), asked, outcome@),
{
    match outcome {
        LookupOutcome::Missing => {
            if asked < plan.len() && asked + 1 < plan.len() {
                LookupStep::Ask(asked + 1)
            } else {
                LookupStep::Done(Ok(None))
            }
        },
        other => LookupStep::Done(after_lookup(other)),
    }
}

} // verus!
