//! Pastes, the values that requests carry, and the handlers of the API.
//!
//! A handler runs a request of [`crate::service`] on the state and reports a
//! failure as the status code and message that the client gets.

use crate::error::{ApiError, ApiErrorView, PasteError};
use crate::extractor::Json;
use crate::flow::{body_result_view, shown};
use crate::guard::secret_bytes;
use crate::service::{create, create_post, delete, deleted, retrieve};
use crate::AppState;
use vstd::prelude::*;

verus! {

/// What an optional text holds.
pub open spec fn text_view(text: Option<String>) -> Option<Seq<char>> {
    match text {
        Some(t) => Some(t@),
        None => None,
    }
}

/// A copy of an optional text.
pub fn clone_text(text: &Option<String>) -> (copy: Option<String>)
    ensures
        text_view(copy) == text_view(*text),
{
    match text {
        Some(t) => Some(t.clone()),
        None => None,
    }
}

/// A stored paste.
///
/// `view_key` and `edit_key` hold hashes of secrets, never the secrets.
#[derive(Debug)]
pub struct Pasta {
    pub id: u32,
    pub title: String,
    pub content: String,
    pub slug: String,
    pub view_key: Option<String>,
    pub edit_key: Option<String>,
}

/// What a [`Pasta`] holds, as plain values.
pub struct PastaView {
    pub id: u32,
    pub title: Seq<char>,
    pub content: Seq<char>,
    pub slug: Seq<char>,
    pub view_key: Option<Seq<char>>,
    pub edit_key: Option<Seq<char>>,
}

impl View for Pasta {
    type V = PastaView;

    open spec fn view(&self) -> PastaView {
        PastaView {
            id: self.id,
            title: self.title@,
            content: self.content@,
            slug: self.slug@,
            view_key: text_view(self.view_key),
            edit_key: text_view(self.edit_key),
        }
    }
}

impl PastaView {
    /// The fields of a paste that are shown to clients.
    pub open spec fn body(self) -> PastaBodyView {
        PastaBodyView { id: self.id, title: self.title, content: self.content, slug: self.slug }
    }
}

impl Clone for Pasta {
    fn clone(&self) -> (copy: Self)
        ensures
            copy@ == self@,
    {
        Pasta {
            id: self.id,
            title: self.title.clone(),
            content: self.content.clone(),
            slug: self.slug.clone(),
            view_key: clone_text(&self.view_key),
            edit_key: clone_text(&self.edit_key),
        }
    }
}

impl Pasta {
    /// The public fields of this paste. The key hashes stay behind.
    pub fn body(&self) -> (shown: PastaBody)
        ensures
            shown@ == self@.body(),
    {
        PastaBody {
            id: self.id,
            title: self.title.clone(),
            content: self.content.clone(),
            slug: self.slug.clone(),
        }
    }
}

/// The public fields of a paste: all that a client ever gets back.
#[derive(Debug)]
pub struct PastaBody {
    pub id: u32,
    pub title: String,
    pub content: String,
    pub slug: String,
}

/// What a [`PastaBody`] holds, as plain values.
pub struct PastaBodyView {
    pub id: u32,
    pub title: Seq<char>,
    pub content: Seq<char>,
    pub slug: Seq<char>,
}

impl View for PastaBody {
    type V = PastaBodyView;

    open spec fn view(&self) -> PastaBodyView {
        PastaBodyView {
            id: self.id,
            title: self.title@,
            content: self.content@,
            slug: self.slug@,
        }
    }
}

/// A request to publish a paste, as the client sent it: `slug` is the address
/// asked for, if any, and the keys are raw secrets.
#[derive(Debug)]
pub struct NewPastaPayload {
    pub title: String,
    pub content: String,
    pub slug: Option<String>,
    pub view_key: Option<String>,
    pub edit_key: Option<String>,
}

/// What a [`NewPastaPayload`] holds, as plain values.
pub struct NewPastaPayloadView {
    pub title: Seq<char>,
    pub content: Seq<char>,
    pub slug: Option<Seq<char>>,
    pub view_key: Option<Seq<char>>,
    pub edit_key: Option<Seq<char>>,
}

impl View for NewPastaPayload {
    type V = NewPastaPayloadView;

    open spec fn view(&self) -> NewPastaPayloadView {
        NewPastaPayloadView {
            title: self.title@,
            content: self.content@,
            slug: text_view(self.slug),
            view_key: text_view(self.view_key),
            edit_key: text_view(self.edit_key),
        }
    }
}

/// A paste that is ready to be stored: the slug is settled and the keys are
/// hashed. Only the id is missing, which storage assigns.
#[derive(Debug)]
pub struct NewPasta {
    pub title: String,
    pub content: String,
    pub slug: String,
    pub view_key: Option<String>,
    pub edit_key: Option<String>,
}

/// What a [`NewPasta`] holds, as plain values.
pub struct NewPastaView {
    pub title: Seq<char>,
    pub content: Seq<char>,
    pub slug: Seq<char>,
    pub view_key: Option<Seq<char>>,
    pub edit_key: Option<Seq<char>>,
}

impl View for NewPasta {
    type V = NewPastaView;

    open spec fn view(&self) -> NewPastaView {
        NewPastaView {
            title: self.title@,
            content: self.content@,
            slug: self.slug@,
            view_key: text_view(self.view_key),
            edit_key: text_view(self.edit_key),
        }
    }
}

impl NewPastaView {
    /// The paste that storing this under `id` gives.
    pub open spec fn with_id(self, id: u32) -> PastaView {
        PastaView {
            id,
            title: self.title,
            content: self.content,
            slug: self.slug,
            view_key: self.view_key,
            edit_key: self.edit_key,
        }
    }
}

impl NewPasta {
    /// The paste that storing this under `id` gives.
    pub fn with_id(&self, id: u32) -> (stored: Pasta)
        ensures
            stored@ == self@.with_id(id),
    {
        Pasta {
            id,
            title: self.title.clone(),
            content: self.content.clone(),
            slug: self.slug.clone(),
            view_key: clone_text(&self.view_key),
            edit_key: clone_text(&self.edit_key),
        }
    }
}

/// A failure of the service as the client sees it.
pub open spec fn reported(error: PasteError) -> ApiErrorView {
    ApiErrorView { message: error.spec_message(), status: error.spec_status() }
}

/// An answer of the service as the client sees it.
pub open spec fn body_response(answer: Result<PastaBodyView, PasteError>) -> Result<
    PastaBodyView,
    ApiErrorView,
> {
    match answer {
        Ok(body) => Ok(body),
        Err(error) => Err(reported(error)),
    }
}

/// What the response to a request for a paste holds, as plain values.
pub open spec fn body_response_view(response: Result<Json<PastaBody>, ApiError>) -> Result<
    PastaBodyView,
    ApiErrorView,
> {
    match response {
        Ok(json) => Ok(json.0@),
        Err(error) => Err(error@),
    }
}

/// What the response to a request without a body to return holds, as plain
/// values.
pub open spec fn empty_response_view(response: Result<(), ApiError>) -> Result<(), ApiErrorView> {
    match response {
        Ok(_) => Ok(()),
        Err(error) => Err(error@),
    }
}

/// Puts an answer of the service into the form of a response.
pub fn respond(answer: Result<PastaBody, PasteError>) -> (response: Result<Json<PastaBody>, ApiError>)
    ensures
        body_response_view(response) == body_response(body_result_view(answer)),
{
    match answer {
        Ok(body) => Ok(Json(body)),
        Err(error) => Err(ApiError::from_error(error)),
    }
}

/// Handles a request to read the paste at `slug`; `view_key` is the secret
/// that came with the request, if one did. A slug that no paste has is not
/// found, whatever came with the request.
pub fn get_pasta(state: &AppState, slug: &str, view_key: Option<&[u8]>) -> (response: Result<
    Json<PastaBody>,
    ApiError,
>)
    requires
        state.db.wf(),
    ensures
        body_response_view(response) == body_response(
            shown(state.db@.find_by_slug(slug@), secret_bytes(view_key)),
        ),
{
    respond(retrieve(&state.db, slug, view_key))
}

/// Handles a request to publish a paste.
pub fn add_pasta(state: &mut AppState, payload: Json<NewPastaPayload>) -> (response: Result<
    Json<PastaBody>,
    ApiError,
>)
    requires
        old(state).db.wf(),
    ensures
        final(state).db.wf(),
        exists|answer: Result<PastaBodyView, PasteError>|
            body_response_view(response) == body_response(answer) && #[trigger] create_post(
                old(state).db@,
                payload.0@,
                answer,
                final(state).db@,
            ),
{
    let answer = create(&mut state.db, payload.0);
    proof {
        assert(create_post(old(state).db@, payload.0@, body_result_view(answer), state.db@));
    }
    respond(answer)
}

/// Handles a request to delete the paste that `id_or_slug` stands for;
/// `edit_key` is the secret that came with the request, if one did.
pub fn delete_pasta(state: &mut AppState, id_or_slug: &str, edit_key: Option<&[u8]>) -> (response:
    Result<(), ApiError>)
    requires
        old(state).db.wf(),
    ensures
        final(state).db.wf(),
        final(state).db@ == deleted(old(state).db@, id_or_slug@, secret_bytes(edit_key)).1,
        empty_response_view(response) == match deleted(
            old(state).db@,
            id_or_slug@,
            secret_bytes(edit_key),
        ).0 {
            Ok(_) => Ok::<(), ApiErrorView>(()),
            Err(error) => Err::<(), ApiErrorView>(reported(error)),
        },
{
    match delete(&mut state.db, id_or_slug, edit_key) {
        Ok(()) => Ok(()),
        Err(error) => Err(ApiError::from_error(error)),
    }
}

} // verus!
