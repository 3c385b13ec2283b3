use vstd::prelude::*;

use crate::models::integration::Platform;
use crate::routes::typesense::Product;
use crate::utilities::errors::UserError;
use crate::utilities::text::owned;

verus! {

/// Where an indexing request stands.
#[derive(Debug, Clone, Copy, PartialEq, Eq, Structural)]
pub enum IndexStage {
    /// Waiting for the check of the session token.
    CheckToken,
    /// Waiting for the stored access token of the integration.
    FetchAccessToken,
    /// Waiting for the documents to be gathered.
    RunIndex,
    /// Waiting for Typesense to import the documents.
    Import,
    /// The request was answered.
    Finished,
}

/// What happened since the last step.
#[derive(Debug, PartialEq)]
pub enum IndexEvent {
    /// The session token was checked: the user id it names, or `None` when it is invalid.
    TokenChecked(Option<String>),
    /// The store answered with the integration's access token, or with an error.
    AccessToken(Result<String, String>),
    /// Gathering the documents succeeded or failed.
    Indexed(Result<String, String>),
    /// The import succeeded or failed.
    Imported(Result<String, String>),
}

/// The answer to an indexing request.
#[derive(Debug, PartialEq)]
pub enum IndexReply {
    /// 200 with the message "indexing complete".
    Complete,
    /// The request failed with this error.
    Failed(UserError),
}

/// What the server is to do next.
#[derive(Debug, PartialEq)]
pub enum IndexAction {
    /// Read the access token of the user's integration of `platform` for `email`.
    FetchAccessToken { user_id: String, email: String, platform: Platform },
    /// Gather the documents with `access_token` (for Notion, those that match `query`).
    RunIndex { access_token: String, user_id: String, query: String },
    /// Import the gathered documents of `product` into the user's collection.
    Import { user_id: String, product: Product },
    /// Answer the request.
    Reply(IndexReply),
}

/// An indexing request of one product: check the session, read the integration's access
/// token, gather the documents, import them, and answer.
pub struct IndexFlow {
    pub product: Product,
    pub platform: Platform,
    pub email: String,
    pub query: String,
    pub unauthorized_message: &'static str,
    pub stage: IndexStage,
    pub user_id: String,
}

/// Whether `event` is the one that the stage `stage` waits for.
pub open spec fn expected(stage: IndexStage, event: IndexEvent) -> bool {
    match stage {
        IndexStage::CheckToken => event is TokenChecked,
        IndexStage::FetchAccessToken => event is AccessToken,
        IndexStage::RunIndex => event is Indexed,
        IndexStage::Import => event is Imported,
        IndexStage::Finished => false,
    }
}

/// The stage that follows `stage` on `event`: the next stage on success, `Finished` on
/// any failure and after the import.
pub open spec fn next_stage(stage: IndexStage, event: IndexEvent) -> IndexStage {
    match event {
        IndexEvent::TokenChecked(Some(_)) => IndexStage::FetchAccessToken,
        IndexEvent::AccessToken(Ok(_)) => IndexStage::RunIndex,
        IndexEvent::Indexed(Ok(_)) => IndexStage::Import,
        _ => IndexStage::Finished,
    }
}

/// Whether `e` is the error `UserError::Unauthorized` with the message `m`.
pub open spec fn is_unauthorized(e: UserError, m: Seq<char>) -> bool {
    e matches UserError::Unauthorized(x) && x@ == m
}

/// Whether `e` is the error `UserError::BadRequest` with the message `m`.
pub open spec fn is_bad_request(e: UserError, m: Seq<char>) -> bool {
    e matches UserError::BadRequest(x) && x@ == m
}

/// Whether `e` is the error `UserError::InternalServerError` with the message `m`.
pub open spec fn is_internal(e: UserError, m: Seq<char>) -> bool {
    e matches UserError::InternalServerError(x) && x@ == m
}

impl IndexFlow {
    /// A request to index `product` of the integration of `platform` for `email`; an
    /// invalid session is refused with `unauthorized_message`.
    pub fn new(
        product: Product,
        platform: Platform,
        email: String,
        query: String,
        unauthorized_message: &'static str,
    ) -> (r: IndexFlow)
        ensures
            r.product == product,
            r.platform == platform,
            r.email == email,
            r.query == query,
            r.unauthorized_message == unauthorized_message,
            r.stage == IndexStage::CheckToken,
    {
        IndexFlow {
            product,
            platform,
            email,
            query,
            unauthorized_message,
            stage: IndexStage::CheckToken,
            user_id: String::new(),
        }
    }

    /// Takes the event that the current stage waits for and says what to do next.
    pub fn step(&mut self, event: IndexEvent) -> (action: IndexAction)
        requires
            expected(old(self).stage, event),
        ensures
            final(self).stage == next_stage(old(self).stage, event),
            final(self).product == old(self).product,
            final(self).platform == old(self).platform,
            final(self).email == old(self).email,
            final(self).query == old(self).query,
            final(self).unauthorized_message == old(self).unauthorized_message,
            (final(self).stage == IndexStage::Finished) <==> (action is Reply),
            match event {
                IndexEvent::TokenChecked(Some(u)) => {
                    &&& final(self).user_id == u
                    &&& action == IndexAction::FetchAccessToken {
                        user_id: u,
                        email: old(self).email,
                        platform: old(self).platform,
                    }
                },
                IndexEvent::TokenChecked(None) => action matches IndexAction::Reply(
                    IndexReply::Failed(e)) && is_unauthorized(e, old(self).unauthorized_message@),
                IndexEvent::AccessToken(Ok(t)) => {
                    &&& final(self).user_id == old(self).user_id
                    &&& action == IndexAction::RunIndex {
                        access_token: t,
                        user_id: old(self).user_id,
                        query: old(self).query,
                    }
                },
                IndexEvent::AccessToken(Err(m)) => action matches IndexAction::Reply(
                    IndexReply::Failed(e)) && is_bad_request(e, m@),
                IndexEvent::Indexed(Ok(_)) => {
                    &&& final(self).user_id == old(self).user_id
                    &&& action == IndexAction::Import {
                        user_id: old(self).user_id,
                        product: old(self).product,
                    }
                },
                IndexEvent::Indexed(Err(m)) => action matches IndexAction::Reply(
                    IndexReply::Failed(e)) && is_internal(e, m@),
                IndexEvent::Imported(Ok(_)) => action == IndexAction::Reply(IndexReply::Complete),
                IndexEvent::Imported(Err(m)) => action matches IndexAction::Reply(
                    IndexReply::Failed(e)) && is_internal(e, m@),
            },
    {
        match event {
            IndexEvent::TokenChecked(Some(u)) => {
                self.stage = IndexStage::FetchAccessToken;
                self.user_id = u.clone();
                IndexAction::FetchAccessToken {
                    user_id: u,
                    email: self.email.clone(),
                    platform: self.platform,
                }
            },
            IndexEvent::TokenChecked(None) => {
                self.stage = IndexStage::Finished;
                IndexAction::Reply(
                    IndexReply::Failed(UserError::Unauthorized(owned(self.unauthorized_message))),
                )
            },
            IndexEvent::AccessToken(Ok(t)) => {
                self.stage = IndexStage::RunIndex;
                IndexAction::RunIndex {
                    access_token: t,
                    user_id: self.user_id.clone(),
                    query: self.query.clone(),
                }
            },
            IndexEvent::AccessToken(Err(m)) => {
                self.stage = IndexStage::Finished;
                IndexAction::Reply(IndexReply::Failed(UserError::BadRequest(m)))
            },
            IndexEvent::Indexed(Ok(_)) => {
                self.stage = IndexStage::Import;
                IndexAction::Import { user_id: self.user_id.clone(), product: self.product }
            },
            IndexEvent::Indexed(Err(m)) => {
                self.stage = IndexStage::Finished;
                IndexAction::Reply(IndexReply::Failed(UserError::InternalServerError(m)))
            },
            IndexEvent::Imported(Ok(_)) => {
                self.stage = IndexStage::Finished;
                IndexAction::Reply(IndexReply::Complete)
            },
            IndexEvent::Imported(Err(m)) => {
                self.stage = IndexStage::Finished;
                IndexAction::Reply(IndexReply::Failed(UserError::InternalServerError(m)))
            },
        }
    }
}

/// Law: a request is answered exactly when it finishes, and a finished request takes no
/// further event, so every request is answered at most once; and the stages only move
/// forward (check, fetch, index, import, finished).
pub proof fn lemma_answered_once(stage: IndexStage, event: IndexEvent, later: IndexEvent)
    requires
        expected(stage, event),
    ensures
        next_stage(stage, event) == IndexStage::Finished ==> !expected(next_stage(stage, event), later),
        stage_rank(next_stage(stage, event)) > stage_rank(stage),
{
}

/// The position of a stage in the order the stages come.
pub open spec fn stage_rank(stage: IndexStage) -> int {
    match stage {
        IndexStage::CheckToken => 0,
        IndexStage::FetchAccessToken => 1,
        IndexStage::RunIndex => 2,
        IndexStage::Import => 3,
        IndexStage::Finished => 4,
    }
}

} // verus!
