//! Replies of the animation endpoints.
use vstd::prelude::*;
use crate::error::RequestBodyBuildError;
use crate::video::{string_or_empty, text_or_empty};

verus! {

#[derive(Clone, Debug)]
pub struct PostAnimationResponse {
    pub id: String,
    pub object: String,
    pub status: String,
    pub created_by: String,
    pub created_at: String,
}

#[derive(Clone, Debug)]
pub struct Animation {
    pub id: String,
    pub user_id: String,
    pub source_url: String,
    pub status: String,
    pub modified_at: String,
    pub result_url: String,
    pub error: Option<AnimationError>,
}

#[derive(Clone, Debug)]
pub struct GetAnimationsResponse {
    pub animations: Vec<Animation>,
}

/// Why an animation failed.
#[derive(Clone, Debug)]
pub struct AnimationError {
    pub kind: String,
    pub description: String,
}

/// The body of an animation creation. `F` is the face and `C` the
/// configuration sent with it; the body only carries them.
#[derive(Clone, Debug)]
pub struct AnimationRequestBody<F, C> {
    pub source_url: String,
    pub driver_url: String,
    pub result_url: String,
    pub webhook: String,
    pub user_data: String,
    pub face: Option<F>,
    pub config: Option<C>,
}

/// Collects the fields of an animation creation; the source URL is
/// required.
#[derive(Clone, Debug)]
pub struct AnimationRequestBodyBuilder<F, C> {
    pub source_url: Option<String>,
    pub driver_url: Option<String>,
    pub result_url: Option<String>,
    pub webhook: Option<String>,
    pub user_data: Option<String>,
    pub face: Option<F>,
    pub config: Option<C>,
}

impl<F, C> AnimationRequestBodyBuilder<F, C> {
    pub fn new() -> (r: Self)
        ensures
            r == (Self {
                source_url: None,
                driver_url: None,
                result_url: None,
                webhook: None,
                user_data: None,
                face: None,
                config: None,
            }),
    {
        AnimationRequestBodyBuilder {
            source_url: None,
            driver_url: None,
            result_url: None,
            webhook: None,
            user_data: None,
            face: None,
            config: None,
        }
    }

    pub fn source_url(self, source_url: String) -> (r: Self)
        ensures
            r == (Self { source_url: Some(source_url), ..self }),
    {
        Self { source_url: Some(source_url), ..self }
    }

    pub fn driver_url(self, driver_url: String) -> (r: Self)
        ensures
            r == (Self { driver_url: Some(driver_url), ..self }),
    {
        Self { driver_url: Some(driver_url), ..self }
    }

    pub fn result_url(self, result_url: String) -> (r: Self)
        ensures
            r == (Self { result_url: Some(result_url), ..self }),
    {
        Self { result_url: Some(result_url), ..self }
    }

    pub fn webhook(self, webhook: String) -> (r: Self)
        ensures
            r == (Self { webhook: Some(webhook), ..self }),
    {
        Self { webhook: Some(webhook), ..self }
    }

    pub fn user_data(self, user_data: String) -> (r: Self)
        ensures
            r == (Self { user_data: Some(user_data), ..self }),
    {
        Self { user_data: Some(user_data), ..self }
    }

    pub fn face(self, face: F) -> (r: Self)
        ensures
            r == (Self { face: Some(face), ..self }),
    {
        Self { face: Some(face), ..self }
    }

    pub fn config(self, config: C) -> (r: Self)
        ensures
            r == (Self { config: Some(config), ..self }),
    {
        Self { config: Some(config), ..self }
    }

    /// The body: fails without a source URL; unset texts become empty.
    pub fn build(self) -> (r: Result<AnimationRequestBody<F, C>, RequestBodyBuildError>)
        ensures
            self.source_url is None ==> r == Err::<AnimationRequestBody<F, C>, RequestBodyBuildError>(
                RequestBodyBuildError::SourceUrlNotSet,
            ),
            self.source_url is Some ==> r is Ok && {
                let b = r->Ok_0;
                &&& b.source_url == self.source_url->Some_0
                &&& b.driver_url@ == text_or_empty(self.driver_url)
                &&& b.result_url@ == text_or_empty(self.result_url)
                &&& b.webhook@ == text_or_empty(self.webhook)
                &&& b.user_data@ == text_or_empty(self.user_data)
                &&& b.face == self.face
                &&& b.config == self.config
            },
    {
        let source_url = match self.source_url {
            Some(u) => u,
            None => {
                return Err(RequestBodyBuildError::SourceUrlNotSet);
            },
        };
        Ok(
            AnimationRequestBody {
                source_url,
                driver_url: string_or_empty(self.driver_url),
                result_url: string_or_empty(self.result_url),
                webhook: string_or_empty(self.webhook),
                user_data: string_or_empty(self.user_data),
                face: self.face,
                config: self.config,
            },
        )
    }
}

} // verus!
