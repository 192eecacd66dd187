//! Values of the clip endpoints.
use vstd::prelude::*;
use crate::error::RequestBodyBuildError;
use crate::video::{
    audio_url_set, default_audio_script, default_text_script, holds_text, input_set,
    is_default_audio_script, is_default_text_script, provider_set, reduce_noise_set,
    set_audio_url, set_input, set_provider, set_reduce_noise, set_ssml, set_subtitles, ssml_set,
    string_or_empty, subtitles_set, text_or_empty, Script, TTSProvider,
};

verus! {

#[derive(Clone, Debug)]
pub struct GetPresentersResponse {
    pub presenters: Vec<Presenter>,
}

#[derive(Clone, Debug)]
pub struct Presenter {
    pub presenter_id: String,
    pub driver_id: String,
    pub gender: String,
    pub owner_id: String,
    pub preview_url: String,
    pub modified_at: String,
}

#[derive(Clone, Debug)]
pub struct PresenterConfig {
    pub crop: Crop,
}

#[derive(Clone, Debug)]
pub struct Crop {
    pub kind: String,
    pub rectangle: Rectangle,
}

#[derive(Clone, Copy, Debug, PartialEq, Eq, Structural)]
pub struct Rectangle {
    pub bottom: i64,
    pub left: i64,
    pub right: i64,
    pub top: i64,
}

#[derive(Clone, Debug)]
pub struct Background {
    pub color: String,
}

#[derive(Clone, Debug)]
pub struct CreateClipResponse {
    pub id: String,
    pub object: String,
    pub created_at: String,
    pub status: String,
}

#[derive(Clone, Debug)]
pub struct GetPresenterDriversResponse {
    pub clips_drivers: Vec<ClipDriver>,
}

#[derive(Clone, Debug)]
pub struct ClipDriver {
    pub created_at: String,
    pub driver_id: String,
    pub driver_image_url: String,
    pub gender: String,
    pub modified_at: String,
    pub name: String,
    pub presenter_id: String,
    pub preview_url: String,
    pub thumbnail_url: String,
    pub video_url: String,
}

/// The body of a clip creation. `C` is the configuration sent with it; the
/// body only carries it.
#[derive(Clone, Debug)]
pub struct ClipRequestBody<C> {
    pub presenter_id: String,
    pub script: Script,
    pub driver_id: String,
    pub config: Option<C>,
    pub created_by: String,
    pub presenter_config: Option<PresenterConfig>,
    pub background: Option<Background>,
    pub user_data: String,
    pub name: String,
    pub webhook: String,
    pub result_url: String,
    pub raw_result_url: String,
    pub persist: Option<bool>,
}

/// Collects the fields of a clip creation; the presenter and the script
/// are required.
#[derive(Clone, Debug)]
pub struct ClipRequestBodyBuilder<C> {
    pub presenter_id: Option<String>,
    pub driver_id: Option<String>,
    pub script: Option<Script>,
    pub config: Option<C>,
    pub created_by: Option<String>,
    pub presenter_config: Option<PresenterConfig>,
    pub background: Option<Background>,
    pub user_data: Option<String>,
    pub name: Option<String>,
    pub webhook: Option<String>,
    pub result_url: Option<String>,
    pub raw_result_url: Option<String>,
    pub persist: Option<bool>,
}

impl<C> ClipRequestBodyBuilder<C> {
    /// A builder with nothing set but, possibly, the presenter and the
    /// script.
    pub open spec fn only(self, presenter_id: Option<String>, script: Option<Script>) -> bool {
        self == (ClipRequestBodyBuilder::<C> {
            presenter_id,
            driver_id: None,
            script,
            config: None,
            created_by: None,
            presenter_config: None,
            background: None,
            user_data: None,
            name: None,
            webhook: None,
            result_url: None,
            raw_result_url: None,
            persist: None,
        })
    }

    pub fn new() -> (r: Self)
        ensures
            r.only(None, None),
    {
        ClipRequestBodyBuilder {
            presenter_id: None,
            driver_id: None,
            script: None,
            config: None,
            created_by: None,
            presenter_config: None,
            background: None,
            user_data: None,
            name: None,
            webhook: None,
            result_url: None,
            raw_result_url: None,
            persist: None,
        }
    }

    /// A builder for a clip in which the presenter speaks a text.
    pub fn with_text_script(presenter_id: &str) -> (r: Self)
        ensures
            holds_text(r.presenter_id, presenter_id@),
            is_default_text_script(r.script->Some_0),
            r.only(r.presenter_id, r.script),
    {
        let mut b = Self::new();
        b.presenter_id = Some(presenter_id.to_string());
        b.script = Some(default_text_script());
        b
    }

    /// A builder for a clip in which the presenter plays recorded audio.
    pub fn with_audio_script(presenter_id: &str) -> (r: Self)
        ensures
            holds_text(r.presenter_id, presenter_id@),
            is_default_audio_script(r.script->Some_0),
            r.only(r.presenter_id, r.script),
    {
        let mut b = Self::new();
        b.presenter_id = Some(presenter_id.to_string());
        b.script = Some(default_audio_script());
        b
    }

    pub fn presenter_id(self, presenter_id: &str) -> (r: Self)
        ensures
            r == (Self { presenter_id: r.presenter_id, ..self }),
            holds_text(r.presenter_id, presenter_id@),
    {
        Self { presenter_id: Some(presenter_id.to_string()), ..self }
    }

    pub fn driver_id(self, driver_id: &str) -> (r: Self)
        ensures
            r == (Self { driver_id: r.driver_id, ..self }),
            holds_text(r.driver_id, driver_id@),
    {
        Self { driver_id: Some(driver_id.to_string()), ..self }
    }

    pub fn script(self, script: Script) -> (r: Self)
        ensures
            r == (Self { script: Some(script), ..self }),
    {
        Self { script: Some(script), ..self }
    }

    pub fn config(self, config: C) -> (r: Self)
        ensures
            r == (Self { config: Some(config), ..self }),
    {
        Self { config: Some(config), ..self }
    }

    pub fn created_by(self, created_by: &str) -> (r: Self)
        ensures
            r == (Self { created_by: r.created_by, ..self }),
            holds_text(r.created_by, created_by@),
    {
        Self { created_by: Some(created_by.to_string()), ..self }
    }

    pub fn presenter_config(self, presenter_config: PresenterConfig) -> (r: Self)
        ensures
            r == (Self { presenter_config: Some(presenter_config), ..self }),
    {
        Self { presenter_config: Some(presenter_config), ..self }
    }

    pub fn background(self, background: Background) -> (r: Self)
        ensures
            r == (Self { background: Some(background), ..self }),
    {
        Self { background: Some(background), ..self }
    }

    pub fn user_data(self, user_data: &str) -> (r: Self)
        ensures
            r == (Self { user_data: r.user_data, ..self }),
            holds_text(r.user_data, user_data@),
    {
        Self { user_data: Some(user_data.to_string()), ..self }
    }

    pub fn name(self, name: &str) -> (r: Self)
        ensures
            r == (Self { name: r.name, ..self }),
            holds_text(r.name, name@),
    {
        Self { name: Some(name.to_string()), ..self }
    }

    pub fn webhook(self, webhook: &str) -> (r: Self)
        ensures
            r == (Self { webhook: r.webhook, ..self }),
            holds_text(r.webhook, webhook@),
    {
        Self { webhook: Some(webhook.to_string()), ..self }
    }

    pub fn result_url(self, result_url: &str) -> (r: Self)
        ensures
            r == (Self { result_url: r.result_url, ..self }),
            holds_text(r.result_url, result_url@),
    {
        Self { result_url: Some(result_url.to_string()), ..self }
    }

    pub fn raw_result_url(self, raw_result_url: &str) -> (r: Self)
        ensures
            r == (Self { raw_result_url: r.raw_result_url, ..self }),
            holds_text(r.raw_result_url, raw_result_url@),
    {
        Self { raw_result_url: Some(raw_result_url.to_string()), ..self }
    }

    pub fn persist(self, persist: bool) -> (r: Self)
        ensures
            r == (Self { persist: Some(persist), ..self }),
    {
        Self { persist: Some(persist), ..self }
    }

    pub fn audio_url(self, audio_url: &str) -> (r: Result<Self, RequestBodyBuildError>)
        ensures
            r is Ok,
            r->Ok_0 == (Self { script: r->Ok_0.script, ..self }),
            audio_url_set(self.script, r->Ok_0.script, audio_url@),
    {
        let mut b = self;
        set_audio_url(&mut b.script, audio_url);
        Ok(b)
    }

    pub fn input(self, input: &str) -> (r: Self)
        ensures
            r == (Self { script: r.script, ..self }),
            input_set(self.script, r.script, input@),
    {
        let mut b = self;
        set_input(&mut b.script, input);
        b
    }

    pub fn ssml(self, ssml: bool) -> (r: Result<Self, RequestBodyBuildError>)
        ensures
            r is Ok,
            r->Ok_0 == (Self { script: r->Ok_0.script, ..self }),
            ssml_set(self.script, r->Ok_0.script, ssml),
    {
        let mut b = self;
        set_ssml(&mut b.script, ssml);
        Ok(b)
    }

    pub fn subtitles(self, subtitles: bool) -> (r: Result<Self, RequestBodyBuildError>)
        ensures
            r is Ok,
            r->Ok_0 == (Self { script: r->Ok_0.script, ..self }),
            subtitles_set(self.script, r->Ok_0.script, subtitles),
    {
        let mut b = self;
        set_subtitles(&mut b.script, subtitles);
        Ok(b)
    }

    pub fn provider(self, provider: TTSProvider) -> (r: Result<Self, RequestBodyBuildError>)
        ensures
            r is Ok,
            r->Ok_0 == (Self { script: r->Ok_0.script, ..self }),
            provider_set(self.script, r->Ok_0.script, provider),
    {
        let mut b = self;
        set_provider(&mut b.script, provider);
        Ok(b)
    }

    pub fn reduce_noise(self, reduce_noise: bool) -> (r: Result<Self, RequestBodyBuildError>)
        ensures
            r is Ok,
            r->Ok_0 == (Self { script: r->Ok_0.script, ..self }),
            reduce_noise_set(self.script, r->Ok_0.script, reduce_noise),
    {
        let mut b = self;
        set_reduce_noise(&mut b.script, reduce_noise);
        Ok(b)
    }

    /// The body: fails without a presenter, then without a script; unset
    /// texts become empty.
    pub fn build(self) -> (r: Result<ClipRequestBody<C>, RequestBodyBuildError>)
        ensures
            self.presenter_id is None ==> r == Err::<ClipRequestBody<C>, RequestBodyBuildError>(
                RequestBodyBuildError::PresenterIdNotSet,
            ),
            self.presenter_id is Some && self.script is None ==> r == Err::<
                ClipRequestBody<C>,
                RequestBodyBuildError,
            >(RequestBodyBuildError::ScriptNotSet),
            self.presenter_id is Some && self.script is Some ==> r is Ok && {
                let b = r->Ok_0;
                &&& b.presenter_id == self.presenter_id->Some_0
                &&& b.script == self.script->Some_0
                &&& b.driver_id@ == text_or_empty(self.driver_id)
                &&& b.config == self.config
                &&& b.created_by@ == text_or_empty(self.created_by)
                &&& b.presenter_config == self.presenter_config
                &&& b.background == self.background
                &&& b.user_data@ == text_or_empty(self.user_data)
                &&& b.name@ == text_or_empty(self.name)
                &&& b.webhook@ == text_or_empty(self.webhook)
                &&& b.result_url@ == text_or_empty(self.result_url)
                &&& b.raw_result_url@ == text_or_empty(self.raw_result_url)
                &&& b.persist == self.persist
            },
    {
        let presenter_id = match self.presenter_id {
            Some(p) => p,
            None => {
                return Err(RequestBodyBuildError::PresenterIdNotSet);
            },
        };
        let script = match self.script {
            Some(s) => s,
            None => {
                return Err(RequestBodyBuildError::ScriptNotSet);
            },
        };
        Ok(
            ClipRequestBody {
                presenter_id,
                script,
                driver_id: string_or_empty(self.driver_id),
                config: self.config,
                created_by: string_or_empty(self.created_by),
                presenter_config: self.presenter_config,
                background: self.background,
                user_data: string_or_empty(self.user_data),
                name: string_or_empty(self.name),
                webhook: string_or_empty(self.webhook),
                result_url: string_or_empty(self.result_url),
                raw_result_url: string_or_empty(self.raw_result_url),
                persist: self.persist,
            },
        )
    }
}

} // verus!
