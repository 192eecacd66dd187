//! Replies of the talk endpoints.
use vstd::prelude::*;
use crate::error::RequestBodyBuildError;
use crate::video::{
    audio_url_set, default_audio_script, default_text_script, input_set, is_default_audio_script,
    is_default_text_script, provider_set, reduce_noise_set, set_audio_url, set_input, set_provider,
    set_reduce_noise, set_ssml, set_subtitles, ssml_set, string_or_empty, subtitles_set,
    text_or_empty, holds_text, Driver, Script, TTSProvider,
};

verus! {

#[derive(Clone, Debug)]
pub struct CreateTalkResponse {
    pub id: String,
    pub object: String,
    pub created_by: String,
    pub created_at: String,
    pub status: String,
}

#[derive(Clone, Debug)]
pub struct GetTalkResponse {
    pub id: String,
    pub user_id: String,
    pub source_url: String,
    pub created_at: String,
    pub audio_url: String,
    pub started_at: String,
    pub modified_at: String,
    pub status: String,
    pub result_url: String,
}

#[derive(Clone, Debug)]
pub struct GetTalksResponse {
    pub talks: Vec<GetTalkResponse>,
}

/// The body of a talk creation. `F` is the face and `C` the configuration
/// sent with it; the body only carries them.
#[derive(Clone, Debug)]
pub struct TalkRequestBody<F, C> {
    pub source_url: String,
    pub driver_url: Option<Driver>,
    pub script: Script,
    pub config: Option<C>,
    pub user_data: String,
    pub name: String,
    pub webhook: String,
    pub result_url: String,
    pub face: Option<F>,
    pub persist: bool,
}

/// Collects the fields of a talk creation; the source URL and the script
/// are required.
#[derive(Clone, Debug)]
pub struct TalkRequestBodyBuilder<F, C> {
    pub source_url: Option<String>,
    pub driver_url: Option<Driver>,
    pub script: Option<Script>,
    pub config: Option<C>,
    pub user_data: Option<String>,
    pub name: Option<String>,
    pub webhook: Option<String>,
    pub result_url: Option<String>,
    pub face: Option<F>,
    pub persist: Option<bool>,
}

impl<F, C> TalkRequestBodyBuilder<F, C> {
    /// A builder with nothing set but the script.
    pub open spec fn only_script(self, script: Script) -> bool {
        self == (TalkRequestBodyBuilder::<F, C> {
            source_url: None,
            driver_url: None,
            script: Some(script),
            config: None,
            user_data: None,
            name: None,
            webhook: None,
            result_url: None,
            face: None,
            persist: None,
        })
    }

    /// A builder for a talk that speaks a text.
    pub fn with_text_script() -> (r: Result<Self, RequestBodyBuildError>)
        ensures
            r is Ok,
            is_default_text_script(r->Ok_0.script->Some_0),
            r->Ok_0.only_script(r->Ok_0.script->Some_0),
    {
        Ok(
            TalkRequestBodyBuilder {
                source_url: None,
                driver_url: None,
                script: Some(default_text_script()),
                config: None,
                user_data: None,
                name: None,
                webhook: None,
                result_url: None,
                face: None,
                persist: None,
            },
        )
    }

    /// A builder for a talk that plays recorded audio.
    pub fn with_audio_script() -> (r: Result<Self, RequestBodyBuildError>)
        ensures
            r is Ok,
            is_default_audio_script(r->Ok_0.script->Some_0),
            r->Ok_0.only_script(r->Ok_0.script->Some_0),
    {
        Ok(
            TalkRequestBodyBuilder {
                source_url: None,
                driver_url: None,
                script: Some(default_audio_script()),
                config: None,
                user_data: None,
                name: None,
                webhook: None,
                result_url: None,
                face: None,
                persist: None,
            },
        )
    }

    pub fn source_url(self, source_url: &str) -> (r: Result<Self, RequestBodyBuildError>)
        ensures
            r is Ok,
            r->Ok_0 == (Self { source_url: r->Ok_0.source_url, ..self }),
            holds_text(r->Ok_0.source_url, source_url@),
    {
        Ok(Self { source_url: Some(source_url.to_string()), ..self })
    }

    pub fn audio_url(self, audio_url: &str) -> (r: Result<Self, RequestBodyBuildError>)
        ensures
            r is Ok,
            r->Ok_0 == (Self { script: r->Ok_0.script, ..self }),
            audio_url_set(self.script, r->Ok_0.script, audio_url@),
    {
        let mut b = self;
        set_audio_url(&mut b.script, audio_url);
        Ok(b)
    }

    pub fn driver_url(self, driver_url: Driver) -> (r: Result<Self, RequestBodyBuildError>)
        ensures
            r == Ok::<Self, RequestBodyBuildError>(Self { driver_url: Some(driver_url), ..self }),
    {
        Ok(Self { driver_url: Some(driver_url), ..self })
    }

    pub fn script(self, script: Script) -> (r: Result<Self, RequestBodyBuildError>)
        ensures
            r == Ok::<Self, RequestBodyBuildError>(Self { script: Some(script), ..self }),
    {
        Ok(Self { script: Some(script), ..self })
    }

    pub fn user_data(self, user_data: &str) -> (r: Result<Self, RequestBodyBuildError>)
        ensures
            r is Ok,
            r->Ok_0 == (Self { user_data: r->Ok_0.user_data, ..self }),
            holds_text(r->Ok_0.user_data, user_data@),
    {
        Ok(Self { user_data: Some(user_data.to_string()), ..self })
    }

    pub fn name(self, name: &str) -> (r: Result<Self, RequestBodyBuildError>)
        ensures
            r is Ok,
            r->Ok_0 == (Self { name: r->Ok_0.name, ..self }),
            holds_text(r->Ok_0.name, name@),
    {
        Ok(Self { name: Some(name.to_string()), ..self })
    }

    pub fn webhook(self, webhook: &str) -> (r: Result<Self, RequestBodyBuildError>)
        ensures
            r is Ok,
            r->Ok_0 == (Self { webhook: r->Ok_0.webhook, ..self }),
            holds_text(r->Ok_0.webhook, webhook@),
    {
        Ok(Self { webhook: Some(webhook.to_string()), ..self })
    }

    pub fn result_url(self, result_url: &str) -> (r: Result<Self, RequestBodyBuildError>)
        ensures
            r is Ok,
            r->Ok_0 == (Self { result_url: r->Ok_0.result_url, ..self }),
            holds_text(r->Ok_0.result_url, result_url@),
    {
        Ok(Self { result_url: Some(result_url.to_string()), ..self })
    }

    pub fn persist(self, persist: bool) -> (r: Result<Self, RequestBodyBuildError>)
        ensures
            r == Ok::<Self, RequestBodyBuildError>(Self { persist: Some(persist), ..self }),
    {
        Ok(Self { persist: Some(persist), ..self })
    }

    pub fn input(self, input: &str) -> (r: Result<Self, RequestBodyBuildError>)
        ensures
            r is Ok,
            r->Ok_0 == (Self { script: r->Ok_0.script, ..self }),
            input_set(self.script, r->Ok_0.script, input@),
    {
        let mut b = self;
        set_input(&mut b.script, input);
        Ok(b)
    }

    pub fn ssml(self, ssml: bool) -> (r: Result<Self, RequestBodyBuildError>)
        ensures
            r is Ok,
            r->Ok_0 == (Self { script: r->Ok_0.script, ..self }),
            ssml_set(self.script, r->Ok_0.script, ssml),
    {
        let mut b = self;
        set_ssml(&mut b.script, ssml);
        Ok(b)
    }

    pub fn subtitles(self, subtitles: bool) -> (r: Result<Self, RequestBodyBuildError>)
        ensures
            r is Ok,
            r->Ok_0 == (Self { script: r->Ok_0.script, ..self }),
            subtitles_set(self.script, r->Ok_0.script, subtitles),
    {
        let mut b = self;
        set_subtitles(&mut b.script, subtitles);
        Ok(b)
    }

    pub fn provider(self, provider: TTSProvider) -> (r: Result<Self, RequestBodyBuildError>)
        ensures
            r is Ok,
            r->Ok_0 == (Self { script: r->Ok_0.script, ..self }),
            provider_set(self.script, r->Ok_0.script, provider),
    {
        let mut b = self;
        set_provider(&mut b.script, provider);
        Ok(b)
    }

    pub fn face(self, face: F) -> (r: Result<Self, RequestBodyBuildError>)
        ensures
            r == Ok::<Self, RequestBodyBuildError>(Self { face: Some(face), ..self }),
    {
        Ok(Self { face: Some(face), ..self })
    }

    pub fn config(self, config: C) -> (r: Result<Self, RequestBodyBuildError>)
        ensures
            r == Ok::<Self, RequestBodyBuildError>(Self { config: Some(config), ..self }),
    {
        Ok(Self { config: Some(config), ..self })
    }

    pub fn reduce_noise(self, reduce_noise: bool) -> (r: Result<Self, RequestBodyBuildError>)
        ensures
            r is Ok,
            r->Ok_0 == (Self { script: r->Ok_0.script, ..self }),
            reduce_noise_set(self.script, r->Ok_0.script, reduce_noise),
    {
        let mut b = self;
        set_reduce_noise(&mut b.script, reduce_noise);
        Ok(b)
    }

    /// The body: fails without a source URL, then without a script; unset
    /// texts become empty and an unset persistence flag false.
    pub fn build(self) -> (r: Result<TalkRequestBody<F, C>, RequestBodyBuildError>)
        ensures
            self.source_url is None ==> r == Err::<TalkRequestBody<F, C>, RequestBodyBuildError>(
                RequestBodyBuildError::SourceUrlNotSet,
            ),
            self.source_url is Some && self.script is None ==> r == Err::<
                TalkRequestBody<F, C>,
                RequestBodyBuildError,
            >(RequestBodyBuildError::ScriptNotSet),
            self.source_url is Some && self.script is Some ==> r is Ok && {
                let b = r->Ok_0;
                &&& b.source_url == self.source_url->Some_0
                &&& b.driver_url == self.driver_url
                &&& b.script == self.script->Some_0
                &&& b.config == self.config
                &&& b.user_data@ == text_or_empty(self.user_data)
                &&& b.name@ == text_or_empty(self.name)
                &&& b.webhook@ == text_or_empty(self.webhook)
                &&& b.result_url@ == text_or_empty(self.result_url)
                &&& b.face == self.face
                &&& b.persist == match self.persist {
                    Some(p) => p,
                    None => false,
                }
            },
    {
        let source_url = match self.source_url {
            Some(u) => u,
            None => {
                return Err(RequestBodyBuildError::SourceUrlNotSet);
            },
        };
        let script = match self.script {
            Some(s) => s,
            None => {
                return Err(RequestBodyBuildError::ScriptNotSet);
            },
        };
        Ok(
            TalkRequestBody {
                source_url,
                driver_url: self.driver_url,
                script,
                config: self.config,
                user_data: string_or_empty(self.user_data),
                name: string_or_empty(self.name),
                webhook: string_or_empty(self.webhook),
                result_url: string_or_empty(self.result_url),
                face: self.face,
                persist: match self.persist {
                    Some(p) => p,
                    None => false,
                },
            },
        )
    }
}

} // verus!
