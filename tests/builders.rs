use d_id_stream::animations::AnimationRequestBodyBuilder;
use d_id_stream::clips::{Background, ClipRequestBodyBuilder};
use d_id_stream::error::RequestBodyBuildError;
use d_id_stream::signaling::NewStreamRequestBodyBuilder;
use d_id_stream::video::Script;

#[test]
fn clip_with_text_script_sets_presenter_and_input() {
    let body = ClipRequestBodyBuilder::<()>::with_text_script("amy")
        .input("Hi")
        .driver_id("d")
        .background(Background { color: "#fff".to_string() })
        .build()
        .unwrap();
    assert_eq!(body.presenter_id, "amy");
    assert_eq!(body.driver_id, "d");
    assert_eq!(body.background.unwrap().color, "#fff");
    assert_eq!(body.created_by, "");
    assert_eq!(body.persist, None);
    match body.script {
        Script::Text { input, kind, .. } => {
            assert_eq!(input, "Hi");
            assert_eq!(kind, "text");
        }
        _ => panic!("expected a text script"),
    }
}

#[test]
fn clip_without_presenter_is_refused() {
    let r = ClipRequestBodyBuilder::<()>::new().script(Script::Audio {
        kind: "audio".to_string(),
        subtitles: false,
        audio_url: "a".to_string(),
        reduce_noise: false,
    }).build();
    assert_eq!(r.unwrap_err(), RequestBodyBuildError::PresenterIdNotSet);
}

#[test]
fn clip_without_script_is_refused() {
    let r = ClipRequestBodyBuilder::<()>::new().presenter_id("p").build();
    assert_eq!(r.unwrap_err(), RequestBodyBuildError::ScriptNotSet);
}

#[test]
fn clip_audio_url_sets_audio_script() {
    let body = ClipRequestBodyBuilder::<()>::with_audio_script("p")
        .audio_url("https://a/b.wav")
        .unwrap()
        .persist(true)
        .build()
        .unwrap();
    assert_eq!(body.persist, Some(true));
    match body.script {
        Script::Audio { audio_url, .. } => assert_eq!(audio_url, "https://a/b.wav"),
        _ => panic!("expected an audio script"),
    }
}

#[test]
fn animation_needs_source_url() {
    let r = AnimationRequestBodyBuilder::<(), ()>::new().driver_url("d".to_string()).build();
    assert_eq!(r.unwrap_err(), RequestBodyBuildError::SourceUrlNotSet);
    let body = AnimationRequestBodyBuilder::<(), ()>::new()
        .source_url("s".to_string())
        .webhook("w".to_string())
        .build()
        .unwrap();
    assert_eq!(body.source_url, "s");
    assert_eq!(body.webhook, "w");
    assert_eq!(body.driver_url, "");
    assert_eq!(body.result_url, "");
}

#[test]
fn stream_request_needs_source_url() {
    let r = NewStreamRequestBodyBuilder::<(), ()>::new().driver_url("d").build();
    assert_eq!(r.unwrap_err(), RequestBodyBuildError::SourceUrlNotSet);
    let body = NewStreamRequestBodyBuilder::<(), ()>::new().source_url("s").build().unwrap();
    assert_eq!(body.source_url, "s");
    assert_eq!(body.driver_url, "");
    assert!(body.face.is_none());
}
