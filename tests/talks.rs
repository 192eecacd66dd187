use d_id_stream::error::RequestBodyBuildError;
use d_id_stream::talks::{TalkRequestBody, TalkRequestBodyBuilder};
use d_id_stream::video::{Driver, Script, TTSProvider};

type Body = TalkRequestBody<(), ()>;
type Builder = TalkRequestBodyBuilder<(), ()>;

#[test]
fn talk_request_body_is_formatting_with_text_script() {
    let talk_req_bod: Body = TalkRequestBody {
        source_url: "www.dummyurl.com".to_string(),
        driver_url: None,
        script: Script::Text {
            kind: "text".to_string(),
            subtitles: false,
            provider: Some(TTSProvider::MicrosoftTTS {
                kind: "microsoft".to_string(),
                voice_id: "en-US-JennyNeural".to_string(),
            }),
            input: "Hello world!".to_string(),
            ssml: false,
        },
        config: None,
        user_data: "".to_string(),
        name: "".to_string(),
        webhook: "".to_string(),
        result_url: "".to_string(),
        face: None,
        persist: false,
    };

    let talk_req_bod2: Body = Builder::with_text_script().unwrap()
        .source_url("www.dummyurl.com").unwrap()
        .input("Hello world!").unwrap()
        .build().unwrap();

    let want = format!("{:?}", talk_req_bod);
    let got = format!("{:?}", talk_req_bod2);

    assert_eq!(want, got);
}

#[test]
fn talk_request_body_is_formatting_with_audio_script() {
    let talk_req_bod: Body = TalkRequestBody {
        source_url: "www.dummyurl.com".to_string(),
        driver_url: None,
        script: Script::Audio {
            kind: "audio".to_string(),
            subtitles: false,
            audio_url: "www.dummyaudiourl.com".to_string(),
            reduce_noise: false,
        },
        config: None,
        user_data: "".to_string(),
        name: "".to_string(),
        webhook: "".to_string(),
        result_url: "".to_string(),
        face: None,
        persist: false,
    };

    let talk_req_bod2: Body = Builder::with_audio_script().unwrap()
        .source_url("www.dummyurl.com").unwrap()
        .audio_url("www.dummyaudiourl.com").unwrap()
        .build().unwrap();

    let want = format!("{:?}", talk_req_bod);
    let got = format!("{:?}", talk_req_bod2);

    assert_eq!(want, got);
}

#[test]
fn talk_without_source_url_is_refused() {
    let r = Builder::with_text_script().unwrap().build();
    assert_eq!(r.unwrap_err(), RequestBodyBuildError::SourceUrlNotSet);
}

#[test]
fn talk_without_script_is_refused() {
    let mut b = Builder::with_text_script().unwrap().source_url("s").unwrap();
    b.script = None;
    assert_eq!(b.build().unwrap_err(), RequestBodyBuildError::ScriptNotSet);
}

#[test]
fn talk_optional_fields_are_carried() {
    let body: TalkRequestBody<u8, u16> = TalkRequestBodyBuilder::with_text_script().unwrap()
        .source_url("s").unwrap()
        .driver_url(Driver::SubtleDriver02).unwrap()
        .user_data("u").unwrap()
        .name("n").unwrap()
        .webhook("w").unwrap()
        .result_url("r").unwrap()
        .persist(true).unwrap()
        .face(3).unwrap()
        .config(4).unwrap()
        .ssml(true).unwrap()
        .subtitles(true).unwrap()
        .provider(TTSProvider::AmazonTTS { kind: "amazon".to_string(), voice_id: "Joanna".to_string() }).unwrap()
        .build().unwrap();
    assert_eq!(body.driver_url, Some(Driver::SubtleDriver02));
    assert_eq!(body.user_data, "u");
    assert_eq!(body.name, "n");
    assert_eq!(body.webhook, "w");
    assert_eq!(body.result_url, "r");
    assert!(body.persist);
    assert_eq!(body.face, Some(3));
    assert_eq!(body.config, Some(4));
    match body.script {
        Script::Text { ssml, subtitles, provider: Some(TTSProvider::AmazonTTS { voice_id, .. }), input, .. } => {
            assert!(ssml);
            assert!(subtitles);
            assert_eq!(voice_id, "Joanna");
            assert_eq!(input, "");
        }
        _ => panic!("expected a text script"),
    }
}

#[test]
fn text_edits_leave_audio_script_alone() {
    let b = Builder::with_audio_script().unwrap()
        .input("ignored").unwrap()
        .ssml(true).unwrap()
        .subtitles(true).unwrap()
        .reduce_noise(true).unwrap();
    match b.script {
        Some(Script::Audio { subtitles, reduce_noise, audio_url, .. }) => {
            assert!(!subtitles);
            assert!(reduce_noise);
            assert_eq!(audio_url, "");
        }
        _ => panic!("expected an audio script"),
    }
}
