use local_user::challenge::Difficulty;
use local_user::clock::LATEST;
use local_user::effect::{Action, Reply};
use local_user::get_captcha::{
    captcha_drawn, difficulty_from, CaptchaResponse, GetCaptcha, GetCaptchaResponse,
    GetCaptchaState,
};
use local_user::machine::{Abort, Perform, Resume, Step};
use local_user::model::{CaptchaItem, CaptchaSettings, Context, NaiveDateTime, Secret, Settings};

fn server(enabled: bool, difficulty: &str) -> Context {
    Context {
        settings: Settings {
            captcha: CaptchaSettings { enabled, difficulty: difficulty.to_string() },
            actor_name_max_length: 20,
            hostname: "lemmy.example".to_string(),
        },
        secret: Secret { jwt_secret: "pepper".to_string() },
    }
}

#[test]
fn difficulties_by_name() {
    assert_eq!(difficulty_from(&"easy".to_string()), Difficulty::Easy);
    assert_eq!(difficulty_from(&"medium".to_string()), Difficulty::Medium);
    assert_eq!(difficulty_from(&"hard".to_string()), Difficulty::Hard);
    assert_eq!(difficulty_from(&String::new()), Difficulty::Medium);
    assert_eq!(difficulty_from(&"Easy".to_string()), Difficulty::Medium);
    assert_eq!(difficulty_from(&"harder".to_string()), Difficulty::Medium);
}

#[test]
fn captchas_can_be_switched_off() {
    match (GetCaptcha {}).perform(&server(false, "easy"), None) {
        Step::Return(Ok(response)) => assert_eq!(response, GetCaptchaResponse { ok: None }),
        _ => panic!("a captcha is handed out"),
    }
}

fn hand_out(context: &Context) -> (captcha::Captcha, CaptchaItem, CaptchaResponse) {
    let (state, drawn) = match (GetCaptcha {}).perform(context, None) {
        Step::Call(state, Action::CaptchaWav { captcha }) => (state, captcha),
        _ => panic!("no captcha is drawn"),
    };
    let state = match state.resume(context, Reply::Wav("sounds".to_string())) {
        Step::Call(state, Action::Now) => state,
        _ => panic!("the clock is not read"),
    };
    let now = NaiveDateTime { secs: 1_640_995_200, nanos: 9 };
    let (state, item) = match state.resume(context, Reply::Time(now)) {
        Step::Call(state, Action::StoreCaptcha { item }) => (state, item),
        _ => panic!("the captcha is not kept"),
    };
    match state.resume(context, Reply::Sent) {
        Step::Return(Ok(GetCaptchaResponse { ok: Some(response) })) => (drawn, item, response),
        _ => panic!("no captcha is handed out"),
    }
}

#[test]
fn captcha_that_is_kept_is_the_one_that_is_shown() {
    for difficulty in ["easy", "medium", "hard", ""] {
        let (drawn, item, response) = hand_out(&server(true, difficulty));
        assert_eq!(item.answer, drawn.chars_as_string());
        assert!(4 <= item.answer.chars().count() && item.answer.chars().count() <= 6);
        assert_eq!(Some(response.png), drawn.as_base64());
        assert_eq!(response.wav, "sounds");
        assert_eq!(response.uuid, item.uuid);
        assert_eq!(item.expires, NaiveDateTime { secs: 1_640_995_800, nanos: 9 });
    }
}

#[test]
fn captchas_have_random_names() {
    let context = server(true, "easy");
    let (_, first, _) = hand_out(&context);
    let (_, second, _) = hand_out(&context);
    assert_ne!(first.uuid, second.uuid);
    for uuid in [first.uuid, second.uuid] {
        assert_eq!(uuid.len(), 36);
        for (i, c) in uuid.chars().enumerate() {
            match i {
                8 | 13 | 18 | 23 => assert_eq!(c, '-'),
                14 => assert_eq!(c, '4'),
                19 => assert!(matches!(c, '8' | '9' | 'a' | 'b')),
                _ => assert!(matches!(c, '0'..='9' | 'a'..='f')),
            }
        }
    }
}

#[test]
fn captcha_without_a_picture_is_abandoned() {
    let drawn = captcha::gen(captcha::Difficulty::Easy);
    let step = captcha_drawn(drawn, "abcd".to_string(), None, "name".to_string());
    assert!(matches!(step, Step::Abort(Abort::CaptchaNotEncoded)));

    let drawn = captcha::gen(captcha::Difficulty::Easy);
    let png = Some("png".to_string());
    match captcha_drawn(drawn, "abcd".to_string(), png, "name".to_string()) {
        Step::Call(GetCaptchaState::Wav { answer, png, uuid }, Action::CaptchaWav { .. }) => {
            assert_eq!(answer, "abcd");
            assert_eq!(png, "png");
            assert_eq!(uuid, "name");
        }
        _ => panic!("the captcha is abandoned"),
    }
}

#[test]
fn captcha_that_outlives_time_is_abandoned() {
    let state = GetCaptchaState::Time {
        answer: "abcd".to_string(),
        png: "png".to_string(),
        wav: "wav".to_string(),
        uuid: "name".to_string(),
    };
    let late = NaiveDateTime { secs: LATEST - 599, nanos: 0 };
    let step = state.resume(&server(true, "easy"), Reply::Time(late));
    assert!(matches!(step, Step::Abort(Abort::ExpiryOutOfRange)));
}
