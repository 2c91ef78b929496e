//! Handing out a captcha to be solved.
use vstd::prelude::*;
use vstd::pervasive::unreached;

use crate::challenge::{
    can_be_drawn, can_be_generated, generate, letters, letters_of, new_uuid, picture, picture_of,
    random_uuid, Difficulty,
};
use crate::effect::{Action, Reply};
use crate::machine::{Abort, Perform, Resume, Step};
use crate::model::{CaptchaItem, ConnectionId, Context, NaiveDateTime};
use crate::run::{lemma_first_steps, run_of, Run};

verus! {

/// How long a captcha can be solved.
pub const EXPIRES_IN_MINUTES: i64 = 10;

#[derive(Clone, Copy, Debug, PartialEq, Eq, Structural)]
pub struct GetCaptcha {}

/// A captcha as clients get it: a picture, the letters spoken, and the name under which it waits.
#[derive(Debug, PartialEq, Eq)]
pub struct CaptchaResponse {
    pub png: String,
    pub wav: String,
    pub uuid: String,
}

#[derive(Debug, PartialEq, Eq)]
pub struct GetCaptchaResponse {
    pub ok: Option<CaptchaResponse>,
}

/// The requests that wait, by what they wait for.
pub enum GetCaptchaState {
    Wav { answer: String, png: String, uuid: String },
    Time { answer: String, png: String, wav: String, uuid: String },
    Stored(CaptchaResponse),
}

/// What follows an outcome.
pub type GetCaptchaStep = Step<GetCaptchaState, GetCaptchaResponse>;

/// The difficulty that a setting asks for. What is not the name of one is taken for the medium.
pub open spec fn difficulty_named(name: Seq<char>) -> Difficulty {
    if name == "easy"@ {
        Difficulty::Easy
    } else if name == "hard"@ {
        Difficulty::Hard
    } else {
        Difficulty::Medium
    }
}

/// Reads the name of a difficulty.
pub fn difficulty_from(name: &String) -> (difficulty: Difficulty)
    ensures
        difficulty == difficulty_named(name@),
        name@ == "easy"@ ==> difficulty == Difficulty::Easy,
        name@ == "medium"@ ==> difficulty == Difficulty::Medium,
        name@ == "hard"@ ==> difficulty == Difficulty::Hard,
{
    proof {
        reveal_strlit("easy");
        reveal_strlit("medium");
        reveal_strlit("hard");
        assert("easy"@[0] == 'e' && "medium"@[0] == 'm' && "hard"@[0] == 'h');
    }
    if *name == "easy".to_string() {
        Difficulty::Easy
    } else if *name == "hard".to_string() {
        Difficulty::Hard
    } else {
        Difficulty::Medium
    }
}

/// A captcha was drawn, with its picture where it can be encoded, and a name for it: its letters
/// are spoken next.
pub open spec fn drawn(
    captcha: captcha::Captcha,
    answer: String,
    png: Option<String>,
    uuid: String,
) -> GetCaptchaStep {
    match png {
        Some(png) => Step::Call(
            GetCaptchaState::Wav { answer, png, uuid },
            Action::CaptchaWav { captcha },
        ),
        None => Step::Abort(Abort::CaptchaNotEncoded),
    }
}

/// Goes on with a captcha, its letters, its picture and its name.
pub fn captcha_drawn(
    captcha: captcha::Captcha,
    answer: String,
    png: Option<String>,
    uuid: String,
) -> (step: GetCaptchaStep)
    ensures
        step == drawn(captcha, answer, png, uuid),
{
    match png {
        Some(png) => Step::Call(
            GetCaptchaState::Wav { answer, png, uuid },
            Action::CaptchaWav { captcha },
        ),
        None => Step::Abort(Abort::CaptchaNotEncoded),
    }
}

/// The captcha is kept under its name, with its letters, until it expires.
pub open spec fn keeping(
    answer: String,
    png: String,
    wav: String,
    uuid: String,
    now: NaiveDateTime,
) -> GetCaptchaStep {
    match now.after_minutes(EXPIRES_IN_MINUTES as int) {
        Some(expires) => Step::Call(
            GetCaptchaState::Stored(CaptchaResponse { png, wav, uuid }),
            Action::StoreCaptcha { item: CaptchaItem { answer, uuid, expires } },
        ),
        None => Step::Abort(Abort::ExpiryOutOfRange),
    }
}

impl GetCaptchaState {
    /// What the request does next, handed this outcome.
    pub open spec fn next(self, reply: Reply) -> GetCaptchaStep {
        match self {
            GetCaptchaState::Wav { answer, png, uuid } => Step::Call(
                GetCaptchaState::Time { answer, png, wav: reply->Wav_0, uuid },
                Action::Now,
            ),
            GetCaptchaState::Time { answer, png, wav, uuid } => keeping(
                answer,
                png,
                wav,
                uuid,
                reply->Time_0,
            ),
            GetCaptchaState::Stored(response) => Step::Return(
                Ok(GetCaptchaResponse { ok: Some(response) }),
            ),
        }
    }
}

impl Resume for GetCaptchaState {
    type Response = GetCaptchaResponse;

    open spec fn accepts(self, reply: Reply) -> bool {
        match self {
            GetCaptchaState::Wav { .. } => reply is Wav,
            GetCaptchaState::Time { .. } => reply is Time,
            GetCaptchaState::Stored(_) => reply is Sent,
        }
    }

    open spec fn leads_to(self, context: Context, reply: Reply, step: GetCaptchaStep) -> bool {
        step == self.next(reply)
    }

    open spec fn stages(self) -> nat {
        match self {
            GetCaptchaState::Wav { .. } => 3,
            GetCaptchaState::Time { .. } => 2,
            GetCaptchaState::Stored(_) => 1,
        }
    }

    open spec fn repeats(self) -> nat {
        0
    }

    proof fn progress(self, context: Context, reply: Reply, step: GetCaptchaStep) {
    }

    proof fn failure(self, context: Context, reply: Reply, step: GetCaptchaStep) {
    }

    fn resume(self, context: &Context, reply: Reply) -> (step: GetCaptchaStep) {
        match (self, reply) {
            (GetCaptchaState::Wav { answer, png, uuid }, Reply::Wav(wav)) => Step::Call(
                GetCaptchaState::Time { answer, png, wav, uuid },
                Action::Now,
            ),
            (GetCaptchaState::Time { answer, png, wav, uuid }, Reply::Time(now)) => {
                match now.plus_minutes(EXPIRES_IN_MINUTES) {
                    Some(expires) => {
                        let item = CaptchaItem { answer, uuid: uuid.clone(), expires };
                        Step::Call(
                            GetCaptchaState::Stored(CaptchaResponse { png, wav, uuid }),
                            Action::StoreCaptcha { item },
                        )
                    },
                    None => Step::Abort(Abort::ExpiryOutOfRange),
                }
            },
            (GetCaptchaState::Stored(response), Reply::Sent) => Step::Return(
                Ok(GetCaptchaResponse { ok: Some(response) }),
            ),
            _ => unreached(),
        }
    }
}

/// Whether a request may begin with this captcha: it can be drawn at the difficulty that the
/// server is set to, the answer and the picture are its own, and its name can be drawn and has the
/// shape of a random one.
pub open spec fn drawn_by(
    context: Context,
    captcha: captcha::Captcha,
    answer: String,
    png: Option<String>,
    uuid: String,
) -> bool {
    &&& can_be_generated(difficulty_named(context.settings.captcha.difficulty@), captcha)
    &&& answer@ == letters_of(captcha)
    &&& 4 <= answer@.len() <= 6
    &&& picture_of(captcha) == (match png {
        Some(png) => Some(png@),
        None => None,
    })
    &&& can_be_drawn(uuid@)
    &&& random_uuid(uuid@)
}

impl Perform for GetCaptcha {
    type Response = GetCaptchaResponse;

    type State = GetCaptchaState;

    open spec fn begins_with(
        self,
        context: Context,
        websocket_id: Option<ConnectionId>,
        step: GetCaptchaStep,
    ) -> bool {
        if context.settings.captcha.enabled {
            exists|captcha: captcha::Captcha, answer: String, png: Option<String>, uuid: String|
                {
                    &&& #[trigger] drawn_by(context, captcha, answer, png, uuid)
                    &&& step == drawn(captcha, answer, png, uuid)
                }
        } else {
            step == GetCaptchaStep::Return(Ok(GetCaptchaResponse { ok: None }))
        }
    }

    proof fn prepared(
        self,
        context: Context,
        websocket_id: Option<ConnectionId>,
        step: GetCaptchaStep,
    ) {
    }

    fn perform(self, context: &Context, websocket_id: Option<ConnectionId>) -> (step:
        GetCaptchaStep) {
        if !context.settings.captcha.enabled {
            return Step::Return(Ok(GetCaptchaResponse { ok: None }));
        }
        let difficulty = difficulty_from(&context.settings.captcha.difficulty);
        let captcha = generate(difficulty);
        let answer = letters(&captcha);
        let png = picture(&captcha);
        let uuid = new_uuid();
        assert(drawn_by(*context, captcha, answer, png, uuid));
        captcha_drawn(captcha, answer, png, uuid)
    }
}

/// Where captchas are switched off, the answer says so at once, and nothing is drawn or kept.
pub proof fn no_captcha_where_switched_off(
    request: GetCaptcha,
    context: Context,
    websocket_id: Option<ConnectionId>,
    run: Run<GetCaptchaState, GetCaptchaResponse>,
)
    requires
        run_of(request, context, websocket_id, run),
        !context.settings.captcha.enabled,
    ensures
        run.steps.len() == 1,
        run.answers(GetCaptchaResponse { ok: None }),
{
    lemma_first_steps(request, context, websocket_id, run);
}

/// The captcha that is kept is the one that is shown: the letters that are kept, the picture in the
/// answer and the captcha whose sound is in the answer are one and the same captcha's. It is kept
/// under the name in the answer, and expires ten minutes after the clock was read.
pub proof fn captcha_kept_is_the_one_shown(
    request: GetCaptcha,
    context: Context,
    websocket_id: Option<ConnectionId>,
    run: Run<GetCaptchaState, GetCaptchaResponse>,
    response: CaptchaResponse,
)
    requires
        run_of(request, context, websocket_id, run),
        run.answers(GetCaptchaResponse { ok: Some(response) }),
    ensures
        context.settings.captcha.enabled,
        run.asks(1, Action::Now),
        can_be_drawn(response.uuid@),
        random_uuid(response.uuid@),
        run.steps[0] matches Step::Call(_, Action::CaptchaWav { captcha }) && {
            &&& can_be_generated(difficulty_named(context.settings.captcha.difficulty@), captcha)
            &&& picture_of(captcha) == Some(response.png@)
            &&& run.replies[0] == Reply::Wav(response.wav)
            &&& run.replies[1] matches Reply::Time(now) && {
                &&& run.steps[2] matches Step::Call(_, Action::StoreCaptcha { item })
                &&& item.answer@ == letters_of(captcha)
                &&& item.uuid == response.uuid
                &&& Some(item.expires) == now.after_minutes(10)
            }
        },
{
    lemma_first_steps(request, context, websocket_id, run);
}

/// A captcha is handed out whenever captchas are on, its picture can be encoded, and the time at
/// which it expires can be told; no outcome makes the request fail otherwise.
pub proof fn captcha_is_handed_out(
    request: GetCaptcha,
    context: Context,
    websocket_id: Option<ConnectionId>,
    run: Run<GetCaptchaState, GetCaptchaResponse>,
)
    requires
        run_of(request, context, websocket_id, run),
        context.settings.captcha.enabled,
    ensures
        run.steps[0] is Abort || run.steps[0] is Call,
        run.steps[0] matches Step::Abort(abort) ==> abort == Abort::CaptchaNotEncoded,
        run.steps[0] matches Step::Call(_, action) ==> {
            action matches Action::CaptchaWav { captcha } && picture_of(captcha) is Some
        },
        run.replies.len() > 1 ==> {
            &&& run.replies[1] matches Reply::Time(now)
            &&& match now.after_minutes(10) {
                Some(_) => run.steps[2] matches Step::Call(_, Action::StoreCaptcha { .. }),
                None => run.steps[2] matches Step::Abort(Abort::ExpiryOutOfRange),
            }
        },
        run.succeeds() <==> run.replies.len() == 3,
{
    lemma_first_steps(request, context, websocket_id, run);
}

/// The handing out of a captcha, outcome by outcome. Where captchas are off, the answer says so at
/// once. Otherwise one is drawn, as easy or hard as the setting says and of medium difficulty where
/// it says neither. A captcha without a picture is abandoned; the letters of any other are spoken,
/// and it is kept with its letters under a name of its own for 600 seconds from the clock's reading,
/// if that time exists. The answer holds its picture, its sound and its name.
pub proof fn captcha_outcome_by_outcome(
    request: GetCaptcha,
    context: Context,
    websocket_id: Option<ConnectionId>,
    run: Run<GetCaptchaState, GetCaptchaResponse>,
)
    requires
        run_of(request, context, websocket_id, run),
    ensures
        !context.settings.captcha.enabled ==> run.responds(0, (GetCaptchaResponse { ok: None })),
        context.settings.captcha.enabled ==> exists|captcha: captcha::Captcha|
            #![trigger picture_of(captcha)]
            {
                let name = context.settings.captcha.difficulty@;
                &&& name == "easy"@ ==> can_be_generated(Difficulty::Easy, captcha)
                &&& name == "hard"@ ==> can_be_generated(Difficulty::Hard, captcha)
                &&& name != "easy"@ && name != "hard"@ ==> can_be_generated(
                    Difficulty::Medium,
                    captcha,
                )
                &&& match picture_of(captcha) {
                    Some(_) => run.asks(0, Action::CaptchaWav { captcha }),
                    None => run.steps[0] matches Step::Abort(Abort::CaptchaNotEncoded),
                }
            },
        run.replies.len() > 0 ==> run.replies[0] is Wav && run.asks(1, Action::Now),
        run.replies.len() > 1 ==> match (run.steps[0], run.replies[1]) {
            (Step::Call(_, Action::CaptchaWav { captcha }), Reply::Time(now)) => {
                let leap = 1_000_000_000 <= now.nanos < 2_000_000_000 && now.secs % 60 == 59;
                let exists_later = {
                    &&& -8_334_601_228_800 <= now.secs
                    &&& now.secs + 600 <= 8_210_266_876_799
                    &&& now.nanos < 1_000_000_000 || leap
                };
                if exists_later {
                    &&& run.steps[2] matches Step::Call(_, Action::StoreCaptcha { item })
                    &&& item.answer@ == letters_of(captcha)
                    &&& 4 <= item.answer@.len() <= 6
                    &&& can_be_drawn(item.uuid@)
                    &&& random_uuid(item.uuid@)
                    &&& item.expires.secs == now.secs + 600
                    &&& item.expires.nanos == if leap {
                        now.nanos - 1_000_000_000
                    } else {
                        now.nanos as int
                    }
                } else {
                    run.steps[2] matches Step::Abort(Abort::ExpiryOutOfRange)
                }
            },
            _ => false,
        },
        run.replies.len() > 2 ==> match (run.steps[0], run.steps[2]) {
            (
                Step::Call(_, Action::CaptchaWav { captcha }),
                Step::Call(_, Action::StoreCaptcha { item }),
            ) => {
                &&& run.replies[2] is Sent
                &&& run.steps[3] matches Step::Return(Ok(GetCaptchaResponse { ok: Some(given) }))
                &&& picture_of(captcha) == Some(given.png@)
                &&& run.replies[0] == Reply::Wav(given.wav)
                &&& given.uuid == item.uuid
            },
            _ => false,
        },
        run.replies.len() <= 3,
{
    lemma_first_steps(request, context, websocket_id, run);
    if context.settings.captcha.enabled {
        let (captcha, answer, png, uuid) = choose|
            captcha: captcha::Captcha,
            answer: String,
            png: Option<String>,
            uuid: String,
        | #[trigger]
            drawn_by(context, captcha, answer, png, uuid) && run.steps[0] == drawn(
                captcha,
                answer,
                png,
                uuid,
            );
        reveal_strlit("easy");
        reveal_strlit("hard");
        assert("easy"@[0] == 'e' && "hard"@[0] == 'h');
        assert(can_be_generated(
            difficulty_named(context.settings.captcha.difficulty@),
            captcha,
        ));
    }
}

} // verus!
