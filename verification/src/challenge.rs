//! Pictures of letters that only people should be able to read.
use vstd::prelude::*;

verus! {

/// How hard a captcha is to read.
#[derive(Clone, Copy, Debug, PartialEq, Eq, Structural)]
pub enum Difficulty {
    Easy,
    Medium,
    Hard,
}

/// A captcha of the crate `captcha`.
#[verifier::external_type_specification]
#[verifier::external_body]
pub struct ExCaptcha(captcha::Captcha);

/// The letters that a captcha shows.
pub uninterp spec fn letters_of(captcha: captcha::Captcha) -> Seq<char>;

/// The picture of a captcha, encoded as text; nothing where it cannot be encoded.
pub uninterp spec fn picture_of(captcha: captcha::Captcha) -> Option<Seq<char>>;

/// Whether `captcha::gen` can come up with this captcha when asked for this difficulty.
pub uninterp spec fn can_be_generated(difficulty: Difficulty, captcha: captcha::Captcha) -> bool;

/// Calls `captcha::gen`, which draws a captcha at random. Of each that it can draw, the crate
/// promises four to six letters; how the difficulty shows in the picture is left open. It panics
/// where the system has no random numbers to give, whatever the difficulty.
#[verifier::external_body]
pub(crate) fn generate(difficulty: Difficulty) -> (captcha: captcha::Captcha)
    ensures
        can_be_generated(difficulty, captcha),
        4 <= letters_of(captcha).len() <= 6,
{
    captcha::gen(match difficulty {
        Difficulty::Easy => captcha::Difficulty::Easy,
        Difficulty::Medium => captcha::Difficulty::Medium,
        Difficulty::Hard => captcha::Difficulty::Hard,
    })
}

/// Calls `captcha::Captcha::chars_as_string`, which gives the letters of the captcha in order.
#[verifier::external_body]
pub(crate) fn letters(captcha: &captcha::Captcha) -> (letters: String)
    ensures
        letters@ == letters_of(*captcha),
{
    captcha.chars_as_string()
}

/// Calls `captcha::Captcha::as_base64`, which encodes the picture of the captcha. The text depends
/// on the captcha alone.
#[verifier::external_body]
pub(crate) fn picture(captcha: &captcha::Captcha) -> (picture: Option<String>)
    ensures
        picture_of(*captcha) == (match picture {
            Some(picture) => Some(picture@),
            None => None,
        }),
{
    captcha.as_base64()
}

/// A lower-case hexadecimal digit.
pub open spec fn hex_digit(c: char) -> bool {
    '0' <= c <= '9' || 'a' <= c <= 'f'
}

/// The usual spelling of a random universally unique identifier: 32 lower-case hexadecimal digits
/// in five groups, with the version and the variant where they belong.
pub open spec fn random_uuid(text: Seq<char>) -> bool {
    &&& text.len() == 36
    &&& forall|i: int|
        0 <= i < 36 ==> if i == 8 || i == 13 || i == 18 || i == 23 {
            #[trigger] text[i] == '-'
        } else {
            hex_digit(text[i])
        }
    &&& text[14] == '4'
    &&& text[19] == '8' || text[19] == '9' || text[19] == 'a' || text[19] == 'b'
}

/// Whether `uuid::Uuid::new_v4` can come up with the identifier of this spelling.
pub uninterp spec fn can_be_drawn(uuid: Seq<char>) -> bool;

/// Calls `uuid::Uuid::new_v4`, which draws an identifier at random, and spells it. Every outcome is
/// one that the call can draw, and has the shape of a random identifier; which one comes is left
/// open. It panics where the system has no random numbers to give.
#[verifier::external_body]
pub(crate) fn new_uuid() -> (uuid: String)
    ensures
        can_be_drawn(uuid@),
        random_uuid(uuid@),
{
    uuid::Uuid::new_v4().to_string()
}

} // verus!
