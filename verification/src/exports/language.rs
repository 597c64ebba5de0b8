use vstd::prelude::*;
use unic_langid_impl::{LanguageIdentifier, LanguageIdentifierError};

verus! {

/// The game's client languages, numbered as arcdps reports them.
#[derive(Clone, Copy, Debug, PartialEq, Eq, Structural)]
pub enum Language {
    English,
    Korean,
    French,
    German,
    Spanish,
    Chinese,
}

/// The game's number for a language.
pub open spec fn language_number(l: Language) -> i32 {
    match l {
        Language::English => 0,
        Language::Korean => 1,
        Language::French => 2,
        Language::German => 3,
        Language::Spanish => 4,
        Language::Chinese => 5,
    }
}

/// The addon's translation identifier for a game language.
pub open spec fn language_code(l: Language) -> Seq<char> {
    match l {
        Language::English => "en"@,
        Language::Korean => "ko"@,
        Language::French => "fr"@,
        Language::German => "de"@,
        Language::Spanish => "es"@,
        Language::Chinese => "cn"@,
    }
}

impl Language {
    /// The language the game numbers `id`, if any.
    pub fn try_from(id: i32) -> (r: Option<Language>)
        ensures
            match r {
                Some(l) => language_number(l) == id,
                None => !(0 <= id <= 5),
            },
    {
        match id {
            0 => Some(Language::English),
            1 => Some(Language::Korean),
            2 => Some(Language::French),
            3 => Some(Language::German),
            4 => Some(Language::Spanish),
            5 => Some(Language::Chinese),
            _ => None,
        }
    }

    /// The game's number for this language.
    pub fn into_id(&self) -> (r: i32)
        ensures
            r == language_number(*self),
    {
        match self {
            Language::English => 0,
            Language::Korean => 1,
            Language::French => 2,
            Language::German => 3,
            Language::Spanish => 4,
            Language::Chinese => 5,
        }
    }
}

/// The addon's translation identifier for a game language.
pub fn game_language_id(l: Language) -> (r: &'static str)
    ensures
        r@ == language_code(l),
{
    proof {
        reveal_strlit("en");
        reveal_strlit("ko");
        reveal_strlit("fr");
        reveal_strlit("de");
        reveal_strlit("es");
        reveal_strlit("cn");
    }
    match l {
        Language::English => "en",
        Language::Korean => "ko",
        Language::French => "fr",
        Language::German => "de",
        Language::Spanish => "es",
        Language::Chinese => "cn",
    }
}

/// `unic_langid_impl::LanguageIdentifier`, a parsed language tag; opaque here.
#[verifier::external_type_specification]
#[verifier::external_body]
pub struct ExLanguageIdentifier(LanguageIdentifier);

/// `unic_langid_impl::LanguageIdentifierError`, why a tag does not parse; opaque here.
#[verifier::external_type_specification]
#[verifier::external_body]
pub struct ExLanguageIdentifierError(LanguageIdentifierError);

/// What `unic_langid_impl` parses `tag` into: the language identifier, or
/// `None` where the tag does not parse.
pub uninterp spec fn language_tag_identifier(tag: Seq<char>) -> Option<LanguageIdentifier>;

/// `LanguageIdentifier::from_str` of `unic_langid_impl`: parses a language tag
/// such as "pt-br". Claimed: it succeeds exactly where `language_tag_identifier`
/// gives an identifier, and returns that identifier; what an identifier holds
/// is not stated.
#[verifier::external_body]
fn parse_language_tag(tag: &str) -> (r: Result<LanguageIdentifier, LanguageIdentifierError>)
    ensures
        r is Ok <==> language_tag_identifier(tag@) is Some,
        r matches Ok(id) ==> language_tag_identifier(tag@) == Some(id),
{
    tag.parse::<LanguageIdentifier>()
}

/// The language identifier for a translation identifier, or `None` where it
/// does not parse.
pub fn language_identifier(code: &str) -> (r: Option<LanguageIdentifier>)
    ensures
        r == language_tag_identifier(code@),
{
    match parse_language_tag(code) {
        Ok(id) => Some(id),
        Err(_) => None,
    }
}

} // verus!
