use vstd::prelude::*;
use unic_langid_impl::LanguageIdentifier;
use crate::exports::{GameBindPress, RuntimeError, RuntimeResult, TextureRequest};
use crate::exports::language::{language_identifier, language_tag_identifier};

verus! {

/// The error where neither runtime provides something.
pub const RT_UNAVAILABLE: RuntimeError = "extension runtime unavailable";

/// What the runtimes together answer, given Nexus's and arcdps's answers: an
/// error of Nexus stands; else Nexus's value; else arcdps's error or value;
/// else neither runtime is there.
pub open spec fn provided<T>(nexus: RuntimeResult<Option<T>>, arcdps: RuntimeResult<Option<T>>) -> RuntimeResult<T> {
    match nexus {
        Err(e) => Err(e),
        Ok(Some(x)) => Ok(x),
        Ok(None) => match arcdps {
            Err(e) => Err(e),
            Ok(Some(x)) => Ok(x),
            Ok(None) => Err(RT_UNAVAILABLE),
        },
    }
}

fn first_provider<T>(nexus: RuntimeResult<Option<T>>, arcdps: RuntimeResult<Option<T>>) -> (r: RuntimeResult<T>)
    ensures
        r == provided(nexus, arcdps),
{
    match nexus {
        Err(e) => return Err(e),
        Ok(Some(x)) => return Ok(x),
        Ok(None) => {},
    }
    match arcdps {
        Err(e) => Err(e),
        Ok(Some(x)) => Ok(x),
        Ok(None) => Err(RT_UNAVAILABLE),
    }
}

/// The addon's data folder, from whichever runtime provides it.
pub fn addon_dir(nexus: RuntimeResult<Option<Vec<String>>>, arcdps: RuntimeResult<Option<Vec<String>>>) -> (r: RuntimeResult<
    Vec<String>,
>)
    ensures
        r == provided(nexus, arcdps),
{
    first_provider(nexus, arcdps)
}

/// The game language's translation identifier, from whichever runtime provides it.
pub fn detect_language(nexus: RuntimeResult<Option<String>>, arcdps: RuntimeResult<Option<String>>) -> (r: RuntimeResult<String>)
    ensures
        r == provided(nexus, arcdps),
{
    first_provider(nexus, arcdps)
}

/// The language to load translations for: the detected one, where it parses.
pub fn reload_language(nexus: RuntimeResult<Option<String>>, arcdps: RuntimeResult<Option<String>>) -> (r: RuntimeResult<
    LanguageIdentifier,
>)
    ensures
        match provided(nexus, arcdps) {
            Err(e) => r matches Err(f) && f == e,
            Ok(code) => match language_tag_identifier(code@) {
                Some(id) => r == Ok::<LanguageIdentifier, RuntimeError>(id),
                None => r matches Err(f) && f == "Cannot parse detected language",
            },
        },
{
    let language = detect_language(nexus, arcdps)?;
    match language_identifier(language.as_str()) {
        Some(id) => Ok(id),
        None => Err("Cannot parse detected language"),
    }
}

/// The MumbleLink handle, from whichever runtime provides it.
pub fn mumble_link_ptr<L>(nexus: RuntimeResult<Option<L>>, arcdps: RuntimeResult<Option<L>>) -> (r: RuntimeResult<L>)
    ensures
        r == provided(nexus, arcdps),
{
    first_provider(nexus, arcdps)
}

/// The NexusLink handle, from whichever runtime provides it.
pub fn nexus_link_ptr<L>(nexus: RuntimeResult<Option<L>>, arcdps: RuntimeResult<Option<L>>) -> (r: RuntimeResult<L>)
    ensures
        r == provided(nexus, arcdps),
{
    first_provider(nexus, arcdps)
}

/// The real-time API, from whichever runtime provides it.
pub fn rtapi<A>(nexus: RuntimeResult<Option<A>>, arcdps: RuntimeResult<Option<A>>) -> (r: RuntimeResult<Option<A>>)
    ensures
        match provided(nexus, arcdps) {
            Ok(a) => r == Ok::<Option<A>, RuntimeError>(Some(a)),
            Err(e) => r == Err::<Option<A>, RuntimeError>(e),
        },
{
    match first_provider(nexus, arcdps) {
        Ok(a) => Ok(Some(a)),
        Err(e) => Err(e),
    }
}

/// Who presses a marker binding: Nexus presses the given binding; arcdps
/// would press its own.
#[derive(Clone, Copy, Debug, PartialEq, Eq, Structural)]
pub enum MarkerBindInvocation {
    Nexus(GameBindPress),
    Arcdps,
}

/// Which runtime presses a marker binding, and how.
pub fn invoke_marker_bind(nexus: RuntimeResult<Option<GameBindPress>>, arcdps: RuntimeResult<Option<()>>) -> (r: RuntimeResult<
    MarkerBindInvocation,
>)
    ensures
        match nexus {
            Err(e) => r == Err::<MarkerBindInvocation, RuntimeError>(e),
            Ok(Some(p)) => r == Ok::<MarkerBindInvocation, RuntimeError>(MarkerBindInvocation::Nexus(p)),
            Ok(None) => match arcdps {
                Err(e) => r == Err::<MarkerBindInvocation, RuntimeError>(e),
                Ok(Some(_)) => r == Ok::<MarkerBindInvocation, RuntimeError>(MarkerBindInvocation::Arcdps),
                Ok(None) => r == Err::<MarkerBindInvocation, RuntimeError>(RT_UNAVAILABLE),
            },
        },
{
    match nexus {
        Err(e) => return Err(e),
        Ok(Some(p)) => return Ok(MarkerBindInvocation::Nexus(p)),
        Ok(None) => {},
    }
    match arcdps {
        Err(e) => Err(e),
        Ok(Some(_)) => Ok(MarkerBindInvocation::Arcdps),
        Ok(None) => Err(RT_UNAVAILABLE),
    }
}

/// The texture request for a file, from whichever runtime takes it.
pub fn texture_schedule_path(nexus: RuntimeResult<Option<TextureRequest>>, arcdps: RuntimeResult<Option<TextureRequest>>) -> (r:
    RuntimeResult<TextureRequest>)
    ensures
        r == provided(nexus, arcdps),
{
    first_provider(nexus, arcdps)
}

/// The texture request for bytes, from whichever runtime takes it.
pub fn texture_schedule_bytes(nexus: RuntimeResult<Option<TextureRequest>>, arcdps: RuntimeResult<Option<TextureRequest>>) -> (r:
    RuntimeResult<TextureRequest>)
    ensures
        r == provided(nexus, arcdps),
{
    first_provider(nexus, arcdps)
}

/// Nexus is asked first: where it is there and answers, arcdps is not
/// consulted; where neither runtime is there, the answer is that none is.
pub proof fn lemma_nexus_first<T>(x: T, arcdps: RuntimeResult<Option<T>>)
    ensures
        provided(Ok::<Option<T>, RuntimeError>(Some(x)), arcdps) == Ok::<T, RuntimeError>(x),
        provided(Ok::<Option<T>, RuntimeError>(None), Ok::<Option<T>, RuntimeError>(None)) == Err::<T, RuntimeError>(
            RT_UNAVAILABLE,
        ),
{
}

} // verus!
