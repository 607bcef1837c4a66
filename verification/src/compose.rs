//! The file composer: whether a target may be created or overwritten, and
//! what it is filled with.

use crate::resolve::{lemma_no_match_resolves_to_none, readable, resolved, CandidateView};
use vstd::prelude::*;

verus! {

/// How an existing target file is treated.
#[derive(Clone, Copy, Debug, PartialEq, Eq, Structural)]
pub enum CreationMode {
    /// Only a missing or an empty target is taken over.
    OverwriteEmptyOnly,
    /// A target that holds data is truncated and refilled.
    Force,
}

/// What a metadata query on the target path answered. `E` is the caller's
/// error type for a query that failed.
#[derive(Clone, Debug, PartialEq, Eq)]
pub enum TargetStatus<E> {
    /// Nothing exists at the path.
    Missing,
    /// A file of `len` bytes exists at the path.
    Present { len: u64 },
    /// The query failed for another reason than a missing file.
    Unknown(E),
}

/// Why a target was not created.
#[derive(Clone, Debug, PartialEq, Eq)]
pub enum CreateError<E> {
    /// The target holds data and the mode does not allow overwriting it.
    AlreadyExists,
    /// The metadata query failed; its error is handed on unchanged.
    Io(E),
}

/// What to tell the user when a target is refused as `AlreadyExists`.
pub const ALREADY_EXISTS: &'static str =
    "File already exists! - Use '-f'/'--force' to overwrite anyway.";

/// The verdict on a target: `Ok` when it may be created or truncated.
pub open spec fn creation_verdict<E>(status: TargetStatus<E>, mode: CreationMode) -> Result<
    (),
    CreateError<E>,
> {
    match status {
        TargetStatus::Missing => Ok(()),
        TargetStatus::Present { len } => if len == 0 || mode == CreationMode::Force {
            Ok(())
        } else {
            Err(CreateError::AlreadyExists)
        },
        TargetStatus::Unknown(error) => Err(CreateError::Io(error)),
    }
}

/// Decides whether the target may be created or truncated.
///
/// A missing or empty target always may; one that holds data only under
/// [`CreationMode::Force`]. A failed metadata query is handed on as it came.
pub fn create_file<E>(status: TargetStatus<E>, mode: CreationMode) -> (verdict: Result<
    (),
    CreateError<E>,
>)
    ensures
        verdict == creation_verdict(status, mode),
{
    match status {
        TargetStatus::Missing => Ok(()),
        TargetStatus::Present { len } => {
            if len == 0 || mode == CreationMode::Force {
                Ok(())
            } else {
                Err(CreateError::AlreadyExists)
            }
        },
        TargetStatus::Unknown(error) => Err(CreateError::Io(error)),
    }
}

/// What a created file is filled with: the template, or nothing.
pub open spec fn filling(template: Option<Seq<u8>>) -> Seq<u8> {
    match template {
        Some(bytes) => bytes,
        None => Seq::empty(),
    }
}

/// The outcome of composing a target: the bytes it is to hold, or why it
/// was left alone.
pub open spec fn composed<E>(
    status: TargetStatus<E>,
    mode: CreationMode,
    template: Option<Seq<u8>>,
) -> Result<Seq<u8>, CreateError<E>> {
    match creation_verdict(status, mode) {
        Ok(()) => Ok(filling(template)),
        Err(error) => Err(error),
    }
}

/// Gives the bytes to write for a resolved template: the template itself,
/// or nothing where none was found.
pub fn template_or_empty(template: Option<Vec<u8>>) -> (bytes: Vec<u8>)
    ensures
        bytes@ == filling(template.deep_view()),
{
    match template {
        Some(bytes) => bytes,
        None => Vec::new(),
    }
}

/// Composes a target: decides whether it may be created or truncated and,
/// if so, gives the bytes it is to hold from then on.
///
/// `template` is the resolved template of the target's extension, `None`
/// where no extension was given or no template was found. On `Err` the
/// target is to be left as it is.
pub fn compose<E>(
    status: TargetStatus<E>,
    mode: CreationMode,
    template: Option<Vec<u8>>,
) -> (outcome: Result<Vec<u8>, CreateError<E>>)
    ensures
        match outcome {
            Ok(bytes) => composed(status, mode, template.deep_view()) == Ok::<
                Seq<u8>,
                CreateError<E>,
            >(bytes@),
            Err(error) => composed(status, mode, template.deep_view()) == Err::<
                Seq<u8>,
                CreateError<E>,
            >(error),
        },
{
    match create_file(status, mode) {
        Ok(()) => Ok(template_or_empty(template)),
        Err(error) => Err(error),
    }
}

/// The status that a metadata query reports of a target: `file` is `None`
/// while nothing exists at the path, and else the bytes of the file there.
pub open spec fn status_of<E>(file: Option<Seq<u8>>) -> TargetStatus<E> {
    match file {
        None => TargetStatus::Missing,
        Some(bytes) => TargetStatus::Present { len: bytes.len() as u64 },
    }
}

/// The target once an outcome has been carried out: written in full on
/// `Ok`, untouched on `Err`.
pub open spec fn carried_out<E>(
    file: Option<Seq<u8>>,
    outcome: Result<Seq<u8>, CreateError<E>>,
) -> Option<Seq<u8>> {
    match outcome {
        Ok(bytes) => Some(bytes),
        Err(_) => file,
    }
}

/// Composing a target that does not exist succeeds in either mode, and the
/// file then holds the template, or nothing where there is none.
pub proof fn lemma_missing_target_is_created<E>(mode: CreationMode, template: Option<Seq<u8>>)
    ensures
        composed(status_of::<E>(None), mode, template) == Ok::<Seq<u8>, CreateError<E>>(
            filling(template),
        ),
        carried_out(None, composed(status_of::<E>(None), mode, template)) == Some(
            filling(template),
        ),
{
}

/// Composing an empty target gives what composing a missing one gives,
/// whatever the two modes are.
pub proof fn lemma_empty_target_as_missing<E>(
    mode: CreationMode,
    other: CreationMode,
    template: Option<Seq<u8>>,
)
    ensures
        composed(status_of::<E>(Some(Seq::empty())), mode, template) == composed(
            status_of::<E>(None),
            other,
            template,
        ),
{
}

/// Without `Force`, composing a target that holds data fails with
/// `AlreadyExists`, and the file keeps its bytes.
pub proof fn lemma_nonempty_target_is_kept<E>(file: Seq<u8>, template: Option<Seq<u8>>)
    requires
        0 < file.len() <= u64::MAX,
    ensures
        composed(status_of::<E>(Some(file)), CreationMode::OverwriteEmptyOnly, template) == Err::<
            Seq<u8>,
            CreateError<E>,
        >(CreateError::AlreadyExists),
        carried_out(
            Some(file),
            composed(status_of::<E>(Some(file)), CreationMode::OverwriteEmptyOnly, template),
        ) == Some(file),
{
}

/// With `Force`, composing a target that holds data succeeds, and the file
/// then holds the template alone, or nothing where there is none.
pub proof fn lemma_forced_target_is_rewritten<E>(file: Seq<u8>, template: Option<Seq<u8>>)
    requires
        0 < file.len() <= u64::MAX,
    ensures
        composed(status_of::<E>(Some(file)), CreationMode::Force, template) == Ok::<
            Seq<u8>,
            CreateError<E>,
        >(filling(template)),
        carried_out(
            Some(file),
            composed(status_of::<E>(Some(file)), CreationMode::Force, template),
        ) == Some(filling(template)),
{
}

/// Where no candidate on the search path holds a readable template, a
/// target that may be created is created empty, without error.
pub proof fn lemma_no_template_gives_empty_file<E>(
    candidates: Seq<CandidateView>,
    status: TargetStatus<E>,
    mode: CreationMode,
)
    requires
        forall|i: int| !readable(candidates, i),
        creation_verdict(status, mode) is Ok,
    ensures
        resolved(candidates) is None,
        composed(status, mode, resolved(candidates)) == Ok::<Seq<u8>, CreateError<E>>(
            Seq::empty(),
        ),
{
    lemma_no_match_resolves_to_none(candidates);
}

} // verus!
