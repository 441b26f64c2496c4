//! The command-line verbs of the version-sync tool.

use vstd::prelude::*;

use crate::text::same_text;

verus! {

/// A task the tool can run.
#[derive(Debug, Clone, Copy, PartialEq, Eq, Structural)]
pub enum Verb {
    /// Print the newest Meilisearch release tag.
    GetLatestMeilisearchVersion,
}

/// The word that selects a verb on the command line.
pub open spec fn verb_name(verb: Verb) -> Seq<char> {
    match verb {
        Verb::GetLatestMeilisearchVersion => "get-latest-meilisearch-version"@,
    }
}

/// Every verb, in the order they are listed.
pub open spec fn all_verbs() -> Seq<Verb> {
    seq![Verb::GetLatestMeilisearchVersion]
}

impl Verb {
    /// The word that selects this verb.
    pub fn name(&self) -> (r: &'static str)
        ensures
            r@ == verb_name(*self),
    {
        match self {
            Verb::GetLatestMeilisearchVersion => "get-latest-meilisearch-version",
        }
    }
}

/// The verbs the tool knows.
pub fn handlers() -> (r: Vec<Verb>)
    ensures
        r@ == all_verbs(),
{
    vec![Verb::GetLatestMeilisearchVersion]
}

/// The verb a word selects, if any.
pub fn find_verb(name: &str) -> (r: Option<Verb>)
    ensures
        match r {
            Some(v) => verb_name(v) == name@,
            None => forall|v: Verb| verb_name(v) != name@,
        },
{
    if same_text(name, Verb::GetLatestMeilisearchVersion.name()) {
        Some(Verb::GetLatestMeilisearchVersion)
    } else {
        None
    }
}

/// Why the command line does not name a verb.
#[derive(Debug, Clone, Copy, PartialEq, Eq, Structural)]
pub enum UsageError {
    /// No argument was given.
    MissingVerb,
    /// More than one argument was given.
    TooManyArguments,
}

/// The verb word of the command line, given the arguments after the
/// program's name: exactly one is expected.
pub fn parse_verb(args: Vec<String>) -> (r: Result<String, UsageError>)
    ensures
        args.len() == 0 ==> r == Err::<String, UsageError>(UsageError::MissingVerb),
        args.len() == 1 ==> r == Ok::<String, UsageError>(args[0]),
        args.len() > 1 ==> r == Err::<String, UsageError>(UsageError::TooManyArguments),
{
    let mut args = args;
    if args.len() == 0 {
        Err(UsageError::MissingVerb)
    } else if args.len() > 1 {
        Err(UsageError::TooManyArguments)
    } else {
        let verb = args.pop().unwrap();
        Ok(verb)
    }
}

/// The release tags came back empty.
#[derive(Debug, Clone, Copy, PartialEq, Eq, Structural)]
pub struct NoTags;

/// The newest release tag: the first of the tags as the releases API lists
/// them, newest first.
pub fn latest_tag(tags: Vec<String>) -> (r: Result<String, NoTags>)
    ensures
        tags.len() == 0 ==> r == Err::<String, NoTags>(NoTags),
        tags.len() > 0 ==> r == Ok::<String, NoTags>(tags[0]),
{
    let mut tags = tags;
    if tags.len() == 0 {
        Err(NoTags)
    } else {
        Ok(tags.swap_remove(0))
    }
}

/// No two verbs share a name, so a word selects at most one verb.
pub proof fn lemma_verb_names_distinct(a: Verb, b: Verb)
    requires
        verb_name(a) == verb_name(b),
    ensures
        a == b,
{
}

/// A verb's own name selects it.
pub proof fn lemma_verb_selected_by_name(v: Verb)
    ensures
        all_verbs().contains(v),
        forall|w: Verb| verb_name(w) == verb_name(v) ==> w == v,
{
    assert(all_verbs()[0] == v);
}

} // verus!
