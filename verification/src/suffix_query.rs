//! The server's handler for suffix queries: which files of a commit have a
//! basename ending in one of the given suffixes.
//!
//! The handler refuses a query without suffixes, then looks the commit up;
//! a commit that does not exist is the client's error, a failing lookup the
//! server's. Once the commit is found, the matching paths are streamed back.

use vstd::prelude::*;
use crate::config::Method;
use crate::config::opt_view;
use vstd::string::StringExecFns;

verus! {

/// A suffix query: the commit to search and the basename suffixes.
pub struct SuffixQueryRequest<C> {
    pub commit: C,
    pub basename_suffixes: Vec<String>,
}

/// One path that matched a suffix query.
pub struct SuffixQueryResponse {
    pub file_path: String,
}

/// Why a suffix query fails, with the commit that was queried where the
/// failure concerns it.
#[derive(Debug)]
pub enum SuffixQueryError<C> {
    /// The query holds no suffix.
    NoSuffixes,
    /// Looking the commit up failed.
    ChangesetLookupFailed(C),
    /// The commit does not exist.
    CommitIdNotFound(C),
}

impl<C> SuffixQueryError<C> {
    /// The HTTP status of the error: 400 for the client's mistakes, 500
    /// for the server's failures.
    pub open spec fn spec_http_status(&self) -> u16 {
        match self {
            SuffixQueryError::NoSuffixes => 400,
            SuffixQueryError::CommitIdNotFound(_) => 400,
            SuffixQueryError::ChangesetLookupFailed(_) => 500,
        }
    }

    /// The HTTP status of the error.
    pub fn http_status(&self) -> (s: u16)
        ensures
            s == self.spec_http_status(),
    {
        match self {
            SuffixQueryError::NoSuffixes => 400,
            SuffixQueryError::CommitIdNotFound(_) => 400,
            SuffixQueryError::ChangesetLookupFailed(_) => 500,
        }
    }

    /// The context that the handler gives the error, where it gives one:
    /// the missing suffixes, or the commit whose lookup failed, given as
    /// the text `commit_text` that it displays as. A commit that does not
    /// exist is reported by the error itself, with no context.
    pub open spec fn spec_context(&self, commit_text: Seq<char>) -> Option<Seq<char>> {
        match self {
            SuffixQueryError::NoSuffixes => Some("No suffixes provided"@),
            SuffixQueryError::ChangesetLookupFailed(_) => Some("Error getting changeset "@ + commit_text),
            SuffixQueryError::CommitIdNotFound(_) => None,
        }
    }

    /// The context that the handler gives the error, where it gives one.
    pub fn context(&self, commit_text: &str) -> (m: Option<String>)
        ensures
            opt_view(m) == self.spec_context(commit_text@),
    {
        match self {
            SuffixQueryError::NoSuffixes => Some(String::from_str("No suffixes provided")),
            SuffixQueryError::ChangesetLookupFailed(_) => {
                let mut m = String::from_str("Error getting changeset ");
                m.append(commit_text);
                Some(m)
            },
            SuffixQueryError::CommitIdNotFound(_) => None,
        }
    }
}

/// How looking up the queried commit turned out.
#[derive(Clone, Copy, Debug)]
pub enum ChangesetLookup {
    Failed,
    NotFound,
    Found,
}

/// What the handler does first with a query.
pub enum SuffixQueryStep<C> {
    /// Answer with this error.
    Fail(SuffixQueryError<C>),
    /// Look up `commit`, then search it for `suffixes`.
    LookUpChangeset { commit: C, suffixes: Vec<String> },
}

/// The handler of the suffix query endpoint.
pub struct SuffixQueryHandler;

impl SuffixQueryHandler {
    /// The endpoint's path.
    pub fn endpoint() -> (p: &'static str)
        ensures
            p@ == "/suffix_query"@,
    {
        "/suffix_query"
    }

    /// The endpoint takes POST requests.
    pub fn http_method() -> (m: Method)
        ensures
            m == Method::Post,
    {
        Method::Post
    }

    /// One in this many suffix queries is sampled for logging.
    pub fn sampling_rate<C>(_request: &SuffixQueryRequest<C>) -> (r: u64)
        ensures
            r == 100,
    {
        100
    }

    /// The first step for a query: refuse it when it holds no suffix,
    /// otherwise look its commit up.
    pub fn start<C>(request: SuffixQueryRequest<C>) -> (step: SuffixQueryStep<C>)
        ensures
            request.basename_suffixes@.len() == 0 <==> step == SuffixQueryStep::<C>::Fail(SuffixQueryError::<C>::NoSuffixes),
            request.basename_suffixes@.len() > 0 ==> (step matches SuffixQueryStep::LookUpChangeset { commit, suffixes }
                && commit == request.commit && suffixes@ == request.basename_suffixes@),
    {
        if request.basename_suffixes.len() == 0 {
            SuffixQueryStep::Fail(SuffixQueryError::NoSuffixes)
        } else {
            SuffixQueryStep::LookUpChangeset { commit: request.commit, suffixes: request.basename_suffixes }
        }
    }

    /// The step after the lookup of `commit`: search it when it was found,
    /// otherwise fail with the matching error about it.
    pub fn after_lookup<C>(commit: C, lookup: ChangesetLookup) -> (res: Result<C, SuffixQueryError<C>>)
        ensures
            match lookup {
                ChangesetLookup::Found => res == Ok::<C, SuffixQueryError<C>>(commit),
                ChangesetLookup::NotFound => res == Err::<C, SuffixQueryError<C>>(SuffixQueryError::CommitIdNotFound(commit)),
                ChangesetLookup::Failed => res == Err::<C, SuffixQueryError<C>>(SuffixQueryError::ChangesetLookupFailed(commit)),
            },
    {
        match lookup {
            ChangesetLookup::Found => Ok(commit),
            ChangesetLookup::NotFound => Err(SuffixQueryError::CommitIdNotFound(commit)),
            ChangesetLookup::Failed => Err(SuffixQueryError::ChangesetLookupFailed(commit)),
        }
    }
}

} // verus!
