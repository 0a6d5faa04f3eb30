//! Telling the poller that the stored tokens have changed.

use crate::auth::tokens::TokenResponse;
use vstd::prelude::*;

verus! {

/// Set by signing in and signing out when they touch the stored tokens, out
/// from under the poller's cached token pair. The poller only ever needs to
/// know "look again", not the new value, so a single flag is enough.
#[derive(Debug)]
pub struct AuthDirty(bool);

impl AuthDirty {
    /// Is the flag set?
    pub closed spec fn is_set(self) -> bool {
        self.0
    }

    pub fn new() -> (flag: Self)
        ensures
            !flag.is_set(),
    {
        AuthDirty(false)
    }

    /// Called after signing in or out has touched the stored tokens.
    pub fn mark(&mut self)
        ensures
            final(self).is_set(),
    {
        self.0 = true;
    }

    /// Called once per poll: reports whether the flag was set since the last
    /// check, and clears it, so that it is only ever consumed once.
    pub fn take(&mut self) -> (was_set: bool)
        ensures
            was_set == old(self).is_set(),
            !final(self).is_set(),
    {
        let was_set = self.0;
        self.0 = false;
        was_set
    }
}

impl Default for AuthDirty {
    fn default() -> (flag: Self)
        ensures
            !flag.is_set(),
    {
        AuthDirty::new()
    }
}

/// What signing in and out leave for the poller: that it is to look again, and
/// the tokens of a sign-in that no store could hold, which live in memory only.
#[derive(Debug)]
pub struct TokenNews {
    flag: AuthDirty,
    unsaved: Option<TokenResponse>,
}

impl TokenNews {
    /// Is the poller to look again?
    pub closed spec fn is_set(self) -> bool {
        self.flag.is_set()
    }

    /// The tokens handed on in memory, if any are.
    pub closed spec fn handed(self) -> Option<TokenResponse> {
        self.unsaved
    }

    pub fn new() -> (news: Self)
        ensures
            !news.is_set(),
            news.handed() is None,
    {
        TokenNews { flag: AuthDirty::new(), unsaved: None }
    }

    /// Called after signing in: `unsaved` holds the tokens if no store does.
    pub fn signed_in(&mut self, unsaved: Option<TokenResponse>)
        ensures
            final(self).is_set(),
            final(self).handed() == unsaved,
    {
        self.flag.mark();
        self.unsaved = unsaved;
    }

    /// Called after signing out: whatever was handed on is void.
    pub fn signed_out(&mut self)
        ensures
            final(self).is_set(),
            final(self).handed() is None,
    {
        self.flag.mark();
        self.unsaved = None;
    }

    /// Called once per poll: what is new since the last time. Both parts are
    /// only ever consumed once.
    pub fn take(&mut self) -> (news: (bool, Option<TokenResponse>))
        ensures
            news == (old(self).is_set(), old(self).handed()),
            !final(self).is_set(),
            final(self).handed() is None,
    {
        let touched = self.flag.take();
        let unsaved = self.unsaved.take();
        (touched, unsaved)
    }
}

impl Default for TokenNews {
    fn default() -> (news: Self)
        ensures
            !news.is_set(),
            news.handed() is None,
    {
        TokenNews::new()
    }
}

} // verus!
