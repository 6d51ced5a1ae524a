use vstd::prelude::*;

verus! {

/// Security settings of the daemon.
pub struct SecurityConfig {
    pub confirmation_ttl_secs: u64,
    pub max_pending_tokens: usize,
    pub allowed_uids: Vec<u32>,
}

/// Default lifetime of a confirmation token, in seconds.
pub fn default_ttl() -> (ttl: u64)
    ensures
        ttl == 30,
{
    30
}

/// Default bound on the number of pending confirmations.
pub fn default_max_tokens() -> (max: usize)
    ensures
        max == 100,
{
    100
}

/// Default set of user ids allowed to connect.
pub fn default_allowed_uids() -> (uids: Vec<u32>)
    ensures
        uids@ == seq![1001u32],
{
    vec![1001]
}

impl SecurityConfig {
    /// The configuration used when none is given: every setting at its default.
    pub fn defaults() -> (c: Self)
        ensures
            c.confirmation_ttl_secs == 30,
            c.max_pending_tokens == 100,
            c.allowed_uids@ == seq![1001u32],
    {
        SecurityConfig {
            confirmation_ttl_secs: default_ttl(),
            max_pending_tokens: default_max_tokens(),
            allowed_uids: default_allowed_uids(),
        }
    }

    /// Lifetime of a confirmation token, in nanoseconds.
    pub open spec fn ttl_nanos(self) -> int {
        self.confirmation_ttl_secs * 1_000_000_000
    }

    /// Whether a peer with user id `uid` may talk to the daemon.
    pub fn is_uid_allowed(&self, uid: u32) -> (allowed: bool)
        ensures
            allowed == self.allowed_uids@.contains(uid),
    {
        let n = self.allowed_uids.len();
        for i in 0..n
            invariant
                n == self.allowed_uids@.len(),
                forall|j: int| 0 <= j < i ==> self.allowed_uids@[j] != uid,
        {
            if self.allowed_uids[i] == uid {
                return true;
            }
        }
        false
    }
}

} // verus!
