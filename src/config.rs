use vstd::prelude::*;

verus! {

/// User agent sent when none is configured and no random one is drawn.
pub const DEFAULT_USER_AGENT: &'static str = "Mozilla/5.0 (Windows NT 10.0; Win64; x64) AppleWebKit/537.36 (KHTML, like Gecko) Chrome/120.0.0.0 Safari/537.36";

/// Relies on fake_user_agent::get_rua: it picks one entry of its built-in
/// tables at random, and none of those entries is empty.
#[verifier::external_body]
fn draw_user_agent() -> (r: String)
    ensures
        r@.len() > 0,
{
    fake_user_agent::get_rua().to_string()
}

/// Settings of one negotiation.
pub struct Bypasser<'a> {
    pub(crate) wait: u8,
    pub(crate) retry: u32,
    pub(crate) proxy: Option<&'a str>,
    pub(crate) user_agent: String,
    pub(crate) random_ua: bool,
}

impl<'a> Default for Bypasser<'a> {
    fn default() -> (r: Self)
        ensures
            r.spec_wait() == 3,
            r.spec_retry() == 1,
            r.spec_proxy().is_none(),
            r.spec_user_agent() == Seq::<char>::empty(),
            !r.spec_random_ua(),
    {
        Bypasser { wait: 3, retry: 1, proxy: None, user_agent: String::new(), random_ua: false }
    }
}

impl<'a> Bypasser<'a> {
    /// Seconds to pause before the answer is submitted.
    pub closed spec fn spec_wait(&self) -> u8 {
        self.wait
    }

    /// Ceiling on submission attempts, as configured.
    pub closed spec fn spec_retry(&self) -> u32 {
        self.retry
    }

    pub closed spec fn spec_proxy(&self) -> Option<&'a str> {
        self.proxy
    }

    /// The fixed user agent; empty when none is set.
    pub closed spec fn spec_user_agent(&self) -> Seq<char> {
        self.user_agent@
    }

    pub closed spec fn spec_random_ua(&self) -> bool {
        self.random_ua
    }

    /// Number of submissions made before giving up: a ceiling of zero
    /// still allows the one attempt.
    pub open spec fn attempt_limit(&self) -> u32 {
        if self.spec_retry() == 0 { 1 } else { self.spec_retry() }
    }

    /// The user agent that a negotiation sends: the fixed one, else the
    /// default.
    pub open spec fn resolved_user_agent(&self) -> Seq<char> {
        if self.spec_user_agent().len() > 0 {
            self.spec_user_agent()
        } else {
            DEFAULT_USER_AGENT@
        }
    }

    pub fn wait(self, secs: u8) -> (r: Self)
        ensures
            r.spec_wait() == secs,
            r.spec_retry() == self.spec_retry(),
            r.spec_proxy() == self.spec_proxy(),
            r.spec_user_agent() == self.spec_user_agent(),
            r.spec_random_ua() == self.spec_random_ua(),
    {
        Bypasser { wait: secs, ..self }
    }

    pub fn user_agent(self, user_agent: &str) -> (r: Self)
        ensures
            r.spec_user_agent() == user_agent@,
            r.spec_wait() == self.spec_wait(),
            r.spec_retry() == self.spec_retry(),
            r.spec_proxy() == self.spec_proxy(),
            r.spec_random_ua() == self.spec_random_ua(),
    {
        Bypasser { user_agent: user_agent.to_owned(), ..self }
    }

    /// Draw the user agent at random when no fixed one is set.
    pub fn random_user_agent(self, flag: bool) -> (r: Self)
        ensures
            r.spec_random_ua() == flag,
            r.spec_wait() == self.spec_wait(),
            r.spec_retry() == self.spec_retry(),
            r.spec_proxy() == self.spec_proxy(),
            r.spec_user_agent() == self.spec_user_agent(),
    {
        Bypasser { random_ua: flag, ..self }
    }

    pub fn proxy(self, address: &'a str) -> (r: Self)
        ensures
            r.spec_proxy() == Some(address),
            r.spec_wait() == self.spec_wait(),
            r.spec_retry() == self.spec_retry(),
            r.spec_user_agent() == self.spec_user_agent(),
            r.spec_random_ua() == self.spec_random_ua(),
    {
        Bypasser { proxy: Some(address), ..self }
    }

    pub fn retry(self, times: u32) -> (r: Self)
        ensures
            r.spec_retry() == times,
            r.spec_wait() == self.spec_wait(),
            r.spec_proxy() == self.spec_proxy(),
            r.spec_user_agent() == self.spec_user_agent(),
            r.spec_random_ua() == self.spec_random_ua(),
    {
        Bypasser { retry: times, ..self }
    }

    pub fn wait_secs(&self) -> (r: u8)
        ensures
            r == self.spec_wait(),
    {
        self.wait
    }

    pub fn retry_times(&self) -> (r: u32)
        ensures
            r == self.spec_retry(),
    {
        self.retry
    }

    /// The upstream proxy that the transport should go through, if any.
    pub fn proxy_address(&self) -> (r: Option<&'a str>)
        ensures
            r == self.spec_proxy(),
    {
        self.proxy
    }

    /// Resolves the user agent of this negotiation. A random one is drawn
    /// only when enabled and no fixed one is set, and is then kept, so later
    /// resolutions give the same value; without either, the default is used.
    pub fn get_user_agent(&mut self) -> (r: String)
        ensures
            final(self).spec_wait() == old(self).spec_wait(),
            final(self).spec_retry() == old(self).spec_retry(),
            final(self).spec_proxy() == old(self).spec_proxy(),
            final(self).spec_random_ua() == old(self).spec_random_ua(),
            old(self).spec_user_agent().len() > 0 ==> final(self).spec_user_agent() == old(self).spec_user_agent(),
            old(self).spec_user_agent().len() == 0 && !old(self).spec_random_ua() ==> final(self).spec_user_agent().len() == 0,
            old(self).spec_user_agent().len() == 0 && old(self).spec_random_ua() ==> final(self).spec_user_agent().len() > 0,
            r@ == final(self).resolved_user_agent(),
            r@.len() > 0,
    {
        if self.random_ua && self.user_agent.as_str().is_empty() {
            self.user_agent = draw_user_agent();
        }
        if self.user_agent.as_str().is_empty() {
            proof {
                reveal_strlit(
                    "Mozilla/5.0 (Windows NT 10.0; Win64; x64) AppleWebKit/537.36 (KHTML, like Gecko) Chrome/120.0.0.0 Safari/537.36",
                );
            }
            DEFAULT_USER_AGENT.to_owned()
        } else {
            self.user_agent.clone()
        }
    }
}

} // verus!
