//! What happens to an object when its last handle is given up.
use vstd::prelude::*;

verus! {

/// The delete behavior of an object: whether it lingers, playing out what
/// it has, and for how long at most. The timeout is kept as the bits of a
/// double, in seconds.
#[derive(Debug, Clone, Copy, PartialEq, Eq, Structural)]
pub struct DeleteBehaviorConfig {
    pub(crate) linger: bool,
    pub(crate) linger_timeout: u64,
}

impl DeleteBehaviorConfig {
    /// Whether the object lingers.
    pub closed spec fn linger_spec(&self) -> bool {
        self.linger
    }

    /// The bits of the timeout.
    pub closed spec fn linger_timeout_spec(&self) -> u64 {
        self.linger_timeout
    }

    /// The engine's default: no lingering, and a timeout of zero.
    pub fn new() -> (r: DeleteBehaviorConfig)
        ensures
            !r.linger_spec(),
            r.linger_timeout_spec() == 0,
    {
        DeleteBehaviorConfig { linger: false, linger_timeout: 0 }
    }

    pub fn set_linger(&mut self, linger: bool)
        ensures
            final(self).linger_spec() == linger,
            final(self).linger_timeout_spec() == old(self).linger_timeout_spec(),
    {
        self.linger = linger;
    }

    /// Sets the timeout to the double with the bits `timeout`.
    pub fn set_linger_timeout(&mut self, timeout: u64)
        ensures
            final(self).linger_spec() == old(self).linger_spec(),
            final(self).linger_timeout_spec() == timeout,
    {
        self.linger_timeout = timeout;
    }

    /// Whether the object lingers.
    pub fn get_linger(&self) -> (r: bool)
        ensures
            r == self.linger_spec(),
    {
        self.linger
    }

    /// The bits of the timeout.
    pub fn get_linger_timeout(&self) -> (r: u64)
        ensures
            r == self.linger_timeout_spec(),
    {
        self.linger_timeout
    }
}

impl Default for DeleteBehaviorConfig {
    fn default() -> (r: DeleteBehaviorConfig)
        ensures
            !r.linger_spec(),
            r.linger_timeout_spec() == 0,
    {
        DeleteBehaviorConfig::new()
    }
}

/// The call that sets the delete behavior of an object, which the binding
/// owes the engine.
#[derive(Debug, Clone, Copy, PartialEq, Eq, Structural)]
pub struct DeleteBehaviorCall {
    /// The identifier of the object.
    pub target: u64,
    pub config: DeleteBehaviorConfig,
}

/// A builder for a `DeleteBehaviorConfig`.
#[derive(Debug)]
pub struct DeleteBehaviorConfigBuilder {
    cfg: DeleteBehaviorConfig,
}

impl DeleteBehaviorConfigBuilder {
    /// The configuration that `build` would give now.
    pub closed spec fn config(&self) -> DeleteBehaviorConfig {
        self.cfg
    }

    /// A builder that starts from the engine's default.
    pub fn new() -> (r: DeleteBehaviorConfigBuilder)
        ensures
            !r.config().linger_spec(),
            r.config().linger_timeout_spec() == 0,
    {
        DeleteBehaviorConfigBuilder { cfg: DeleteBehaviorConfig::new() }
    }

    pub fn linger(self, linger: bool) -> (r: Self)
        ensures
            r.config().linger_spec() == linger,
            r.config().linger_timeout_spec() == self.config().linger_timeout_spec(),
    {
        let mut b = self;
        b.cfg.set_linger(linger);
        b
    }

    /// Sets the timeout to the double with the bits `timeout`.
    pub fn linger_timeout(self, timeout: u64) -> (r: Self)
        ensures
            r.config().linger_spec() == self.config().linger_spec(),
            r.config().linger_timeout_spec() == timeout,
    {
        let mut b = self;
        b.cfg.set_linger_timeout(timeout);
        b
    }

    pub fn build(self) -> (r: DeleteBehaviorConfig)
        ensures
            r == self.config(),
    {
        self.cfg
    }
}

impl Default for DeleteBehaviorConfigBuilder {
    fn default() -> (r: DeleteBehaviorConfigBuilder)
        ensures
            !r.config().linger_spec(),
            r.config().linger_timeout_spec() == 0,
    {
        DeleteBehaviorConfigBuilder::new()
    }
}

} // verus!
