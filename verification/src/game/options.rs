use vstd::prelude::*;

verus! {

/// Game configuration: whether the lone-wolf rule is active, and whether the
/// deal keeps the input order instead of shuffling (for deterministic
/// set-ups).
#[derive(Clone, Copy, Debug)]
pub struct Options {
    lone_wolf: bool,
    debug_set_roles: bool,
}

impl Options {
    pub closed spec fn spec_lone_wolf(self) -> bool {
        self.lone_wolf
    }

    pub closed spec fn spec_debug_set_roles(self) -> bool {
        self.debug_set_roles
    }

    pub fn new() -> (r: Options)
        ensures
            !r.spec_lone_wolf(),
            !r.spec_debug_set_roles(),
    {
        Options { lone_wolf: false, debug_set_roles: false }
    }

    /// Enable the lone-wolf rule: a Werewolf acting alone may peek one center
    /// card.
    pub fn with_lone_wolf(self) -> (r: Options)
        ensures
            r.spec_lone_wolf(),
            r.spec_debug_set_roles() == self.spec_debug_set_roles(),
    {
        Options { lone_wolf: true, debug_set_roles: self.debug_set_roles }
    }

    /// Deal the roles exactly in input order, without shuffling.
    pub fn debug_with_set_roles(self) -> (r: Options)
        ensures
            r.spec_debug_set_roles(),
            r.spec_lone_wolf() == self.spec_lone_wolf(),
    {
        Options { lone_wolf: self.lone_wolf, debug_set_roles: true }
    }

    pub fn lone_wolf(&self) -> (r: bool)
        ensures
            r == self.spec_lone_wolf(),
    {
        self.lone_wolf
    }

    pub fn debug_set_roles(&self) -> (r: bool)
        ensures
            r == self.spec_debug_set_roles(),
    {
        self.debug_set_roles
    }
}

impl Default for Options {
    fn default() -> (r: Options)
        ensures
            !r.spec_lone_wolf(),
            !r.spec_debug_set_roles(),
    {
        Options { lone_wolf: false, debug_set_roles: false }
    }
}

} // verus!
