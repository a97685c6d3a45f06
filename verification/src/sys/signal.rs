//! Signal identifiers and signal sets.
//!
//! A signal is named by a small integer in the range `[1, NSIG)`.  A
//! [`SigSet`] is a value type recording which of those identifiers are
//! members; its membership is the only observable property.

use vstd::prelude::*;

use crate::errno::Errno;

verus! {

/// A signal identifier: a small integer in the range `[1, NSIG)`.
pub type SigNum = i32;

/// One past the largest valid signal identifier on this platform.
pub const NSIG: SigNum = 32;

pub const SIGHUP: SigNum = 1;
pub const SIGINT: SigNum = 2;
pub const SIGQUIT: SigNum = 3;
pub const SIGILL: SigNum = 4;
pub const SIGTRAP: SigNum = 5;
pub const SIGABRT: SigNum = 6;
/// Alias kept for `SIGABRT`.
pub const SIGIOT: SigNum = 6;
pub const SIGBUS: SigNum = 7;
pub const SIGFPE: SigNum = 8;
pub const SIGKILL: SigNum = 9;
pub const SIGUSR1: SigNum = 10;
pub const SIGSEGV: SigNum = 11;
pub const SIGUSR2: SigNum = 12;
pub const SIGPIPE: SigNum = 13;
pub const SIGALRM: SigNum = 14;
pub const SIGTERM: SigNum = 15;
pub const SIGSTKFLT: SigNum = 16;
pub const SIGCHLD: SigNum = 17;
pub const SIGCONT: SigNum = 18;
pub const SIGSTOP: SigNum = 19;
pub const SIGTSTP: SigNum = 20;
pub const SIGTTIN: SigNum = 21;
pub const SIGTTOU: SigNum = 22;
pub const SIGURG: SigNum = 23;
pub const SIGXCPU: SigNum = 24;
pub const SIGXFSZ: SigNum = 25;
pub const SIGVTALRM: SigNum = 26;
pub const SIGPROF: SigNum = 27;
pub const SIGWINCH: SigNum = 28;
pub const SIGIO: SigNum = 29;
/// Alias kept for `SIGIO`.
pub const SIGPOLL: SigNum = 29;
pub const SIGPWR: SigNum = 30;
pub const SIGSYS: SigNum = 31;
/// Alias kept for the last valid identifier.
pub const SIGUNUSED: SigNum = 31;

/// Whether `s` is a signal identifier this platform accepts.
pub open spec fn is_valid_signal(s: SigNum) -> bool {
    1 <= s < NSIG
}

/// A set of signal identifiers.
///
/// Membership is recorded in one bit per identifier.  The member bits are
/// private; every contract speaks through [`SigSet::spec_has`] and the
/// spec-level constructors.
#[derive(Clone, Copy, Debug, PartialEq, Eq, Structural)]
pub struct SigSet {
    bits: u32,
}

impl SigSet {
    /// Whether signal `s` is a member of this set.
    pub closed spec fn spec_has(self, s: SigNum) -> bool {
        is_valid_signal(s) && (self.bits >> (s as u32)) & 1u32 == 1u32
    }

    /// The set with no members.
    pub closed spec fn spec_empty() -> SigSet {
        SigSet { bits: 0u32 }
    }

    /// The set holding every valid identifier.
    pub closed spec fn spec_all() -> SigSet {
        SigSet { bits: 0xFFFF_FFFEu32 }
    }

    /// `self` with signal `s` added.
    pub closed spec fn spec_insert(self, s: SigNum) -> SigSet {
        SigSet { bits: self.bits | (1u32 << (s as u32)) }
    }

    /// `self` with signal `s` removed.
    pub closed spec fn spec_delete(self, s: SigNum) -> SigSet {
        SigSet { bits: self.bits & !(1u32 << (s as u32)) }
    }

    /// Returns a set with no members.
    pub fn empty() -> (r: SigSet)
        ensures
            r == SigSet::spec_empty(),
            forall|s: SigNum| !r.spec_has(s),
    {
        proof {
            assert forall|s: SigNum| !SigSet::spec_empty().spec_has(s) by {
                if is_valid_signal(s) {
                    let su = s as u32;
                    assert((0u32 >> su) & 1u32 == 0u32) by (bit_vector);
                }
            }
        }
        SigSet { bits: 0u32 }
    }

    /// Returns a set with every valid identifier as a member.
    pub fn all() -> (r: SigSet)
        ensures
            r == SigSet::spec_all(),
            forall|s: SigNum| r.spec_has(s) <==> is_valid_signal(s),
    {
        proof {
            assert forall|s: SigNum| SigSet::spec_all().spec_has(s) <==> is_valid_signal(s) by {
                if is_valid_signal(s) {
                    let su = s as u32;
                    assert((0xFFFF_FFFEu32 >> su) & 1u32 == 1u32) by (bit_vector)
                        requires
                            1u32 <= su < 32u32,
                    ;
                }
            }
        }
        SigSet { bits: 0xFFFF_FFFEu32 }
    }

    /// Adds signal `signum` to the set.
    ///
    /// Rejects an identifier outside `[1, NSIG)` with `EINVAL` and leaves
    /// the set unchanged in that case.
    pub fn add(&mut self, signum: SigNum) -> (r: Result<(), Errno>)
        ensures
            is_valid_signal(signum) ==> {
                &&& r == Ok::<(), Errno>(())
                &&& *final(self) == old(self).spec_insert(signum)
                &&& forall|t: SigNum|
                    final(self).spec_has(t) == (old(self).spec_has(t) || t == signum)
            },
            !is_valid_signal(signum) ==> {
                &&& r == Err::<(), Errno>(Errno::EINVAL)
                &&& *final(self) == *old(self)
            },
    {
        if 1 <= signum && signum < NSIG {
            self.bits = self.bits | (1u32 << (signum as u32));
            proof {
                assert forall|t: SigNum|
                    self.spec_has(t) == (old(self).spec_has(t) || t == signum) by {
                    if is_valid_signal(t) {
                        let b = old(self).bits;
                        let su = signum as u32;
                        let tu = t as u32;
                        assert((((b | (1u32 << su)) >> tu) & 1u32 == 1u32) <==> (((b >> tu)
                            & 1u32 == 1u32) || tu == su)) by (bit_vector)
                            requires
                                su < 32u32,
                                tu < 32u32,
                        ;
                    }
                }
            }
            Ok(())
        } else {
            Err(Errno::EINVAL)
        }
    }

    /// Removes signal `signum` from the set.
    ///
    /// Rejects an identifier outside `[1, NSIG)` with `EINVAL` and leaves
    /// the set unchanged in that case.
    pub fn remove(&mut self, signum: SigNum) -> (r: Result<(), Errno>)
        ensures
            is_valid_signal(signum) ==> {
                &&& r == Ok::<(), Errno>(())
                &&& *final(self) == old(self).spec_delete(signum)
                &&& forall|t: SigNum|
                    final(self).spec_has(t) == (old(self).spec_has(t) && t != signum)
            },
            !is_valid_signal(signum) ==> {
                &&& r == Err::<(), Errno>(Errno::EINVAL)
                &&& *final(self) == *old(self)
            },
    {
        if 1 <= signum && signum < NSIG {
            self.bits = self.bits & !(1u32 << (signum as u32));
            proof {
                assert forall|t: SigNum|
                    self.spec_has(t) == (old(self).spec_has(t) && t != signum) by {
                    if is_valid_signal(t) {
                        let b = old(self).bits;
                        let su = signum as u32;
                        let tu = t as u32;
                        assert((((b & !(1u32 << su)) >> tu) & 1u32 == 1u32) <==> (((b >> tu)
                            & 1u32 == 1u32) && tu != su)) by (bit_vector)
                            requires
                                su < 32u32,
                                tu < 32u32,
                        ;
                    }
                }
            }
            Ok(())
        } else {
            Err(Errno::EINVAL)
        }
    }

    /// Removes every member, leaving the empty set.
    ///
    /// The outcome does not depend on the prior contents, so clearing twice
    /// in a row leaves the set empty both times.
    pub fn clear(&mut self) -> (r: Result<(), Errno>)
        ensures
            r == Ok::<(), Errno>(()),
            *final(self) == SigSet::spec_empty(),
            forall|t: SigNum| !final(self).spec_has(t),
    {
        self.bits = 0u32;
        proof {
            assert forall|t: SigNum| !self.spec_has(t) by {
                if is_valid_signal(t) {
                    let tu = t as u32;
                    assert((0u32 >> tu) & 1u32 == 0u32) by (bit_vector);
                }
            }
        }
        Ok(())
    }

    /// Reports whether signal `signum` is a member of the set.
    ///
    /// Rejects an identifier outside `[1, NSIG)` with `EINVAL`.
    pub fn contains(&self, signum: SigNum) -> (r: Result<bool, Errno>)
        ensures
            is_valid_signal(signum) ==> r == Ok::<bool, Errno>(self.spec_has(signum)),
            !is_valid_signal(signum) ==> r == Err::<bool, Errno>(Errno::EINVAL),
    {
        if 1 <= signum && signum < NSIG {
            Ok((self.bits >> (signum as u32)) & 1u32 == 1u32)
        } else {
            Err(Errno::EINVAL)
        }
    }

    /// Adds every member of `other` to `self`, keeping `self`'s existing
    /// members.
    #[verifier::loop_isolation(false)]
    pub fn extend(&mut self, other: &SigSet) -> (r: Result<(), Errno>)
        ensures
            r == Ok::<(), Errno>(()),
            forall|t: SigNum|
                final(self).spec_has(t) == (old(self).spec_has(t) || other.spec_has(t)),
    {
        let ghost base = *self;
        let mut i: SigNum = 1;
        while i < NSIG
            invariant
                1 <= i <= NSIG,
                forall|t: SigNum|
                    self.spec_has(t) == (base.spec_has(t) || (other.spec_has(t) && t < i)),
            decreases NSIG - i,
        {
            let ghost before = *self;
            let hit = other.contains(i)?;
            if hit {
                self.add(i)?;
            }
            proof {
                assert forall|t: SigNum|
                    self.spec_has(t) == (base.spec_has(t) || (other.spec_has(t) && t < i
                        + 1)) by {
                    assert(before.spec_has(t) == (base.spec_has(t) || (other.spec_has(t)
                        && t < i)));
                    if hit {
                        assert(self.spec_has(t) == (before.spec_has(t) || t == i));
                    } else {
                        assert(*self == before);
                    }
                }
            }
            i = i + 1;
        }
        Ok(())
    }
}

/// How a set of signals is applied to the calling thread's blocked-signal
/// mask: merged into it, removed from it, or installed in place of it.
#[allow(non_camel_case_types)]
#[derive(Clone, Copy, Debug, PartialEq, Eq, Structural)]
pub enum SigFlags {
    SIG_BLOCK,
    SIG_UNBLOCK,
    SIG_SETMASK,
}

/// Whether signal `t` is blocked after a mask `set` is applied under mode
/// `how` to a thread whose mask was `current`.
///
/// This is the exact update the operating system performs on the thread's
/// mask: `SIG_BLOCK` is a union, `SIG_UNBLOCK` a set difference, and
/// `SIG_SETMASK` an outright replacement.
pub open spec fn spec_mask_member_after(
    current: SigSet,
    set: SigSet,
    how: SigFlags,
    t: SigNum,
) -> bool {
    match how {
        SigFlags::SIG_BLOCK => current.spec_has(t) || set.spec_has(t),
        SigFlags::SIG_UNBLOCK => current.spec_has(t) && !set.spec_has(t),
        SigFlags::SIG_SETMASK => set.spec_has(t),
    }
}

/// Computes the blocked-signal mask that results from applying `set` under
/// mode `how` to a thread whose mask is `current`.
pub fn mask_after(current: &SigSet, set: &SigSet, how: SigFlags) -> (r: SigSet)
    ensures
        forall|t: SigNum| r.spec_has(t) == spec_mask_member_after(*current, *set, how, t),
        how == SigFlags::SIG_SETMASK ==> r == *set,
{
    match how {
        SigFlags::SIG_BLOCK => {
            let r = SigSet { bits: current.bits | set.bits };
            proof {
                assert forall|t: SigNum|
                    r.spec_has(t) == (current.spec_has(t) || set.spec_has(t)) by {
                    if is_valid_signal(t) {
                        let a = current.bits;
                        let b = set.bits;
                        let tu = t as u32;
                        assert((((a | b) >> tu) & 1u32 == 1u32) <==> (((a >> tu) & 1u32
                            == 1u32) || ((b >> tu) & 1u32 == 1u32))) by (bit_vector);
                    }
                }
            }
            r
        },
        SigFlags::SIG_UNBLOCK => {
            let r = SigSet { bits: current.bits & !set.bits };
            proof {
                assert forall|t: SigNum|
                    r.spec_has(t) == (current.spec_has(t) && !set.spec_has(t)) by {
                    if is_valid_signal(t) {
                        let a = current.bits;
                        let b = set.bits;
                        let tu = t as u32;
                        assert((((a & !b) >> tu) & 1u32 == 1u32) <==> (((a >> tu) & 1u32
                            == 1u32) && !((b >> tu) & 1u32 == 1u32))) by (bit_vector);
                    }
                }
            }
            r
        },
        SigFlags::SIG_SETMASK => *set,
    }
}

pub const SA_NOCLDSTOP: u32 = 0x0000_0001;
pub const SA_NOCLDWAIT: u32 = 0x0000_0002;
pub const SA_SIGINFO: u32 = 0x0000_0004;
pub const SA_ONSTACK: u32 = 0x0800_0000;
pub const SA_RESTART: u32 = 0x1000_0000;
pub const SA_NODEFER: u32 = 0x4000_0000;
pub const SA_RESETHAND: u32 = 0x8000_0000;

/// Delivery-behavior flags of a signal disposition, one bit per flag.
#[derive(Clone, Copy, Debug, PartialEq, Eq, Structural)]
pub struct SaFlags {
    bits: u32,
}

impl SaFlags {
    /// The raw flag bits this value carries.
    pub closed spec fn spec_bits(self) -> u32 {
        self.bits
    }

    /// Returns the flag set with no flags raised.
    pub fn empty() -> (r: SaFlags)
        ensures
            r.spec_bits() == 0u32,
    {
        SaFlags { bits: 0u32 }
    }

    /// Builds a flag set from raw bits such as [`SA_RESTART`].
    pub fn from_bits(bits: u32) -> (r: SaFlags)
        ensures
            r.spec_bits() == bits,
    {
        SaFlags { bits }
    }

    /// Returns the raw flag bits.
    pub fn bits(&self) -> (r: u32)
        ensures
            r == self.spec_bits(),
    {
        self.bits
    }

    /// Returns the flags raised in `self` or in `other`.
    pub fn union(self, other: SaFlags) -> (r: SaFlags)
        ensures
            r.spec_bits() == self.spec_bits() | other.spec_bits(),
    {
        SaFlags { bits: self.bits | other.bits }
    }

    /// Returns the flags raised in `self` but not in `other`.
    pub fn difference(self, other: SaFlags) -> (r: SaFlags)
        ensures
            r.spec_bits() == self.spec_bits() & !other.spec_bits(),
    {
        SaFlags { bits: self.bits & !other.bits }
    }

    /// Reports whether every flag raised in `other` is raised in `self`.
    pub fn contains(self, other: SaFlags) -> (r: bool)
        ensures
            r == (self.spec_bits() & other.spec_bits() == other.spec_bits()),
    {
        self.bits & other.bits == other.bits
    }
}

/// The action a disposition selects when its signal is delivered.
///
/// Exactly one selector is active per disposition.  The two handler
/// selectors stand for a plain handler receiving only the identifier and
/// an extended handler also receiving delivery context; the function
/// pointers themselves are kernel-facing values carried by the embedding
/// application, which keeps a parallel record of this choice.
#[derive(Clone, Copy, Debug, PartialEq, Eq, Structural)]
pub enum SigHandler {
    /// Take the signal's default action.
    SigDfl,
    /// Ignore the signal.
    SigIgn,
    /// Run a plain handler given only the signal identifier.
    Handler,
    /// Run an extended handler given the identifier and delivery context.
    SigAction,
}

/// A signal disposition: a handler selector, delivery-behavior flags, and
/// the mask held blocked while the handler runs.
#[derive(Clone, Copy, Debug, PartialEq, Eq, Structural)]
pub struct SigAction {
    handler: SigHandler,
    flags: SaFlags,
    mask: SigSet,
}

impl SigAction {
    /// The handler selector of this disposition.
    pub closed spec fn spec_handler(self) -> SigHandler {
        self.handler
    }

    /// The delivery-behavior flags of this disposition.
    pub closed spec fn spec_flags(self) -> SaFlags {
        self.flags
    }

    /// The mask blocked while the handler runs.
    pub closed spec fn spec_mask(self) -> SigSet {
        self.mask
    }

    /// The extended-info flag is raised exactly when the extended handler
    /// is selected.  This is derived at construction and never
    /// caller-configurable.
    pub open spec fn siginfo_consistent(self) -> bool {
        (self.spec_flags().spec_bits() & SA_SIGINFO != 0u32) <==> (self.spec_handler()
            == SigHandler::SigAction)
    }

    /// Builds a disposition from a handler selector, flags, and a
    /// handler-time mask.
    ///
    /// The `SA_SIGINFO` bit of `flags` is overridden: it is raised when
    /// `handler` is the extended selector and lowered otherwise.
    pub fn new(handler: SigHandler, flags: SaFlags, mask: SigSet) -> (r: SigAction)
        ensures
            r.spec_handler() == handler,
            r.spec_mask() == mask,
            handler == SigHandler::SigAction ==> r.spec_flags().spec_bits()
                == flags.spec_bits() | SA_SIGINFO,
            handler != SigHandler::SigAction ==> r.spec_flags().spec_bits()
                == flags.spec_bits() & !SA_SIGINFO,
            r.siginfo_consistent(),
    {
        let derived = match handler {
            SigHandler::SigAction => flags.union(SaFlags::from_bits(SA_SIGINFO)),
            _ => flags.difference(SaFlags::from_bits(SA_SIGINFO)),
        };
        proof {
            let f = flags.spec_bits();
            assert((f | 0x4u32) & 0x4u32 != 0u32) by (bit_vector);
            assert((f & !0x4u32) & 0x4u32 == 0u32) by (bit_vector);
        }
        SigAction { handler, flags: derived, mask }
    }

    /// Returns the handler selector.
    pub fn handler(&self) -> (r: SigHandler)
        ensures
            r == self.spec_handler(),
    {
        self.handler
    }

    /// Returns the delivery-behavior flags.
    pub fn flags(&self) -> (r: SaFlags)
        ensures
            r == self.spec_flags(),
    {
        self.flags
    }

    /// Returns the handler-time mask.
    pub fn mask(&self) -> (r: SigSet)
        ensures
            r == self.spec_mask(),
    {
        self.mask
    }
}

/// The empty set has no member, and the full set has exactly the valid
/// identifiers as members.
pub proof fn lemma_empty_all_membership(s: SigNum)
    ensures
        !SigSet::spec_empty().spec_has(s),
        SigSet::spec_all().spec_has(s) <==> is_valid_signal(s),
{
    if is_valid_signal(s) {
        let su = s as u32;
        assert((0u32 >> su) & 1u32 == 0u32) by (bit_vector);
        assert((0xFFFF_FFFEu32 >> su) & 1u32 == 1u32) by (bit_vector)
            requires
                1u32 <= su < 32u32,
        ;
    }
}

/// Adding a valid identifier `s` makes it a member and touches no other
/// identifier; removing it afterwards takes it out again.
pub proof fn lemma_insert_membership(m: SigSet, s: SigNum, t: SigNum)
    requires
        is_valid_signal(s),
    ensures
        m.spec_insert(s).spec_has(t) == (m.spec_has(t) || t == s),
{
    if is_valid_signal(t) {
        let b = m.bits;
        let su = s as u32;
        let tu = t as u32;
        assert((((b | (1u32 << su)) >> tu) & 1u32 == 1u32) <==> (((b >> tu) & 1u32
            == 1u32) || tu == su)) by (bit_vector)
            requires
                su < 32u32,
                tu < 32u32,
        ;
    }
}

/// Removing a valid identifier `s` takes it out and touches no other
/// identifier.
pub proof fn lemma_delete_membership(m: SigSet, s: SigNum, t: SigNum)
    requires
        is_valid_signal(s),
    ensures
        m.spec_delete(s).spec_has(t) == (m.spec_has(t) && t != s),
{
    if is_valid_signal(t) {
        let b = m.bits;
        let su = s as u32;
        let tu = t as u32;
        assert((((b & !(1u32 << su)) >> tu) & 1u32 == 1u32) <==> (((b >> tu) & 1u32
            == 1u32) && tu != su)) by (bit_vector)
            requires
                su < 32u32,
                tu < 32u32,
        ;
    }
}

/// After adding a valid identifier to any set it is a member; after then
/// removing it, it is not.
pub proof fn lemma_add_then_remove(m: SigSet, s: SigNum)
    requires
        is_valid_signal(s),
    ensures
        m.spec_insert(s).spec_has(s),
        !m.spec_insert(s).spec_delete(s).spec_has(s),
{
    lemma_insert_membership(m, s, s);
    lemma_delete_membership(m.spec_insert(s), s, s);
}

/// Merging a singleton set `{sig1}` into a disjoint singleton `{sig2}`
/// yields a set holding both identifiers.  The third argument is the
/// merged set, characterized pointwise as [`SigSet::extend`] leaves it.
pub proof fn lemma_extend_disjoint_singletons(sig1: SigNum, sig2: SigNum, merged: SigSet)
    requires
        is_valid_signal(sig1),
        is_valid_signal(sig2),
        sig1 != sig2,
        forall|t: SigNum|
            merged.spec_has(t) == (SigSet::spec_empty().spec_insert(sig2).spec_has(t)
                || SigSet::spec_empty().spec_insert(sig1).spec_has(t)),
    ensures
        merged.spec_has(sig1),
        merged.spec_has(sig2),
{
    lemma_insert_membership(SigSet::spec_empty(), sig1, sig1);
    lemma_insert_membership(SigSet::spec_empty(), sig2, sig2);
}

/// Clearing is idempotent.  [`SigSet::clear`] leaves the empty set
/// whatever the input was — the full set included — so after one clear and
/// after a second clear in a row the set is empty both times, with the
/// same membership as [`SigSet::spec_empty`] at every identifier.
pub proof fn lemma_clear_idempotent(after_first: SigSet, after_second: SigSet, s: SigNum)
    requires
        after_first == SigSet::spec_empty(),
        after_second == SigSet::spec_empty(),
    ensures
        after_first == after_second,
        !after_first.spec_has(s),
        !after_second.spec_has(s),
{
    lemma_empty_all_membership(s);
}

/// Swap-mask symmetry: applying a new mask under any mode and then
/// installing the returned prior mask with `SIG_SETMASK` restores the
/// original mask exactly.
///
/// `changed` is the mask after the first application, `restored` the mask
/// after the prior mask `original` is installed again in replace mode.
pub proof fn lemma_swap_mask_round_trip(
    original: SigSet,
    applied: SigSet,
    how: SigFlags,
    changed: SigSet,
    restored: SigSet,
)
    requires
        forall|t: SigNum| changed.spec_has(t) == spec_mask_member_after(original, applied, how, t),
        forall|t: SigNum|
            restored.spec_has(t) == spec_mask_member_after(
                changed,
                original,
                SigFlags::SIG_SETMASK,
                t,
            ),
    ensures
        forall|t: SigNum| restored.spec_has(t) == original.spec_has(t),
{
}

} // verus!
