//! The resource-lifecycle and capability-scoping layer.
//!
//! The native engine's loaded-table state is a process-wide singleton, so at
//! most one live handle may exist at a time. The guard is a single "a handle
//! is live" flag: an initialization sets it before the native call so that a
//! racing second initialization observes it already set, and destruction
//! clears it strictly after the native free. Here the flag is an explicit
//! [`InitFlag`] value and every transition takes it exclusively (`&mut`),
//! which stands for the atomic swap: no two transitions can interleave on
//! the same flag. The caller that owns the process holds the one flag and
//! performs the native init and free calls exactly where a transition
//! returns success.

use vstd::prelude::*;
use vstd::string::StrSliceExecFns;

verus! {

/// A configuration failure reported by initialization or reload.
#[derive(Clone, Debug)]
pub enum Error {
    /// The path cannot be represented in the native engine's expected string
    /// encoding: it holds an embedded terminator.
    InvalidPath,
    /// Another handle is already live, so a second initialization is refused
    /// without touching the native engine.
    AlreadyInitialized,
}

/// A path is representable for the native engine when no character of it is
/// an embedded terminator.
pub open spec fn valid_path(s: Seq<char>) -> bool {
    forall|i: int| 0 <= i < s.len() ==> #[trigger] s[i] != '\0'
}

/// The process-wide "a handle is live" flag, modeled as an explicit value:
/// exclusive access to it plays the part of the atomic swap.
pub struct InitFlag {
    live: bool,
}

impl InitFlag {
    /// Whether a handle is live.
    pub closed spec fn is_initialized(self) -> bool {
        self.live
    }

    /// The flag as the process starts: no handle is live.
    pub fn new() -> (flag: InitFlag)
        ensures
            !flag.is_initialized(),
    {
        InitFlag { live: false }
    }

    /// Read the flag.
    pub fn check_initialized(&self) -> (b: bool)
        ensures
            b == self.is_initialized(),
    {
        self.live
    }
}

/// Whether an initialization attempt succeeds: only on a clear flag and a
/// representable path.
pub open spec fn new_succeeds(was_live: bool, path: Seq<char>) -> bool {
    !was_live && valid_path(path)
}

/// Whether the given path has no embedded terminator.
fn path_is_representable(path: &str) -> (b: bool)
    ensures
        b == valid_path(path@),
{
    let n: usize = path.unicode_len();
    let mut i: usize = 0;
    while i < n
        invariant
            0 <= i <= n,
            n == path@.len(),
            forall|j: int| 0 <= j < i ==> #[trigger] path@[j] != '\0',
        decreases n - i,
    {
        let c: char = path.get_char(i);
        if c == '\0' {
            assert(!valid_path(path@));
            return false;
        }
        i = i + 1;
    }
    true
}

/// The owning handle to the native tablebase engine: at most one is live in
/// the process at a time, guarded by the [`InitFlag`].
#[derive(Debug)]
pub struct Fathom {
    // A private field, so a handle can only come from an accepted
    // initialization.
    seal: core::marker::PhantomData<()>,
}

impl Fathom {
    /// Acquire the process-wide handle. The flag is set before anything
    /// else, so a concurrent second initialization observes it already set
    /// and is refused; on a rejected path the flag is cleared again, as the
    /// torn-down half-made handle leaves no live engine behind. The caller
    /// performs the native init call exactly when this returns a handle.
    pub fn new(flag: &mut InitFlag, path: &str) -> (r: Result<Fathom, Error>)
        ensures
            r is Ok <==> new_succeeds(old(flag).is_initialized(), path@),
            final(flag).is_initialized() == (old(flag).is_initialized() || valid_path(path@)),
            old(flag).is_initialized() ==> (r matches Err(e) && e is AlreadyInitialized),
            !old(flag).is_initialized() && !valid_path(path@) ==> (r matches Err(e)
                && e is InvalidPath),
    {
        let was_live: bool = flag.live;
        flag.live = true;
        if was_live {
            return Err(Error::AlreadyInitialized);
        }
        let handle = Fathom { seal: core::marker::PhantomData };
        handle.reload(flag, path)
    }

    /// Load a new file set into the live engine, in place. The flag is
    /// already set and a success leaves it so; a rejected path consumes the
    /// handle, and its teardown clears the flag. The caller performs the
    /// native init call exactly when this returns a handle.
    pub fn reload(self, flag: &mut InitFlag, path: &str) -> (r: Result<Fathom, Error>)
        ensures
            r is Ok <==> valid_path(path@),
            valid_path(path@) ==> final(flag).is_initialized() == old(flag).is_initialized(),
            !valid_path(path@) ==> (r matches Err(e) && e is InvalidPath
                && !final(flag).is_initialized()),
    {
        if !path_is_representable(path) {
            flag.live = false;
            return Err(Error::InvalidPath);
        }
        Ok(self)
    }

    /// Tear the handle down. The caller performs the native free first and
    /// then this clears the flag — unconditionally, so a later
    /// initialization is never locked out by a dead handle.
    pub fn close(self, flag: &mut InitFlag)
        ensures
            !final(flag).is_initialized(),
    {
        flag.live = false;
    }

    /// Borrow the two scoped probe capabilities. Both are tied to the
    /// exclusive borrow of this handle, so neither can outlive it nor race a
    /// reload or teardown issued through it.
    pub fn get_probers(&mut self) -> (RootProber<'_>, Prober<'_>) {
        (RootProber::new(), Prober::new())
    }
}

/// The capability to probe at the root of a search, yielding a best move and
/// distance; minted only from a live handle. The probe call itself crosses
/// the native boundary; its raw answer decodes through
/// [`crate::RootProbeResult::decode`].
#[derive(Debug)]
pub struct RootProber<'a> {
    handle: core::marker::PhantomData<&'a ()>,
}

impl<'a> RootProber<'a> {
    // Only a live handle may mint the capability, so construction stays
    // private to this module.
    fn new() -> Self {
        RootProber { handle: core::marker::PhantomData }
    }
}

/// The read-only capability to probe the outcome class of a position; minted
/// only from a live handle. It may be copied freely. The probe call itself
/// crosses the native boundary; its raw answer decodes through
/// [`crate::Wdl::decode_probe`].
#[derive(Copy, Clone, Debug)]
pub struct Prober<'a> {
    handle: core::marker::PhantomData<&'a ()>,
}

impl<'a> Prober<'a> {
    // Only a live handle may mint the capability, so construction stays
    // private to this module.
    fn new() -> Self {
        Prober { handle: core::marker::PhantomData }
    }
}

/// Lifecycle safety: once a handle is closed the flag is clear, so a fresh
/// initialization with any representable path — the empty one included —
/// succeeds; a dead handle never locks the process out.
pub proof fn lemma_initialize_after_close(path: Seq<char>)
    requires
        valid_path(path),
    ensures
        new_succeeds(false, path),
{
}

/// Double initialization without destruction fails: while a handle is live
/// the flag is set, so a second initialization is refused whatever its path,
/// and no second handle — hence no second native init — is produced.
pub proof fn lemma_double_initialize_fails(path: Seq<char>)
    ensures
        !new_succeeds(true, path),
{
}

} // verus!

