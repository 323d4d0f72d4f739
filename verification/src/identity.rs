//! The effective-identity switch.
//!
//! Opening the session connection must happen under the target user's
//! effective identity, so the process briefly assumes it: observe the
//! current effective uid, set the target uid, run the one
//! connection-establishment operation, then restore the observed uid — on
//! both success and failure of the operation. A failure to set or to
//! restore the identity is unrecoverable for the process, which must not
//! keep running under an unintended identity; the caller is expected to
//! abort on either error.
//!
//! The effective uid is process-wide operating-system state. It is
//! tracked here through a token whose view is the uid as last observed
//! or established through that token: a read refreshes the view to the
//! value the kernel returned, and a successful write sets the kernel's
//! uid and the view to the same value. No contract equates the view of
//! one token with a reading made through another, so the view of a
//! token that sat unused while the identity changed elsewhere simply
//! goes stale until the next read through it.

use vstd::prelude::*;

verus! {

/// A token for reaching the process's effective user identity. Its view
/// is the effective uid as last observed or established through this
/// token. If the identity changes through other means while the token
/// sits unused, the view goes stale; reading through `current_euid`
/// brings it back in step with the kernel.
pub struct EuidToken {
    euid: Ghost<u32>,
}

impl View for EuidToken {
    type V = u32;

    closed spec fn view(&self) -> u32 {
        self.euid@
    }
}

/// Hand out a token for this process's effective identity. Its view
/// starts out unspecified: read the current identity through
/// `current_euid` to pin it down.
pub fn acquire_identity() -> (t: EuidToken) {
    EuidToken { euid: Ghost(arbitrary()) }
}

/// Why an identity switch failed. Either error leaves the process unfit
/// to continue: a refused switch means the connection cannot be opened
/// as the target user, and a refused restore leaves the process under
/// the target identity. Each variant carries the operating system's
/// errno value.
pub enum IdentityError {
    SwitchFailed(i32),
    RestoreFailed(i32),
}

/// Relies on nix::unistd::geteuid, which returns the process's current
/// effective uid and always succeeds. The token's view is refreshed to
/// the value read.
#[verifier::external_body]
fn read_euid(t: &mut EuidToken) -> (r: u32)
    ensures
        final(t)@ == r,
{
    let _ = t;
    nix::unistd::geteuid().as_raw()
}

/// Relies on nix::unistd::seteuid: on success the process's effective
/// uid becomes `target`, and the token's view with it; on failure (a
/// refused privilege, or an invalid uid) the uid is unchanged, the view
/// is kept, and the raw errno value is handed back.
#[verifier::external_body]
fn write_euid(t: &mut EuidToken, target: u32) -> (r: Result<(), i32>)
    ensures
        r is Ok ==> final(t)@ == target,
        r is Err ==> final(t)@ == old(t)@,
{
    match nix::unistd::seteuid(nix::unistd::Uid::from_raw(target)) {
        Ok(()) => Ok(()),
        Err(e) => Err(e as i32),
    }
}

/// The process's current effective uid. Reading refreshes the token's
/// view: afterwards the view equals the value returned.
pub fn current_euid(t: &mut EuidToken) -> (r: u32)
    ensures
        final(t)@ == r,
{
    read_euid(t)
}

/// Run one operation under the target user's effective identity.
///
/// `saved` must be the effective uid observed through the token
/// immediately before the call — read it with `current_euid`. The
/// identity is switched to `target`, `op` runs, and the identity is
/// restored to `saved` whatever `op` returned. When the switch itself
/// is refused, `op` is never run and the identity is unchanged. When
/// the restore is refused the process is left under the target
/// identity — the caller must treat that as fatal and abort rather
/// than continue under an unintended identity.
pub fn with_identity<R, F: FnOnce() -> R>(
    t: &mut EuidToken,
    saved: u32,
    target: u32,
    op: F,
) -> (r: Result<R, IdentityError>)
    requires
        old(t)@ == saved,
        call_requires(op, ()),
    ensures
        !(r matches Err(IdentityError::RestoreFailed(_))) ==> final(t)@ == old(t)@,
        r matches Err(IdentityError::RestoreFailed(_)) ==> final(t)@ == target,
        r matches Ok(v) ==> call_ensures(op, (), v),
{
    match write_euid(t, target) {
        Err(e) => Err(IdentityError::SwitchFailed(e)),
        Ok(()) => {
            let result = op();
            match write_euid(t, saved) {
                Err(e) => Err(IdentityError::RestoreFailed(e)),
                Ok(()) => Ok(result),
            }
        },
    }
}

} // verus!
