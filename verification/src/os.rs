//! What this library takes from `nix` on trust: the two types that it hands
//! to and gets from `nix`, the advisory call itself, and the text of an error
//! number.

use nix::errno::Errno;
use nix::fcntl::PosixFadviseAdvice;
use vstd::prelude::*;

verus! {

/// `nix::fcntl::PosixFadviseAdvice`, the advice as `nix::fcntl::posix_fadvise`
/// takes it. The declaration lets Verus read the enum's six variants, which
/// carry no data.
#[verifier::external_type_specification]
pub struct ExPosixFadviseAdvice(PosixFadviseAdvice);

/// `nix::errno::Errno`, the error that `nix` reports for a failed call.
/// Verus sees nothing of what a value of it holds.
#[verifier::external_type_specification]
#[verifier::external_body]
pub struct ExErrno(Errno);

/// The text that `nix` gives an error number: its symbolic name, a colon and
/// a description, as `Errno`'s `Display` writes them.
pub uninterp spec fn errno_text(errno: Errno) -> Seq<char>;

/// `Errno`'s `Display` through `to_string`. The text depends on the error
/// number alone: the name is that of the enum's variant, and the description
/// comes from a table in the source of `nix`.
#[verifier::external_body]
pub(crate) fn errno_string(errno: Errno) -> (text: String)
    ensures
        text@ == errno_text(errno),
{
    errno.to_string()
}

/// `nix::fcntl::posix_fadvise`: announces to the kernel how the `len` bytes
/// from `offset` on of the file open as `fd` will be accessed. `nix` returns
/// `Ok` when the system call returns zero and the error number otherwise;
/// which of them comes is the kernel's decision, so nothing is claimed of it.
#[verifier::external_body]
pub(crate) fn posix_fadvise(
    fd: i32,
    offset: i64,
    len: i64,
    advice: PosixFadviseAdvice,
) -> (outcome: Result<(), Errno>) {
    nix::fcntl::posix_fadvise(fd, offset, len, advice)
}

} // verus!
