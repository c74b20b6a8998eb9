//! Helpers shared by the POSIX system call wrappers.
use vstd::prelude::*;
use vstd::string::StringSliceAdditionalSpecFns;

use crate::error::{Error, Result};

verus! {

/// Whether a byte sequence holds a NUL byte.
pub open spec fn has_nul(b: Seq<u8>) -> bool {
    exists|i: int| 0 <= i < b.len() && b[i] == 0
}

/// The bytes of a name as C characters.
pub open spec fn as_c_chars(b: Seq<u8>) -> Seq<libc::c_char> {
    Seq::new(b.len(), |i: int| #[verifier::truncate] (b[i] as libc::c_char))
}

/// What writing an interface name into a buffer of `capacity` characters gives:
/// the name must leave room for the terminator and hold no NUL byte.
pub open spec fn if_name_check(b: Seq<u8>, capacity: nat) -> Result<()> {
    if b.len() >= capacity {
        Err(Error::NameTooLong)
    } else if has_nul(b) {
        Err(Error::InvalidName)
    } else {
        Ok(())
    }
}

/// Copies an interface name into the start of `dst`, a C character buffer
/// whose remaining characters serve as the terminator. On an error `dst` is
/// left as it was.
pub fn write_if_name(name: &str, dst: &mut [libc::c_char]) -> (r: Result<()>)
    ensures
        match if_name_check(name.spec_bytes(), old(dst)@.len()) {
            Ok(_) => r is Ok && final(dst)@ == as_c_chars(name.spec_bytes()) + old(dst)@.skip(
                name.spec_bytes().len() as int,
            ),
            Err(Error::NameTooLong) => r matches Err(Error::NameTooLong) && final(dst)@ == old(
                dst,
            )@,
            Err(_) => r matches Err(Error::InvalidName) && final(dst)@ == old(dst)@,
        },
{
    let bytes = name.as_bytes();
    let n = bytes.len();
    if n >= dst.len() {
        return Err(Error::NameTooLong);
    }
    let mut i: usize = 0;
    while i < n
        invariant
            i <= n,
            n == bytes@.len(),
            n < dst@.len(),
            bytes@ == name.spec_bytes(),
            dst@ == old(dst)@,
            forall|k: int| 0 <= k < i ==> bytes@[k] != 0,
        decreases n - i,
    {
        if bytes[i] == 0 {
            assert(bytes@[i as int] == 0);
            return Err(Error::InvalidName);
        }
        i += 1;
    }
    let ghost start = dst@;
    let mut j: usize = 0;
    while j < n
        invariant
            j <= n,
            n == bytes@.len(),
            n < dst@.len(),
            dst@.len() == start.len(),
            forall|k: int| 0 <= k < j ==> dst@[k] == #[verifier::truncate] (bytes@[k] as libc::c_char),
            forall|k: int| j <= k < dst@.len() ==> dst@[k] == start[k],
        decreases n - j,
    {
        dst[j] = #[verifier::truncate] (bytes[j] as libc::c_char);
        j += 1;
    }
    assert(dst@ =~= as_c_chars(bytes@) + start.skip(n as int));
    Ok(())
}

/// `flags` with `bit` set when `on`, cleared otherwise.
pub fn with_flag(flags: i32, bit: i32, on: bool) -> (r: i32)
    ensures
        r == if on {
            flags | bit
        } else {
            flags & !bit
        },
        r & bit == if on {
            bit
        } else {
            0
        },
        r & !bit == flags & !bit,
{
    assert((flags | bit) & bit == bit) by (bit_vector);
    assert((flags | bit) & !bit == flags & !bit) by (bit_vector);
    assert((flags & !bit) & bit == 0) by (bit_vector);
    assert((flags & !bit) & !bit == flags & !bit) by (bit_vector);
    if on {
        flags | bit
    } else {
        flags & !bit
    }
}

/// `std::io::Error::last_os_error`: the error the last system call left in
/// `errno`. What it holds depends on the thread's state, so nothing is stated.
#[verifier::external_body]
fn last_os_error() -> std::io::Error {
    std::io::Error::last_os_error()
}

/// A system call's integer result: negative results become the error left in
/// `errno`, others are passed on.
pub fn cvt(result: i32) -> (r: std::io::Result<i32>)
    ensures
        r is Ok <==> result >= 0,
        r matches Ok(v) ==> v == result,
{
    if result < 0 {
        Err(last_os_error())
    } else {
        Ok(result)
    }
}

/// A system call's size result: negative results become the error left in
/// `errno`, others are passed on.
pub fn cvt_ssize(result: isize) -> (r: std::io::Result<isize>)
    ensures
        r is Ok <==> result >= 0,
        r matches Ok(v) ==> v == result,
{
    if result < 0 {
        Err(last_os_error())
    } else {
        Ok(result)
    }
}

/// The number of buffers one vectored call hands the kernel: all of them, up
/// to what a C `int` holds.
pub fn iov_count(buffers: usize) -> (r: i32)
    ensures
        r == if buffers <= i32::MAX {
            buffers as int
        } else {
            i32::MAX as int
        },
{
    if buffers <= i32::MAX as usize {
        buffers as i32
    } else {
        i32::MAX
    }
}

} // verus!
