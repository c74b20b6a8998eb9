use vstd::prelude::*;

verus! {

/// `std::io::Error`, carried through the library's error type.
#[verifier::external_type_specification]
#[verifier::external_body]
pub struct ExIoError(std::io::Error);

/// `std::num::ParseIntError`, carried through the library's error type.
#[verifier::external_type_specification]
#[verifier::external_body]
pub struct ExParseIntError(std::num::ParseIntError);

/// `nix::errno::Errno`, the error of the `ioctl` requests.
#[verifier::external_type_specification]
#[verifier::external_body]
pub struct ExErrno(nix::errno::Errno);

/// Everything that can go wrong while configuring or creating a device.
#[derive(Debug)]
pub enum Error {
    InvalidConfig,
    NotImplemented,
    NameTooLong,
    InvalidName,
    InvalidAddress,
    UnsupportedLayer,
    InvalidDescriptor,
    InvalidQueuesNumber,
    NixError(nix::errno::Errno),
    Io(std::io::Error),
    ParseNum(std::num::ParseIntError),
}

pub type Result<T, E = Error> = std::result::Result<T, E>;

} // verus!
