//! Code objects, signing requirements and the calls that are made on them.
//!
//! The operating system owns every object; this module holds handles. Each
//! operation comes in two steps. The first builds the `Call` that says which
//! service is asked for and with which arguments. The embedding program
//! carries the call out and brings back a `Reply`; the second step turns
//! that reply into the operation's result.

use vstd::prelude::*;
use core_foundation::base::OSStatus;
use crate::error::{cvt, Error, ERR_SEC_SUCCESS};
use crate::flags::{Flags, KNOWN_BITS};
use crate::guest::GuestAttributes;

verus! {

/// A compiled signing requirement, by the number under which the embedding
/// program holds it.
#[derive(Clone, Copy, Debug, PartialEq, Eq, Structural, Hash)]
pub struct SecRequirement {
    id: u64,
}

/// A code object representing signed code running on the system.
#[derive(Clone, Copy, Debug, PartialEq, Eq, Structural, Hash)]
pub struct SecCode {
    id: u64,
}

/// A static code object representing signed code on disk.
#[derive(Clone, Copy, Debug, PartialEq, Eq, Structural, Hash)]
pub struct SecStaticCode {
    id: u64,
}

/// One request to the operating system's code signing service.
#[derive(Debug)]
pub enum Call<'a> {
    /// Compile the text of a requirement.
    RequirementCreateWithString { text: &'a str, flags: u32 },
    /// Give the code object of the calling process.
    CodeCopySelf { flags: u32 },
    /// Check running code against a requirement.
    CodeCheckValidity { code: u64, flags: u32, requirement: u64 },
    /// Ask a host, or the root of trust where there is none, for the guest
    /// that the attributes identify.
    CodeCopyGuestWithAttributes { host: Option<u64>, attributes: &'a GuestAttributes, flags: u32 },
    /// Give the place on disk of a code object, running or static.
    CodeCopyPath { code: u64, flags: u32 },
    /// Make the static code object of the file at a path.
    StaticCodeCreateWithPath { path: &'a str, flags: u32 },
    /// Check code on disk against a requirement.
    StaticCodeCheckValidity { code: u64, flags: u32, requirement: u64 },
}

/// What comes back beside the status.
#[derive(Debug, PartialEq, Eq)]
pub enum Payload {
    /// Nothing: the call made no object, or it failed.
    Nothing,
    /// The number of the object that the call made.
    Object(u64),
    /// A place on disk.
    Path(String),
}

/// The operating system's answer to a call.
#[derive(Debug, PartialEq, Eq)]
pub struct Reply {
    /// Zero for success; any other value names the failure.
    pub status: OSStatus,
    pub payload: Payload,
}

/// The result of a call that succeeded.
#[derive(Debug, PartialEq, Eq)]
pub enum Answer {
    /// The check passed.
    Valid,
    Requirement(SecRequirement),
    Code(SecCode),
    StaticCode(SecStaticCode),
    Path(String),
}

impl Reply {
    /// A successful reply brings an object.
    pub open spec fn brings_object(self) -> bool {
        self.status == ERR_SEC_SUCCESS ==> self.payload is Object
    }

    /// A successful reply brings a path.
    pub open spec fn brings_path(self) -> bool {
        self.status == ERR_SEC_SUCCESS ==> self.payload is Path
    }

    /// The object of a reply to a call that makes one: the object's number
    /// where the call succeeded, the error with the call's status where it
    /// did not.
    pub fn object(&self) -> (r: Result<u64, Error>)
        requires
            self.brings_object(),
        ensures
            r.is_ok() <==> self.status == ERR_SEC_SUCCESS,
            r.is_ok() ==> self.payload == Payload::Object(r.unwrap()),
            r.is_err() ==> r.unwrap_err()@ == self.status,
    {
        match cvt(self.status) {
            Err(e) => Err(e),
            Ok(_) => match &self.payload {
                Payload::Object(id) => Ok(*id),
                _ => unreached(),
            },
        }
    }

    /// The place on disk of a reply to a call that asks for one, or the
    /// error with the call's status where the call failed.
    pub fn path(self) -> (r: Result<String, Error>)
        requires
            self.brings_path(),
        ensures
            r.is_ok() <==> self.status == ERR_SEC_SUCCESS,
            r.is_ok() ==> self.payload == Payload::Path(r.unwrap()),
            r.is_err() ==> r.unwrap_err()@ == self.status,
    {
        match cvt(self.status) {
            Err(e) => Err(e),
            Ok(_) => match self.payload {
                Payload::Path(path) => Ok(path),
                _ => unreached(),
            },
        }
    }
}

impl SecRequirement {
    /// The number under which the embedding program holds the object.
    pub closed spec fn view(self) -> u64 {
        self.id
    }

    /// The number under which the embedding program holds the object.
    pub fn id(&self) -> (r: u64)
        ensures
            r == self@,
    {
        self.id
    }

    /// The call that compiles the text of a requirement. It is made without
    /// options.
    pub fn from_str(s: &str) -> (call: Call<'_>)
        ensures
            call == (Call::RequirementCreateWithString { text: s, flags: 0 }),
            call.flags() & !KNOWN_BITS == 0,
    {
        Call::RequirementCreateWithString { text: s, flags: Flags::none().bits() }
    }

    /// The requirement that the reply to `from_str` brings, or the error
    /// with the status that the operating system gave.
    pub fn created(reply: &Reply) -> (r: Result<SecRequirement, Error>)
        requires
            reply.brings_object(),
        ensures
            r.is_ok() <==> reply.status == ERR_SEC_SUCCESS,
            r.is_ok() ==> reply.payload == Payload::Object(r.unwrap()@),
            r.is_err() ==> r.unwrap_err()@ == reply.status,
    {
        match reply.object() {
            Ok(id) => Ok(SecRequirement { id }),
            Err(e) => Err(e),
        }
    }
}

impl SecCode {
    /// The number under which the embedding program holds the object.
    pub closed spec fn view(self) -> u64 {
        self.id
    }

    /// The number under which the embedding program holds the object.
    pub fn id(&self) -> (r: u64)
        ensures
            r == self@,
    {
        self.id
    }

    /// Retrieves the code object for the code making the call.
    pub fn for_self(flags: Flags) -> (call: Call<'static>)
        ensures
            call == (Call::CodeCopySelf { flags: flags@ }),
            call.flags() & !KNOWN_BITS == 0,
    {
        Call::CodeCopySelf { flags: flags.bits() }
    }

    /// Performs dynamic validation of signed code.
    pub fn check_validity(
        &self,
        flags: Flags,
        requirement: &SecRequirement,
    ) -> (call: Call<'static>)
        ensures
            call == (Call::CodeCheckValidity {
                code: self@,
                flags: flags@,
                requirement: requirement@,
            }),
            call.flags() & !KNOWN_BITS == 0,
    {
        Call::CodeCheckValidity { code: self.id, flags: flags.bits(), requirement: requirement.id }
    }

    /// Asks a code host to identify one of its guests given
    /// the type and value of specific attributes of the guest code.
    ///
    /// If `host` is `None` then the code signing root of trust (currently, the
    /// system kernel) should be used as the code host.
    pub fn copy_guest_with_attribues<'a>(
        host: Option<&SecCode>,
        attrs: &'a GuestAttributes,
        flags: Flags,
    ) -> (call: Call<'a>)
        ensures
            call == (Call::CodeCopyGuestWithAttributes {
                host: match host {
                    Some(h) => Some(h@),
                    None => None,
                },
                attributes: attrs,
                flags: flags@,
            }),
            call.flags() & !KNOWN_BITS == 0,
    {
        let host = match host {
            Some(h) => Some(h.id),
            None => None,
        };
        Call::CodeCopyGuestWithAttributes { host, attributes: attrs, flags: flags.bits() }
    }

    /// Retrieves the location on disk of signed code, given a code or static
    /// code object.
    pub fn path(&self, flags: Flags) -> (call: Call<'static>)
        ensures
            call == (Call::CodeCopyPath { code: self@, flags: flags@ }),
            call.flags() & !KNOWN_BITS == 0,
    {
        Call::CodeCopyPath { code: self.id, flags: flags.bits() }
    }

    /// The code object that the reply to `for_self` or to
    /// `copy_guest_with_attribues` brings, or the error with the status that
    /// the operating system gave.
    pub fn created(reply: &Reply) -> (r: Result<SecCode, Error>)
        requires
            reply.brings_object(),
        ensures
            r.is_ok() <==> reply.status == ERR_SEC_SUCCESS,
            r.is_ok() ==> reply.payload == Payload::Object(r.unwrap()@),
            r.is_err() ==> r.unwrap_err()@ == reply.status,
    {
        match reply.object() {
            Ok(id) => Ok(SecCode { id }),
            Err(e) => Err(e),
        }
    }
}

impl SecStaticCode {
    /// The number under which the embedding program holds the object.
    pub closed spec fn view(self) -> u64 {
        self.id
    }

    /// The number under which the embedding program holds the object.
    pub fn id(&self) -> (r: u64)
        ensures
            r == self@,
    {
        self.id
    }

    /// Creates a static code object representing the code at a specified file
    /// system path.
    pub fn from_path(path: &str, flags: Flags) -> (call: Call<'_>)
        ensures
            call == (Call::StaticCodeCreateWithPath { path: path, flags: flags@ }),
            call.flags() & !KNOWN_BITS == 0,
    {
        Call::StaticCodeCreateWithPath { path, flags: flags.bits() }
    }

    /// Retrieves the location on disk of signed code, given a code or static
    /// code object.
    pub fn path(&self, flags: Flags) -> (call: Call<'static>)
        ensures
            call == (Call::CodeCopyPath { code: self@, flags: flags@ }),
            call.flags() & !KNOWN_BITS == 0,
    {
        Call::CodeCopyPath { code: self.id, flags: flags.bits() }
    }

    /// Performs dynamic validation of signed code.
    pub fn check_validity(
        &self,
        flags: Flags,
        requirement: &SecRequirement,
    ) -> (call: Call<'static>)
        ensures
            call == (Call::StaticCodeCheckValidity {
                code: self@,
                flags: flags@,
                requirement: requirement@,
            }),
            call.flags() & !KNOWN_BITS == 0,
    {
        Call::StaticCodeCheckValidity {
            code: self.id,
            flags: flags.bits(),
            requirement: requirement.id,
        }
    }

    /// The static code object that the reply to `from_path` brings, or the
    /// error with the status that the operating system gave.
    pub fn created(reply: &Reply) -> (r: Result<SecStaticCode, Error>)
        requires
            reply.brings_object(),
        ensures
            r.is_ok() <==> reply.status == ERR_SEC_SUCCESS,
            r.is_ok() ==> reply.payload == Payload::Object(r.unwrap()@),
            r.is_err() ==> r.unwrap_err()@ == reply.status,
    {
        match reply.object() {
            Ok(id) => Ok(SecStaticCode { id }),
            Err(e) => Err(e),
        }
    }
}

impl<'a> Call<'a> {
    /// The option bits that the call carries.
    pub open spec fn flags(self) -> u32 {
        match self {
            Call::RequirementCreateWithString { flags, .. } => flags,
            Call::CodeCopySelf { flags } => flags,
            Call::CodeCheckValidity { flags, .. } => flags,
            Call::CodeCopyGuestWithAttributes { flags, .. } => flags,
            Call::CodeCopyPath { flags, .. } => flags,
            Call::StaticCodeCreateWithPath { flags, .. } => flags,
            Call::StaticCodeCheckValidity { flags, .. } => flags,
        }
    }

    /// Whether `reply` can answer this call: where it reports success, it
    /// brings what the call asks for. A validity check asks for nothing.
    pub open spec fn answered_by(self, reply: Reply) -> bool {
        match self {
            Call::RequirementCreateWithString { .. } => reply.brings_object(),
            Call::CodeCopySelf { .. } => reply.brings_object(),
            Call::CodeCheckValidity { .. } => true,
            Call::CodeCopyGuestWithAttributes { .. } => reply.brings_object(),
            Call::CodeCopyPath { .. } => reply.brings_path(),
            Call::StaticCodeCreateWithPath { .. } => reply.brings_object(),
            Call::StaticCodeCheckValidity { .. } => true,
        }
    }

    /// Tests whether `reply` can answer this call, for a program that has
    /// the reply from outside and must not hand on one that cannot.
    pub fn accepts(&self, reply: &Reply) -> (r: bool)
        ensures
            r == self.answered_by(*reply),
    {
        if reply.status != ERR_SEC_SUCCESS {
            return true;
        }
        match self {
            Call::CodeCheckValidity { .. } | Call::StaticCodeCheckValidity { .. } => true,
            Call::CodeCopyPath { .. } => match &reply.payload {
                Payload::Path(_) => true,
                _ => false,
            },
            _ => match &reply.payload {
                Payload::Object(_) => true,
                _ => false,
            },
        }
    }

    /// Whether `answer` is what a successful call with this payload has
    /// produced: the handle with the number that came back, of the type
    /// that the call makes; the path that came back; or, for a check, that
    /// it passed.
    pub open spec fn produces(self, payload: Payload, answer: Answer) -> bool {
        match self {
            Call::RequirementCreateWithString { .. } => answer matches Answer::Requirement(made)
                && payload == Payload::Object(made@),
            Call::CodeCopySelf { .. } | Call::CodeCopyGuestWithAttributes { .. } => answer matches Answer::Code(made)
                && payload == Payload::Object(made@),
            Call::StaticCodeCreateWithPath { .. } => answer matches Answer::StaticCode(made)
                && payload == Payload::Object(made@),
            Call::CodeCopyPath { .. } => answer matches Answer::Path(path) && payload
                == Payload::Path(path),
            Call::CodeCheckValidity { .. } | Call::StaticCodeCheckValidity { .. } => answer
                == Answer::Valid,
        }
    }

    /// Turns the reply to this call into the call's result. A call either
    /// succeeds with all of its result or fails with the status that the
    /// operating system gave, unchanged.
    pub fn complete(&self, reply: Reply) -> (r: Result<Answer, Error>)
        requires
            self.answered_by(reply),
        ensures
            r.is_ok() <==> reply.status == ERR_SEC_SUCCESS,
            r.is_ok() ==> self.produces(reply.payload, r.unwrap()),
            r.is_err() ==> r.unwrap_err()@ == reply.status,
    {
        match self {
            Call::RequirementCreateWithString { .. } => match SecRequirement::created(&reply) {
                Ok(requirement) => Ok(Answer::Requirement(requirement)),
                Err(e) => Err(e),
            },
            Call::CodeCopySelf { .. } | Call::CodeCopyGuestWithAttributes { .. } => {
                match SecCode::created(&reply) {
                    Ok(code) => Ok(Answer::Code(code)),
                    Err(e) => Err(e),
                }
            },
            Call::StaticCodeCreateWithPath { .. } => match SecStaticCode::created(&reply) {
                Ok(code) => Ok(Answer::StaticCode(code)),
                Err(e) => Err(e),
            },
            Call::CodeCopyPath { .. } => match reply.path() {
                Ok(path) => Ok(Answer::Path(path)),
                Err(e) => Err(e),
            },
            Call::CodeCheckValidity { .. } | Call::StaticCodeCheckValidity { .. } => {
                match cvt(reply.status) {
                    Ok(_) => Ok(Answer::Valid),
                    Err(e) => Err(e),
                }
            },
        }
    }
}

} // verus!
