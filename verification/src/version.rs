//! The version that the native library reports of itself.

use vstd::prelude::*;

verus! {

/// What a library version holds.
pub struct LibraryVersionView {
    /// Major version.
    pub major: u16,
    /// Minor version.
    pub minor: u16,
    /// Micro version.
    pub micro: u16,
    /// Nano version.
    pub nano: u16,
    /// Release candidate suffix; empty where the release has none.
    pub rc: Seq<char>,
}

/// A snapshot of the version of the native library.
#[derive(Debug, PartialEq, Eq)]
pub struct LibraryVersion {
    major: u16,
    minor: u16,
    micro: u16,
    nano: u16,
    rc: String,
}

impl View for LibraryVersion {
    type V = LibraryVersionView;

    closed spec fn view(&self) -> LibraryVersionView {
        LibraryVersionView {
            major: self.major,
            minor: self.minor,
            micro: self.micro,
            nano: self.nano,
            rc: self.rc@,
        }
    }
}

impl LibraryVersion {
    /// Makes a version from the numbers and the suffix that the native
    /// library reports. A release without a suffix has the empty one.
    pub fn new(major: u16, minor: u16, micro: u16, nano: u16, rc: String) -> (v: LibraryVersion)
        ensures
            v@ == (LibraryVersionView { major, minor, micro, nano, rc: rc@ }),
    {
        LibraryVersion { major, minor, micro, nano, rc }
    }

    /// Library major version.
    pub fn major(&self) -> (r: u16)
        ensures
            r == self@.major,
    {
        self.major
    }

    /// Library minor version.
    pub fn minor(&self) -> (r: u16)
        ensures
            r == self@.minor,
    {
        self.minor
    }

    /// Library micro version.
    pub fn micro(&self) -> (r: u16)
        ensures
            r == self@.micro,
    {
        self.micro
    }

    /// Library nano version.
    pub fn nano(&self) -> (r: u16)
        ensures
            r == self@.nano,
    {
        self.nano
    }

    /// Library release candidate suffix string, e.g., `"-rc4"`, or `None`
    /// where the release has none.
    pub fn rc(&self) -> (r: Option<&str>)
        ensures
            self@.rc.len() == 0 ==> r is None,
            self@.rc.len() > 0 ==> r is Some && r->0@ == self@.rc,
    {
        let s: &str = self.rc.as_str();
        if s.is_empty() {
            None
        } else {
            Some(s)
        }
    }
}

} // verus!
