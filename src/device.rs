//! Syntactic check of a device path.

use vstd::prelude::*;
use crate::text::{has_prefix, starts_with};

verus! {

/// A path that does not have the shape of a device.
#[derive(Debug, PartialEq, Eq)]
pub struct InvalidDevice {
    pub path: String,
}

pub open spec fn is_drive_letter(c: char) -> bool {
    ('a' <= c && c <= 'z') || ('A' <= c && c <= 'Z')
}

/// The recognized shapes: a Unix device node under `/dev/`, a Windows
/// physical drive in the device namespace (`\\.\PhysicalDrive...`), or a
/// drive letter followed by a colon.
pub open spec fn is_device_path(s: Seq<char>) -> bool {
    ||| has_prefix(s, "/dev/"@)
    ||| has_prefix(s, "\\\\.\\PhysicalDrive"@)
    ||| (s.len() >= 2 && is_drive_letter(s[0]) && s[1] == ':')
}

/// Accepts `device` when it has one of the recognized device-path shapes.
/// Nothing on disk is consulted.
pub fn validate_device(device: &str) -> (r: Result<(), InvalidDevice>)
    ensures
        r is Ok <==> is_device_path(device@),
        r is Err ==> r->Err_0.path@ == device@,
{
    let ok = if starts_with(device, "/dev/") {
        true
    } else if starts_with(device, "\\\\.\\PhysicalDrive") {
        true
    } else if device.unicode_len() >= 2 {
        let c = device.get_char(0);
        (('a' <= c && c <= 'z') || ('A' <= c && c <= 'Z')) && device.get_char(1) == ':'
    } else {
        false
    };
    if ok {
        Ok(())
    } else {
        Err(InvalidDevice { path: String::from_str(device) })
    }
}

} // verus!
