//! Which font the interface loads, as the device's settings file asks.

use vstd::prelude::*;
use vstd::slice::*;

verus! {

/// Where the device keeps its settings, below the storage root.
pub const SETTINGS_FILE: &'static str = ".userdata/shared/minuisettings.txt";

/// The directory of the system's resources, below the storage root.
pub const RESOURCE_DIR: &'static str = ".system/res";

/// `needle` occurs in `haystack` at position `at`.
pub open spec fn occurs_at(haystack: Seq<u8>, needle: Seq<u8>, at: int) -> bool {
    0 <= at && at + needle.len() <= haystack.len() && haystack.subrange(
        at,
        at + needle.len(),
    ) == needle
}

/// `needle` occurs somewhere in `haystack`.
pub open spec fn occurs_in(haystack: Seq<u8>, needle: Seq<u8>) -> bool {
    exists|at: int| occurs_at(haystack, needle, at)
}

/// The bytes of `font=1`, the setting that asks for the second font.
pub open spec fn second_font_setting() -> Seq<u8> {
    seq![0x66u8, 0x6fu8, 0x6eu8, 0x74u8, 0x3du8, 0x31u8]
}

/// The font that a settings file asks for: the second one where the file holds
/// `font=1` anywhere, the first one otherwise and where there is no file.
pub open spec fn preference_of(settings: Option<Seq<u8>>) -> nat {
    match settings {
        Some(bytes) => if occurs_in(bytes, second_font_setting()) {
            1
        } else {
            0
        },
        None => 0,
    }
}

/// The file name of each font.
pub open spec fn font_file_of(preference: nat) -> Seq<char> {
    if preference == 1 {
        "chillroundm.ttf"@
    } else {
        "BPreplayBold-unhinted.otf"@
    }
}

/// Whether `needle` starts at position `at` of `haystack`.
fn matches_at(haystack: &[u8], needle: &[u8], at: usize) -> (r: bool)
    requires
        at + needle@.len() <= haystack@.len(),
    ensures
        r == occurs_at(haystack@, needle@, at as int),
{
    let len = haystack.len();
    let mut k: usize = 0;
    while k < needle.len()
        invariant
            k <= needle@.len(),
            at + needle@.len() <= haystack@.len(),
            haystack@.len() == len,
            forall|i: int| 0 <= i < k ==> haystack@[at + i] == needle@[i],
        decreases needle@.len() - k,
    {
        if haystack[at + k] != needle[k] {
            return false;
        }
        k += 1;
    }
    assert(haystack@.subrange(at as int, at + needle@.len()) =~= needle@);
    true
}

/// Whether `needle` occurs in `haystack`.
pub fn contains_bytes(haystack: &[u8], needle: &[u8]) -> (r: bool)
    ensures
        r == occurs_in(haystack@, needle@),
{
    if needle.len() > haystack.len() {
        return false;
    }
    let last: usize = haystack.len() - needle.len();
    let mut at: usize = 0;
    loop
        invariant
            at <= last,
            last == haystack@.len() - needle@.len(),
            forall|i: int| 0 <= i < at ==> !occurs_at(haystack@, needle@, i),
        decreases last - at,
    {
        if matches_at(haystack, needle, at) {
            return true;
        }
        if at == last {
            return false;
        }
        at += 1;
    }
}

/// The font that the settings ask for: `1` where they hold `font=1`, `0`
/// otherwise. `None` stands for a settings file that could not be read.
pub fn font_preference(settings: Option<&[u8]>) -> (r: usize)
    ensures
        r == preference_of(
            match settings {
                Some(bytes) => Some(bytes@),
                None => None,
            },
        ),
        r <= 1,
{
    match settings {
        Some(bytes) => {
            let key: [u8; 6] = [0x66, 0x6f, 0x6e, 0x74, 0x3d, 0x31];
            if contains_bytes(bytes, key.as_slice()) {
                1
            } else {
                0
            }
        },
        None => 0,
    }
}

/// The file name of a font, in the system's resource directory.
pub fn font_file(preference: usize) -> (r: &'static str)
    ensures
        r@ == font_file_of(preference as nat),
{
    if preference == 1 {
        "chillroundm.ttf"
    } else {
        "BPreplayBold-unhinted.otf"
    }
}

} // verus!
