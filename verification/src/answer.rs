use vstd::prelude::*;
use vstd::string::*;
use crate::case::{all_ascii, ascii_lowercase, lowercase, to_lowercase};
use crate::number::{decimal, parse_unsigned, parse_usize, u64_to_text};
use crate::text::{contains, contains_seq, trim, trimmed, text_eq};

verus! {

/// What the user chose on the last screen, after the disks were erased.
#[derive(Clone, Copy, Debug, PartialEq, Eq, Structural)]
pub enum AfterErase {
    /// Enter alone: shut the system down.
    Shutdown,
    /// `q`: leave the program.
    Quit,
    /// Anything else: leave the program too, saying the input was invalid.
    Invalid,
    /// The input ended before a line was entered: leave the program without
    /// shutting down.
    NoAnswer,
}

/// The choice for an answer that was already trimmed and lowercased;
/// `entered` tells whether the line read was ended by a newline (a line
/// without one is the end of the input).
pub open spec fn after_erase_for(lowered: Seq<char>, entered: bool) -> AfterErase {
    if lowered.len() == 0 {
        if entered {
            AfterErase::Shutdown
        } else {
            AfterErase::NoAnswer
        }
    } else if lowered == "q"@ {
        AfterErase::Quit
    } else {
        AfterErase::Invalid
    }
}

/// The choice for an answer that was already trimmed and lowercased.
pub fn after_erase_for_lowered(lowered: &str, entered: bool) -> (r: AfterErase)
    ensures
        r == after_erase_for(lowered@, entered),
{
    if lowered.unicode_len() == 0 {
        if entered {
            AfterErase::Shutdown
        } else {
            AfterErase::NoAnswer
        }
    } else if text_eq(lowered, "q") {
        AfterErase::Quit
    } else {
        AfterErase::Invalid
    }
}

/// The choice for the text read on the last screen: it is trimmed and
/// lowercased, then compared with "" and "q"; an empty answer shuts the
/// system down only when a line was entered, and an answer with anything
/// but whitespace in it never does.
pub fn after_erase_choice(input: &str) -> (r: AfterErase)
    ensures
        r == after_erase_for(lowercase(trimmed(input@)), contains_seq(input@, "\n"@)),
        r == AfterErase::Shutdown <==> (trimmed(input@).len() == 0 && contains_seq(input@, "\n"@)),
        all_ascii(trimmed(input@)) ==> r == after_erase_for(
            ascii_lowercase(trimmed(input@)),
            contains_seq(input@, "\n"@),
        ),
{
    let t = trim(input);
    let lowered = to_lowercase(t.as_str());
    after_erase_for_lowered(lowered.as_str(), contains(input, "\n"))
}

/// The answer to "Are you sure you want to erase the selected disks?".
#[derive(Clone, Copy, Debug, PartialEq, Eq, Structural)]
pub enum ConfirmAnswer {
    /// Enter alone: start erasing.
    Start,
    /// `q`: cancel.
    Cancel,
    /// Anything else: cancel, saying the input was invalid.
    Invalid,
    /// The input ended before a line was entered: cancel.
    NoAnswer,
}

/// The answer for the text read at the confirmation: `t` is that text
/// trimmed, `entered` whether it was ended by a newline.
pub open spec fn confirm_for(t: Seq<char>, entered: bool) -> ConfirmAnswer {
    if t.len() == 0 {
        if entered {
            ConfirmAnswer::Start
        } else {
            ConfirmAnswer::NoAnswer
        }
    } else if t == "q"@ {
        ConfirmAnswer::Cancel
    } else {
        ConfirmAnswer::Invalid
    }
}

/// The answer for the text read at the confirmation: it is trimmed, then
/// compared with "" and "q" (case matters here); an empty answer starts the
/// erase only when a line was entered.
pub fn confirm_answer(input: &str) -> (r: ConfirmAnswer)
    ensures
        r == confirm_for(trimmed(input@), contains_seq(input@, "\n"@)),
{
    let t = trim(input);
    if t.as_str().unicode_len() == 0 {
        if contains(input, "\n") {
            ConfirmAnswer::Start
        } else {
            ConfirmAnswer::NoAnswer
        }
    } else if text_eq(t.as_str(), "q") {
        ConfirmAnswer::Cancel
    } else {
        ConfirmAnswer::Invalid
    }
}

/// Whether erasing goes ahead: only on a line entered with nothing but
/// whitespace in it; never when the input ended without a line.
pub fn confirm(input: &str) -> (r: bool)
    ensures
        r == (trimmed(input@).len() == 0 && contains_seq(input@, "\n"@)),
{
    match confirm_answer(input) {
        ConfirmAnswer::Start => true,
        _ => false,
    }
}

/// The kind of a disk as the program names it.
#[derive(Clone, Copy, Debug, PartialEq, Eq, Structural)]
pub enum DeviceType {
    Hdd,
    Ssd,
    Unknown,
}

impl DeviceType {
    pub open spec fn spec_label(self) -> Seq<char> {
        match self {
            DeviceType::Hdd => "HDD"@,
            DeviceType::Ssd => "SSD"@,
            DeviceType::Unknown => "Unknown"@,
        }
    }

    /// "HDD", "SSD" or "Unknown".
    pub fn label(&self) -> (r: &'static str)
        ensures
            r@ == self.spec_label(),
    {
        match self {
            DeviceType::Hdd => "HDD",
            DeviceType::Ssd => "SSD",
            DeviceType::Unknown => "Unknown",
        }
    }
}

pub open spec fn device_type_for(t: Seq<char>) -> DeviceType {
    if t == "h"@ || t == "H"@ {
        DeviceType::Hdd
    } else if t == "s"@ || t == "S"@ {
        DeviceType::Ssd
    } else {
        DeviceType::Unknown
    }
}

/// The kind that the user gives for a USB-connected disk: `h`/`H` for HDD,
/// `s`/`S` for SSD, anything else Unknown; the line is trimmed first.
pub fn device_type_answer(input: &str) -> (r: DeviceType)
    ensures
        r == device_type_for(trimmed(input@)),
{
    let t = trim(input);
    let t = t.as_str();
    if text_eq(t, "h") || text_eq(t, "H") {
        DeviceType::Hdd
    } else if text_eq(t, "s") || text_eq(t, "S") {
        DeviceType::Ssd
    } else {
        DeviceType::Unknown
    }
}

/// The position in a list of `count` disks that a typed number picks:
/// the trimmed line read as a `usize` `k` with `1 <= k <= count` picks `k - 1`.
pub open spec fn chosen_index_for(t: Seq<char>, count: nat) -> Option<nat> {
    match parse_unsigned(t, usize::MAX as nat) {
        Ok(k) => if 1 <= k <= count {
            Some((k - 1) as nat)
        } else {
            None
        },
        Err(_) => None,
    }
}

/// The position that a typed disk number picks, if any.
pub fn chosen_index(input: &str, count: usize) -> (r: Option<usize>)
    ensures
        match r {
            Some(i) => chosen_index_for(trimmed(input@), count as nat) == Some(i as nat),
            None => chosen_index_for(trimmed(input@), count as nat) is None,
        },
{
    let t = trim(input);
    match parse_usize(t.as_str()) {
        Ok(k) => if k > 0 && k <= count {
            Some(k - 1)
        } else {
            None
        },
        Err(_) => None,
    }
}

/// The disk that a typed number picks from the list.
pub fn select_from(disks: &Vec<String>, input: &str) -> (r: Option<String>)
    ensures
        match chosen_index_for(trimmed(input@), disks@.len()) {
            Some(i) => r matches Some(d) && d@ == disks@[i as int]@,
            None => r is None,
        },
{
    match chosen_index(input, disks.len()) {
        Some(i) => Some(disks[i].clone()),
        None => None,
    }
}


/// The line of the disk menu for the disk at position `index`:
/// `<index + 1>: <disk>`.
pub fn menu_line(index: usize, disk: &str) -> (r: String)
    requires
        index < usize::MAX,
    ensures
        r@ == decimal(index as nat + 1) + ": "@ + disk@,
{
    let mut s = u64_to_text(index as u64 + 1);
    s.append(": ");
    s.append(disk);
    s
}

} // verus!
