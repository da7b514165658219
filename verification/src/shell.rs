//! Classification of the host scripting shell's version banner.
//!
//! The tool asks the shell to print its own version table, captures the
//! text, and classifies it: the first line that starts with a digit
//! decides, by that digit, which query dialect the shell accepts —
//! `5` the legacy management-database query, `7` the modern
//! query-instance form, anything else none at all.

use vstd::prelude::*;
use crate::strutil::{split_lines, split_lines_exec, str_to_chars, views_of};

verus! {

/// Which query dialect the host scripting shell accepts.
#[derive(Clone, Copy, Debug, PartialEq, Eq, Structural)]
pub enum ShellVersion {
    /// Major version 5: the legacy management-database query.
    Legacy,
    /// Major version 7: the modern query-instance interface.
    Modern,
    /// Any other version, or no version line at all.
    Unsupported,
}

/// A decimal digit character.
pub open spec fn is_digit(c: char) -> bool {
    c == '0' || c == '1' || c == '2' || c == '3' || c == '4' || c == '5' || c == '6' || c == '7'
        || c == '8' || c == '9'
}

/// The first line that starts with a digit, if any.
pub open spec fn first_numeric_line(lines: Seq<Seq<char>>) -> Option<Seq<char>>
    decreases lines.len(),
{
    if lines.len() == 0 {
        Option::None
    } else if lines[0].len() > 0 && is_digit(lines[0][0]) {
        Option::Some(lines[0])
    } else {
        first_numeric_line(lines.drop_first())
    }
}

/// The classification of captured version output: the leading digit of
/// the first digit-led line decides; no such line means unsupported.
pub open spec fn classify_spec(text: Seq<char>) -> ShellVersion {
    match first_numeric_line(split_lines(text)) {
        Option::None => ShellVersion::Unsupported,
        Option::Some(l) => if l[0] == '5' {
            ShellVersion::Legacy
        } else if l[0] == '7' {
            ShellVersion::Modern
        } else {
            ShellVersion::Unsupported
        },
    }
}

/// Decides whether `c` is a decimal digit.
pub fn is_digit_char(c: char) -> (b: bool)
    ensures
        b == is_digit(c),
{
    c == '0' || c == '1' || c == '2' || c == '3' || c == '4' || c == '5' || c == '6' || c == '7'
        || c == '8' || c == '9'
}

/// Classifies the captured text of the shell's version banner.
pub fn classify_version_output(text: &str) -> (v: ShellVersion)
    ensures
        v == classify_spec(text@),
{
    let chars = str_to_chars(text);
    let lines = split_lines_exec(&chars);
    let ghost lv = views_of(lines@);
    let mut i: usize = 0;
    assert(lv.skip(0) =~= lv);
    while i < lines.len()
        invariant
            i <= lines@.len(),
            lv == views_of(lines@),
            lv == split_lines(text@),
            first_numeric_line(lv) == first_numeric_line(lv.skip(i as int)),
        decreases lines@.len() - i,
    {
        proof {
            assert(lv.skip(i as int)[0] == lv[i as int]);
            assert(lv[i as int] == lines@[i as int]@);
        }
        let line = &lines[i];
        if line.len() > 0 && is_digit_char(line[0]) {
            let c = line[0];
            proof {
                assert(first_numeric_line(lv.skip(i as int)) == Option::Some(lv[i as int]));
            }
            if c == '5' {
                return ShellVersion::Legacy;
            } else if c == '7' {
                return ShellVersion::Modern;
            } else {
                return ShellVersion::Unsupported;
            }
        }
        proof {
            assert(lv.skip(i as int).drop_first() =~= lv.skip(i + 1));
        }
        i = i + 1;
    }
    proof {
        assert(lv.skip(lines@.len() as int) =~= Seq::<Seq<char>>::empty());
    }
    ShellVersion::Unsupported
}

/// The command that makes the shell print its own version table.
pub fn version_probe_command() -> (r: String)
    ensures
        r@ == "$PSVersionTable.PSVersion"@,
{
    "$PSVersionTable.PSVersion".to_owned()
}

/// The serial-port query to run for a detected shell version: the legacy
/// management-database query for 5, the query-instance form for 7, and
/// none at all when the version is unsupported — an unsupported shell
/// never gets a query.
pub fn query_for_version(v: ShellVersion) -> (r: Option<String>)
    ensures
        v == ShellVersion::Legacy ==> (r matches Option::Some(q) && q@
            == "Get-WmiObject -Query \"SELECT DeviceID, PNPDeviceID FROM Win32_SerialPort\" | Where-Object { $_.PNPDeviceID -match \"BTHENUM\" } | Select-Object DeviceID, PNPDeviceID"@),
        v == ShellVersion::Modern ==> (r matches Option::Some(q) && q@
            == "Get-CimInstance -ClassName Win32_SerialPort | Where-Object { $_.PNPDeviceID -match \"BTHENUM\" } | Select-Object DeviceID, PNPDeviceID"@),
        v == ShellVersion::Unsupported ==> r matches Option::None,
{
    match v {
        ShellVersion::Legacy => Option::Some(
            "Get-WmiObject -Query \"SELECT DeviceID, PNPDeviceID FROM Win32_SerialPort\" | Where-Object { $_.PNPDeviceID -match \"BTHENUM\" } | Select-Object DeviceID, PNPDeviceID".to_owned(),
        ),
        ShellVersion::Modern => Option::Some(
            "Get-CimInstance -ClassName Win32_SerialPort | Where-Object { $_.PNPDeviceID -match \"BTHENUM\" } | Select-Object DeviceID, PNPDeviceID".to_owned(),
        ),
        ShellVersion::Unsupported => Option::None,
    }
}

} // verus!
