//! The Windows component set: registry values and the system volume's serial.

use vstd::prelude::*;

use crate::fingerprint::{pushed, push, views};
use crate::text::{hex_digits, hex_text_width, strip_end, trim_end_matching, CharSet};

verus! {

/// A registry string as the component reads it: empty when absent, trailing
/// spaces and NULs removed.
pub open spec fn reg_string_of(raw: Option<String>) -> Seq<char> {
    match raw {
        Some(s) => strip_end(s@, CharSet::SpaceOrNul),
        None => Seq::empty(),
    }
}

/// The volume serial as the component reads it: eight upper-case hexadecimal
/// digits, or empty when the volume could not be queried or reports 0.
pub open spec fn volume_serial_of(serial: Option<u32>) -> Seq<char> {
    match serial {
        Some(s) => if s == 0 {
            Seq::empty()
        } else {
            hex_digits(s as nat, 8)
        },
        None => Seq::empty(),
    }
}

/// The registry string `raw` (`None` when the key or value could not be read),
/// without trailing spaces and NULs.
pub fn reg_string(raw: Option<String>) -> (s: String)
    ensures
        s@ == reg_string_of(raw),
{
    match raw {
        Some(r) => trim_end_matching(r.as_str(), CharSet::SpaceOrNul),
        None => String::new(),
    }
}

/// The system volume's serial number (`None` when the query failed) as eight
/// upper-case hexadecimal digits; empty for a failed query or a zero serial.
pub fn volume_serial(serial: Option<u32>) -> (s: String)
    ensures
        s@ == volume_serial_of(serial),
{
    match serial {
        Some(n) => if n == 0 {
            String::new()
        } else {
            hex_text_width(n, 8)
        },
        None => String::new(),
    }
}

/// The Windows components from what was read: the machine GUID, the volume
/// serial, the processor name, the BIOS serial and the board product.
pub fn collect(
    machine_guid: Option<String>,
    volume: Option<u32>,
    cpu_name: Option<String>,
    bios_serial: Option<String>,
    board_product: Option<String>,
) -> (out: Vec<String>)
    ensures
        views(out@) == pushed(
            pushed(
                pushed(
                    pushed(
                        pushed(Seq::empty(), "machine-guid"@, reg_string_of(machine_guid)),
                        "volume"@,
                        volume_serial_of(volume),
                    ),
                    "cpu"@,
                    reg_string_of(cpu_name),
                ),
                "bios"@,
                reg_string_of(bios_serial),
            ),
            "board"@,
            reg_string_of(board_product),
        ),
{
    let mut out: Vec<String> = Vec::new();
    assert(views(out@) =~= Seq::empty());
    push(&mut out, "machine-guid", reg_string(machine_guid));
    push(&mut out, "volume", volume_serial(volume));
    push(&mut out, "cpu", reg_string(cpu_name));
    push(&mut out, "bios", reg_string(bios_serial));
    push(&mut out, "board", reg_string(board_product));
    out
}

} // verus!
