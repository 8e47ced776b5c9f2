//! The Linux component set: machine id, DMI identifiers and the CPU model.

use vstd::prelude::*;

use crate::fingerprint::{pushed, push, views};
use crate::text::{
    lemma_find_from_bounds, lemma_index_from_bounds,
    chars_of, index_from, index_of, occurs_at, occurs_in_at, substring, trim, trimmed,
};

verus! {

/// The trimmed first line of a file's text, or empty when it was not read.
pub open spec fn first_line_of(contents: Option<String>) -> Seq<char> {
    match contents {
        Some(s) => trimmed(s@.subrange(0, index_from(s@, '\n', 0))),
        None => Seq::empty(),
    }
}

/// The CPU model named in `/proc/cpuinfo` text, searching the lines from the
/// one that starts at `pos`: the first line that begins with "model name" and
/// holds a ':' after it gives the trimmed text after that ':'; empty when no
/// line does.
pub open spec fn cpu_model_from(t: Seq<char>, pos: int) -> Seq<char>
    decreases t.len() - pos,
{
    if pos < 0 || pos > t.len() {
        Seq::empty()
    } else {
        let nl = index_from(t, '\n', pos);
        proof {
            lemma_index_from_bounds(t, '\n', pos);
        }
        let line = t.subrange(pos, nl);
        let colon = index_from(line, ':', "model name"@.len() as int);
        if occurs_at(line, "model name"@, 0) && colon < line.len() {
            trimmed(line.subrange(colon + 1, line.len() as int))
        } else if nl >= t.len() {
            Seq::empty()
        } else {
            cpu_model_from(t, nl + 1)
        }
    }
}

/// The CPU model of a `/proc/cpuinfo` text, empty when it was not read.
pub open spec fn cpu_model_of(cpuinfo: Option<String>) -> Seq<char> {
    match cpuinfo {
        Some(s) => cpu_model_from(s@, 0),
        None => Seq::empty(),
    }
}

/// The trimmed first line of a file's text (`None` when it could not be read).
pub fn read_first_line(contents: Option<String>) -> (line: String)
    ensures
        line@ == first_line_of(contents),
{
    match contents {
        Some(s) => {
            let v = chars_of(s.as_str());
            let nl = index_of(&v, '\n', 0);
            proof {
                lemma_index_from_bounds(v@, '\n', 0);
            }
            let first = substring(s.as_str(), 0, nl);
            trim(first.as_str())
        },
        None => String::new(),
    }
}

/// The CPU model named in `/proc/cpuinfo` text (`None` when it could not be
/// read); empty when no line names it.
pub fn cpu_model(cpuinfo: Option<String>) -> (model: String)
    ensures
        model@ == cpu_model_of(cpuinfo),
{
    let text = match cpuinfo {
        Some(t) => t,
        None => return String::new(),
    };
    let v = chars_of(text.as_str());
    let prefix = chars_of("model name");
    let mut pos: usize = 0;
    while pos <= v.len()
        invariant
            pos <= v@.len() + 1,
            v@ == text@,
            prefix@ == "model name"@,
            cpuinfo == Some(text),
            cpu_model_from(v@, 0) == cpu_model_from(v@, pos as int),
        decreases v@.len() + 1 - pos,
    {
        let nl = index_of(&v, '\n', pos);
        proof {
            lemma_index_from_bounds(v@, '\n', pos as int);
        }
        let line_text = substring(text.as_str(), pos, nl);
        let line = chars_of(line_text.as_str());
        if occurs_in_at(&line, &prefix, 0) {
            let colon = index_of(&line, ':', prefix.len());
            proof {
                lemma_index_from_bounds(line@, ':', prefix@.len() as int);
            }
            if colon < line.len() {
                let rest = substring(line_text.as_str(), colon + 1, line.len());
                return trim(rest.as_str());
            }
        }
        if nl >= v.len() {
            return String::new();
        }
        pos = nl + 1;
    }
    String::new()
}

/// The Linux components from the texts read (each `None` when its file could
/// not be read): `/etc/machine-id`, the DMI product UUID, board serial and
/// product serial, and `/proc/cpuinfo`.
pub fn collect(
    machine_id: Option<String>,
    product_uuid: Option<String>,
    board_serial: Option<String>,
    product_serial: Option<String>,
    cpuinfo: Option<String>,
) -> (out: Vec<String>)
    ensures
        views(out@) == pushed(
            pushed(
                pushed(
                    pushed(
                        pushed(Seq::empty(), "machine-id"@, first_line_of(machine_id)),
                        "product-uuid"@,
                        first_line_of(product_uuid),
                    ),
                    "board-serial"@,
                    first_line_of(board_serial),
                ),
                "product-serial"@,
                first_line_of(product_serial),
            ),
            "cpu"@,
            cpu_model_of(cpuinfo),
        ),
{
    let mut out: Vec<String> = Vec::new();
    assert(views(out@) =~= Seq::empty());
    push(&mut out, "machine-id", read_first_line(machine_id));
    push(&mut out, "product-uuid", read_first_line(product_uuid));
    push(&mut out, "board-serial", read_first_line(board_serial));
    push(&mut out, "product-serial", read_first_line(product_serial));
    push(&mut out, "cpu", cpu_model(cpuinfo));
    out
}

} // verus!
