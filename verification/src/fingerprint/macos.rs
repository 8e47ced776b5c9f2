//! The macOS component set: the platform UUID and serial from `ioreg`, and the
//! hardware model from `sysctl`.

use vstd::prelude::*;

use crate::fingerprint::{pushed, push, views};
use crate::text::{
    lemma_find_from_bounds, lemma_index_from_bounds,
    chars_of, find_from, find_in, index_from, index_of, strip, substring, trim, trim_matching,
    trimmed, CharSet,
};

verus! {

/// The value of the `ioreg` property `key` in its output, searching the lines
/// from the one that starts at `pos`: the first line that holds `"key"` and a
/// "= " gives the text after the "= ", trimmed and stripped of '"'; empty when
/// no line does.
pub open spec fn ioreg_from(t: Seq<char>, key: Seq<char>, pos: int) -> Seq<char>
    decreases t.len() - pos,
{
    if pos < 0 || pos > t.len() {
        Seq::empty()
    } else {
        let nl = index_from(t, '\n', pos);
        proof {
            lemma_index_from_bounds(t, '\n', pos);
        }
        let line = t.subrange(pos, nl);
        let needle = seq!['"'] + key + seq!['"'];
        let eq = find_from(line, "= "@, 0);
        if find_from(line, needle, 0) < line.len() && eq < line.len() {
            strip(trimmed(line.subrange(eq + 2, line.len() as int)), CharSet::Quote)
        } else if nl >= t.len() {
            Seq::empty()
        } else {
            ioreg_from(t, key, nl + 1)
        }
    }
}

/// The value of `key` in an `ioreg` output, empty when it was not read.
pub open spec fn ioreg_value_of(output: Option<String>, key: Seq<char>) -> Seq<char> {
    match output {
        Some(s) => ioreg_from(s@, key, 0),
        None => Seq::empty(),
    }
}

/// A `sysctl -n` output, trimmed; empty when it was not read.
pub open spec fn sysctl_of(output: Option<String>) -> Seq<char> {
    match output {
        Some(s) => trimmed(s@),
        None => Seq::empty(),
    }
}

/// The value of the property `key` in an `ioreg -rd1 -c IOPlatformExpertDevice`
/// output (`None` when the command could not run); empty when absent.
pub fn ioreg_value(output: Option<String>, key: &str) -> (value: String)
    ensures
        value@ == ioreg_value_of(output, key@),
{
    let text = match output {
        Some(t) => t,
        None => return String::new(),
    };
    let v = chars_of(text.as_str());
    let mut needle_text = "\"".to_owned();
    needle_text.append(key);
    needle_text.append("\"");
    proof {
        reveal_strlit("\"");
        reveal_strlit("= ");
    }
    let needle = chars_of(needle_text.as_str());
    let assign = chars_of("= ");
    let mut pos: usize = 0;
    while pos <= v.len()
        invariant
            pos <= v@.len() + 1,
            v@ == text@,
            needle@ == seq!['"'] + key@ + seq!['"'],
            assign@ == "= "@,
            assign@.len() == 2,
            output == Some(text),
            ioreg_from(v@, key@, 0) == ioreg_from(v@, key@, pos as int),
        decreases v@.len() + 1 - pos,
    {
        let nl = index_of(&v, '\n', pos);
        proof {
            lemma_index_from_bounds(v@, '\n', pos as int);
        }
        let line_text = substring(text.as_str(), pos, nl);
        let line = chars_of(line_text.as_str());
        let found = find_in(&line, &needle, 0);
        let eq = find_in(&line, &assign, 0);
        proof {
            lemma_find_from_bounds(line@, needle@, 0);
            lemma_find_from_bounds(line@, assign@, 0);
        }
        if found < line.len() && eq < line.len() {
            let rest = substring(line_text.as_str(), eq + 2, line.len());
            let t = trim(rest.as_str());
            return trim_matching(t.as_str(), CharSet::Quote);
        }
        if nl >= v.len() {
            return String::new();
        }
        pos = nl + 1;
    }
    String::new()
}

/// A `sysctl -n` output (`None` when the command could not run), trimmed.
pub fn sysctl(output: Option<String>) -> (value: String)
    ensures
        value@ == sysctl_of(output),
{
    match output {
        Some(t) => trim(t.as_str()),
        None => String::new(),
    }
}

/// The macOS components from the command outputs (each `None` when the
/// command could not run): `ioreg` for the platform UUID, `ioreg` for the
/// serial number, and `sysctl -n hw.model`.
pub fn collect(uuid_output: Option<String>, serial_output: Option<String>, model_output: Option<String>) -> (out: Vec<String>)
    ensures
        views(out@) == pushed(
            pushed(
                pushed(Seq::empty(), "platform-uuid"@, ioreg_value_of(uuid_output, "IOPlatformUUID"@)),
                "serial"@,
                ioreg_value_of(serial_output, "IOPlatformSerialNumber"@),
            ),
            "model"@,
            sysctl_of(model_output),
        ),
{
    let mut out: Vec<String> = Vec::new();
    assert(views(out@) =~= Seq::empty());
    push(&mut out, "platform-uuid", ioreg_value(uuid_output, "IOPlatformUUID"));
    push(&mut out, "serial", ioreg_value(serial_output, "IOPlatformSerialNumber"));
    push(&mut out, "model", sysctl(model_output));
    out
}

} // verus!
