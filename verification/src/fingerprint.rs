//! Hardware fingerprinting, the shared per-OS component set every RudeAuth SDK
//! implements so a device is recognised identically no matter which SDK
//! authenticated it. Each component is tagged `tag:value` so two sources cannot
//! collide on an identical raw value. Components that cannot be read are
//! skipped, never substituted, because a placeholder shared across machines
//! would make unrelated devices look identical. These values are
//! client-supplied and thus forgeable: device binding deters casual sharing, it
//! is not a hard control.
//!
//! The reads themselves (files, the registry, child processes) are the
//! application layer's; each platform module here turns what was read into the
//! component list.

pub mod linux;
pub mod macos;
pub mod other;
pub mod windows;

use vstd::prelude::*;

use crate::text::{trim, trimmed};

verus! {

/// The characters of each string.
pub open spec fn views(v: Seq<String>) -> Seq<Seq<char>> {
    v.map_values(|s: String| s@)
}

/// One component: the tag, a ':' and the value.
pub open spec fn component(tag: Seq<char>, value: Seq<char>) -> Seq<char> {
    tag + seq![':'] + value
}

/// `out` after offering it `value` under `tag`: the trimmed value is added as
/// a component, or skipped when nothing is left of it.
pub open spec fn pushed(out: Seq<Seq<char>>, tag: Seq<char>, value: Seq<char>) -> Seq<Seq<char>> {
    let v = trimmed(value);
    if v.len() == 0 {
        out
    } else {
        out.push(component(tag, v))
    }
}

/// The label `label` chooses: the environment's name when it is non-empty,
/// else the trimmed host-name file, else the trimmed output of the host-name
/// command, else "unknown".
pub open spec fn label_of(
    env_name: Option<Seq<char>>,
    hostname_file: Option<Seq<char>>,
    hostname_command: Option<Seq<char>>,
) -> Seq<char> {
    if env_name matches Some(n) && n.len() > 0 {
        env_name->0
    } else if hostname_file matches Some(f) && trimmed(f).len() > 0 {
        trimmed(hostname_file->0)
    } else if hostname_command matches Some(c) && trimmed(c).len() > 0 {
        trimmed(hostname_command->0)
    } else {
        "unknown"@
    }
}

/// The characters of an optional string.
pub open spec fn opt_chars(o: Option<String>) -> Option<Seq<char>> {
    match o {
        Some(s) => Some(s@),
        None => None,
    }
}

/// Offer `value` under `tag`: its trimmed text is appended as `tag:value`, and
/// nothing is appended when the trimmed text is empty.
pub fn push(out: &mut Vec<String>, tag: &str, value: String)
    ensures
        views(final(out)@) == pushed(views(old(out)@), tag@, value@),
{
    let v = trim(value.as_str());
    if v.unicode_len() != 0 {
        let mut c = tag.to_owned();
        c.append(":");
        c.append(v.as_str());
        proof {
            reveal_strlit(":");
        }
        assert(c@ =~= component(tag@, v@));
        let ghost before = out@;
        out.push(c);
        assert(views(out@) =~= views(before).push(c@));
    }
}

/// A human-readable machine name for the vendor's device list; not part of the
/// identity, only a label. The candidates, in order of preference: the
/// environment's host name (used as is when non-empty), the host-name file's
/// text and the host-name command's output (each trimmed); "unknown" when none
/// gives a name. On Windows only the first is used.
pub fn label(env_name: Option<String>, hostname_file: Option<String>, hostname_command: Option<String>) -> (l: String)
    ensures
        l@ == label_of(opt_chars(env_name), opt_chars(hostname_file), opt_chars(hostname_command)),
{
    if let Some(n) = env_name {
        if n.unicode_len() != 0 {
            return n;
        }
    }
    if let Some(f) = hostname_file {
        let t = trim(f.as_str());
        if t.unicode_len() != 0 {
            return t;
        }
    }
    if let Some(c) = hostname_command {
        let t = trim(c.as_str());
        if t.unicode_len() != 0 {
            return t;
        }
    }
    "unknown".to_owned()
}

} // verus!
