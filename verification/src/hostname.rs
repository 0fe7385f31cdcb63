//! Choosing the display hostname from the candidate sources the host
//! gathered, in order of preference, with a fixed fallback.

use vstd::prelude::*;
use vstd::string::StringExecFns;
use crate::text::{trim_seq, trim_str};

verus! {

/// The hostname chosen from the three candidate sources: the host file's
/// content trimmed when non-empty, else the environment value as it stands
/// when non-empty, else the command output trimmed when non-empty, else the
/// fixed default.
pub open spec fn hostname_view(
    file: Option<Seq<char>>,
    env: Option<Seq<char>>,
    cmd: Option<Seq<char>>,
) -> Seq<char> {
    if file is Some && trim_seq(file->0).len() > 0 {
        trim_seq(file->0)
    } else if env is Some && env->0.len() > 0 {
        env->0
    } else if cmd is Some && trim_seq(cmd->0).len() > 0 {
        trim_seq(cmd->0)
    } else {
        "ollama"@
    }
}

/// Pick the display hostname, as [`hostname_view`] states it.
pub fn choose_hostname(file: Option<&str>, env: Option<&str>, cmd: Option<&str>) -> (r: String)
    ensures
        ({
            let fv = match file {
                Some(f) => Some(f@),
                None => None,
            };
            let ev = match env {
                Some(e) => Some(e@),
                None => None,
            };
            let cv = match cmd {
                Some(c) => Some(c@),
                None => None,
            };
            r@ == hostname_view(fv, ev, cv)
        }),
{
    if let Some(f) = file {
        let t = trim_str(f);
        if t.unicode_len() > 0 {
            return String::from_str(t);
        }
    }
    if let Some(e) = env {
        if e.unicode_len() > 0 {
            return String::from_str(e);
        }
    }
    if let Some(c) = cmd {
        let t = trim_str(c);
        if t.unicode_len() > 0 {
            return String::from_str(t);
        }
    }
    String::from_str("ollama")
}

} // verus!
