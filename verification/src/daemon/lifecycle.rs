//! Where the service keeps its socket, process id and log.

use vstd::prelude::*;

use crate::text::{decimal, push_decimal, trim, trim_str};
use crate::tools::paths::{is_absolute, join, join_path};

verus! {

/// The runtime directory: `enki` under `XDG_RUNTIME_DIR` when that is set,
/// else `/tmp/enki-<uid>`.
pub open spec fn runtime_dir_of(xdg: Option<Seq<char>>, uid: u32) -> Seq<char> {
    match xdg {
        Some(x) => join_path(x, "enki"@),
        None => "/tmp/enki-"@ + decimal(uid as nat),
    }
}

pub fn runtime_dir(xdg: Option<&str>, uid: u32) -> (r: String)
    ensures
        r@ == runtime_dir_of(
            match xdg {
                Some(x) => Some(x@),
                None => None,
            },
            uid,
        ),
{
    match xdg {
        Some(x) => join(x, "enki"),
        None => {
            let mut s = "/tmp/enki-".to_owned();
            push_decimal(&mut s, uid as u64);
            s
        },
    }
}

/// The service's socket in the runtime directory.
pub fn socket_path(runtime_dir: &str) -> (r: String)
    ensures
        r@ == join_path(runtime_dir@, "enki.sock"@),
{
    join(runtime_dir, "enki.sock")
}

/// The file with the service's process id, in the runtime directory.
pub fn pid_path(runtime_dir: &str) -> (r: String)
    ensures
        r@ == join_path(runtime_dir@, "enki.pid"@),
{
    join(runtime_dir, "enki.pid")
}

/// `p` names the file `name` directly inside directory `dir`: the directory,
/// a separator, and a name without one.
pub open spec fn directly_in(p: Seq<char>, dir: Seq<char>, name: Seq<char>) -> bool {
    p == dir + seq!['/'] + name && !name.contains('/') && dir.len() > 0
}

/// The socket and the process id file lie directly in the runtime
/// directory, whatever the environment, under the names `enki.sock` and
/// `enki.pid`.
pub proof fn law_runtime_files(xdg: Option<Seq<char>>, uid: u32)
    ensures
        directly_in(join_path(runtime_dir_of(xdg, uid), "enki.sock"@), runtime_dir_of(xdg, uid), "enki.sock"@),
        directly_in(join_path(runtime_dir_of(xdg, uid), "enki.pid"@), runtime_dir_of(xdg, uid), "enki.pid"@),
{
    reveal_strlit("enki");
    reveal_strlit("enki.sock");
    reveal_strlit("enki.pid");
    reveal_strlit("/tmp/enki-");
    let d = runtime_dir_of(xdg, uid);
    match xdg {
        Some(x) => {
            let e = join_path(x, "enki"@);
            assert(!is_absolute("enki"@));
            assert(e.last() == 'i') by {
                if x.len() == 0 || x.last() == '/' {
                    assert(e == x + "enki"@);
                } else {
                    assert(e == x + seq!['/'] + "enki"@);
                }
            }
        },
        None => {
            let t = decimal(uid as nat);
            crate::text::lemma_decimal_ascii(uid as nat);
            assert(d =~= "/tmp/enki-"@ + t);
            assert(t.len() > 0);
            assert(d.last() == t.last());
        },
    }
    assert(!is_absolute("enki.sock"@));
    assert(!is_absolute("enki.pid"@));
    assert(!"enki.sock"@.contains('/')) by {
        assert forall|i: int| 0 <= i < "enki.sock"@.len() implies "enki.sock"@[i] != '/' by {}
    }
    assert(!"enki.pid"@.contains('/')) by {
        assert forall|i: int| 0 <= i < "enki.pid"@.len() implies "enki.pid"@[i] != '/' by {}
    }
}

/// The log file: `enki/daemon.log` under the data directory, or under `/tmp`.
pub fn log_path(data_dir: Option<&str>) -> (r: String)
    ensures
        r@ == join_path(
            join_path(
                match data_dir {
                    Some(d) => d@,
                    None => "/tmp"@,
                },
                "enki"@,
            ),
            "daemon.log"@,
        ),
{
    let base = match data_dir {
        Some(d) => d.to_owned(),
        None => "/tmp".to_owned(),
    };
    let dir = join(base.as_str(), "enki");
    join(dir.as_str(), "daemon.log")
}

/// Value of a sequence of decimal digits.
pub open spec fn digits_value(s: Seq<char>) -> nat
    decreases s.len(),
{
    if s.len() == 0 {
        0
    } else {
        digits_value(s.drop_last()) * 10 + ((s.last() as nat) - 48) as nat
    }
}

pub open spec fn all_digits(s: Seq<char>) -> bool {
    forall|i: int| 0 <= i < s.len() ==> '0' <= #[trigger] s[i] <= '9'
}

/// `u32::from_str`: an optional `+`, then at least one decimal digit, and a
/// value that fits.
pub open spec fn parsed_u32(s: Seq<char>) -> Option<u32> {
    let d = if s.len() > 0 && s[0] == '+' {
        s.drop_first()
    } else {
        s
    };
    if d.len() > 0 && all_digits(d) && digits_value(d) <= u32::MAX {
        Some(digits_value(d) as u32)
    } else {
        None
    }
}

/// Parses an unsigned 32-bit decimal number.
pub fn parse_u32(s: &str) -> (r: Option<u32>)
    ensures
        r == parsed_u32(s@),
{
    let v = crate::text::chars_of(s);
    let start: usize = if v.len() > 0 && v[0] == '+' {
        1
    } else {
        0
    };
    let ghost d = if v@.len() > 0 && v@[0] == '+' {
        v@.drop_first()
    } else {
        v@
    };
    assert(d =~= v@.subrange(start as int, v@.len() as int));
    if start >= v.len() {
        return None;
    }
    let limit: u64 = 4294967296;
    let mut acc: u64 = 0;
    let mut i = start;
    assert(v@.subrange(start as int, start as int) =~= Seq::<char>::empty());
    while i < v.len()
        invariant
            start <= i <= v@.len(),
            v@ == s@,
            d == (if v@.len() > 0 && v@[0] == '+' { v@.drop_first() } else { v@ }),
            d == v@.subrange(start as int, v@.len() as int),
            all_digits(v@.subrange(start as int, i as int)),
            acc == if digits_value(v@.subrange(start as int, i as int)) < limit {
                digits_value(v@.subrange(start as int, i as int))
            } else {
                limit as nat
            },
            limit == 4294967296,
        decreases v.len() - i,
    {
        let c = v[i];
        if c < '0' || c > '9' {
            proof {
                let j = i - start;
                assert(d[j] == c);
                assert(!('0' <= d[j] <= '9'));
                assert(!all_digits(d));
            }
            return None;
        }
        let digit = (c as u32 - 48) as u64;
        let ghost pre = v@.subrange(start as int, i as int);
        let ghost next = v@.subrange(start as int, i + 1);
        assert(next.drop_last() =~= pre);
        assert(digits_value(next) == digits_value(pre) * 10 + digit);
        acc = if acc >= limit {
            limit
        } else if acc * 10 + digit >= limit {
            limit
        } else {
            acc * 10 + digit
        };
        i = i + 1;
        assert forall|k: int| 0 <= k < next.len() implies '0' <= #[trigger] next[k] <= '9' by {
            if k < pre.len() {
                assert(next[k] == pre[k]);
            }
        }
    }
    if acc >= limit {
        None
    } else {
        Some(acc as u32)
    }
}

/// The process id written in a pid file: its trimmed text as a number.
pub fn read_pid(contents: &str) -> (r: Option<u32>)
    ensures
        r == parsed_u32(trim(contents@)),
{
    let t = trim_str(contents);
    parse_u32(t.as_str())
}

/// The text of the process id file for process `pid`.
pub fn pid_file_text(pid: u32) -> (r: String)
    ensures
        r@ == decimal(pid as nat),
{
    let mut s = String::new();
    push_decimal(&mut s, pid as u64);
    s
}

proof fn lemma_digits_value_decimal(n: nat)
    ensures
        digits_value(decimal(n)) == n,
    decreases n,
{
    let d = n % 10;
    let c = crate::text::digit_char(d);
    assert(c as nat == d + 48) by {
        if d == 0 { assert(c == '0'); } else if d == 1 { assert(c == '1'); } else if d == 2 { assert(c == '2'); }
        else if d == 3 { assert(c == '3'); } else if d == 4 { assert(c == '4'); } else if d == 5 { assert(c == '5'); }
        else if d == 6 { assert(c == '6'); } else if d == 7 { assert(c == '7'); } else if d == 8 { assert(c == '8'); }
        else { assert(c == '9'); }
    }
    if n < 10 {
        let s = decimal(n);
        assert(s.drop_last() =~= Seq::<char>::empty());
        assert(s.last() == c);
        assert(digits_value(Seq::<char>::empty()) == 0);
        assert(digits_value(s) == digits_value(s.drop_last()) * 10 + ((s.last() as nat) - 48) as nat);
    } else {
        lemma_digits_value_decimal(n / 10);
        let s = decimal(n);
        assert(s.drop_last() =~= decimal(n / 10));
        assert(s.last() == c);
        assert(digits_value(s) == digits_value(s.drop_last()) * 10 + ((s.last() as nat) - 48) as nat);
        assert(n == (n / 10) * 10 + d);
    }
}

/// The process id file as written for a process gives back that process's
/// id when read.
pub proof fn law_pid_round_trip(pid: u32)
    ensures
        parsed_u32(trim(decimal(pid as nat))) == Some(pid),
{
    let s = decimal(pid as nat);
    crate::text::lemma_decimal_ascii(pid as nat);
    lemma_digits_value_decimal(pid as nat);
    assert(!crate::text::is_whitespace(s[0]));
    assert(!crate::text::is_whitespace(s[s.len() - 1]));
    assert(crate::text::trim_start_index(s, 0) == 0);
    assert(crate::text::trim_end_index(s, 0, s.len() as int) == s.len());
    assert(trim(s) =~= s);
    assert(s[0] != '+');
}

} // verus!
