//! Decisions of the command runner that launches the precompiled worker and
//! monitor processes.
//!
//! The runner reads a key-value configuration file written by an earlier
//! configuration step, derives the argument lists of the two binaries from
//! it, and decides whether the worker runs in the foreground or with a
//! monitor attached.  Everything that computes stands here; reading the
//! file and spawning the processes is left to the surrounding program.
//!
//! The configuration format: the file is trimmed of surrounding
//! whitespace, split into lines, the first two lines are headers, and
//! every following line is `key=value` (split at the first `=`).  A line
//! without `=` makes the whole file unparseable.

use vstd::prelude::*;

use crate::codec::vecs_view;

verus! {

/// The flags of the `run` command.
pub struct Run {
    /// Tear the configuration down before setting it up again.
    pub clean: bool,
    /// Run the configuration step before launching.
    pub configure: bool,
    /// Launch the worker under a debugger.
    pub debug: bool,
    /// Attach the monitor binary to the running worker.
    pub monitor: bool,
}

impl Run {
    /// Whether the command needs root: every flag asks for work (tearing
    /// down or setting up privileged configuration, tracing, monitoring)
    /// that only root may do.
    pub fn needs_root(&self) -> (r: bool)
        ensures
            r == (self.clean || self.configure || self.debug || self.monitor),
    {
        self.clean || self.configure || self.debug || self.monitor
    }
}

/// How the worker process is run.
#[derive(Clone, Copy, Debug, PartialEq, Eq, Structural)]
pub enum RunMode {
    /// Run the worker in the foreground and wait for it (also under a
    /// debugger: the debugger owns the terminal).
    Foreground,
    /// Run the worker with its output silenced and a monitor attached;
    /// wait for the monitor, then for the worker.
    WithMonitor,
}

/// The worker runs in the foreground when debugging or when no monitor was
/// asked for; only a plain `--monitor` run silences it and attaches the
/// monitor.
pub fn run_mode(debug: bool, monitor: bool) -> (r: RunMode)
    ensures
        r == (if debug || !monitor {
            RunMode::Foreground
        } else {
            RunMode::WithMonitor
        }),
{
    if debug || !monitor {
        RunMode::Foreground
    } else {
        RunMode::WithMonitor
    }
}

/// A byte the trimming step discards: space, tab, line feed or carriage
/// return.
pub open spec fn is_ws(b: u8) -> bool {
    b == 32 || b == 9 || b == 10 || b == 13
}

/// The text with leading and trailing whitespace removed.
pub open spec fn spec_trim(s: Seq<u8>) -> Seq<u8>
    decreases s.len(),
{
    if s.len() == 0 {
        s
    } else if is_ws(s[0]) {
        spec_trim(s.drop_first())
    } else if is_ws(s.last()) {
        spec_trim(s.drop_last())
    } else {
        s
    }
}

/// The first position at or after `from` holding `b`, or the length when
/// there is none.
pub open spec fn spec_find(s: Seq<u8>, b: u8, from: int) -> int
    decreases s.len() - from,
{
    if from < 0 || from >= s.len() {
        s.len() as int
    } else if s[from] == b {
        from
    } else {
        spec_find(s, b, from + 1)
    }
}

/// A line with a trailing carriage return removed.
pub open spec fn strip_cr(l: Seq<u8>) -> Seq<u8> {
    if l.len() > 0 && l.last() == 13 {
        l.drop_last()
    } else {
        l
    }
}

/// Where `spec_find` answers, it answers within the text: at or after
/// `from`, and never beyond the length.
pub proof fn lemma_spec_find_in_range(s: Seq<u8>, b: u8, from: int)
    ensures
        spec_find(s, b, from) <= s.len(),
        0 <= from <= s.len() ==> from <= spec_find(s, b, from),
    decreases s.len() - from,
{
    if 0 <= from < s.len() && s[from] != b {
        lemma_spec_find_in_range(s, b, from + 1);
    }
}

/// The lines of `s` from position `pos` on, split at line feeds, each
/// without its trailing carriage return.
pub open spec fn spec_lines_from(s: Seq<u8>, pos: int) -> Seq<Seq<u8>>
    decreases s.len() - pos,
    via spec_lines_from_decreases
{
    if pos < 0 || pos >= s.len() {
        Seq::empty()
    } else {
        let i = spec_find(s, 10, pos);
        if i >= s.len() {
            seq![strip_cr(s.subrange(pos, s.len() as int))]
        } else {
            seq![strip_cr(s.subrange(pos, i))] + spec_lines_from(s, i + 1)
        }
    }
}

#[via_fn]
proof fn spec_lines_from_decreases(s: Seq<u8>, pos: int) {
    lemma_spec_find_in_range(s, 10, pos);
}

/// One `key=value` line, split at the first `=`; `None` when there is no
/// `=` at all.
pub open spec fn spec_parse_line(line: Seq<u8>) -> Option<(Seq<u8>, Seq<u8>)> {
    let i = spec_find(line, 61, 0);
    if i >= line.len() {
        None
    } else {
        Some((line.subrange(0, i), line.subrange(i + 1, line.len() as int)))
    }
}

/// The key-value pairs of the lines from index `k` on; `None` as soon as
/// one line has no `=`.
pub open spec fn spec_parse_vars_from(ls: Seq<Seq<u8>>, k: int) -> Option<Seq<(Seq<u8>, Seq<u8>)>>
    decreases ls.len() - k,
{
    if k < 0 || k >= ls.len() {
        Some(Seq::empty())
    } else {
        match spec_parse_line(ls[k]) {
            None => None,
            Some(kv) => match spec_parse_vars_from(ls, k + 1) {
                None => None,
                Some(rest) => Some(seq![kv] + rest),
            },
        }
    }
}

/// The key-value pairs of a configuration file: trim, split into lines,
/// skip the two header lines, parse each remaining line.
pub open spec fn spec_parse_vars(text: Seq<u8>) -> Option<Seq<(Seq<u8>, Seq<u8>)>> {
    spec_parse_vars_from(spec_lines_from(spec_trim(text), 0), 2)
}

/// The pairs of byte sequences a vector of owned pairs stands for.
pub open spec fn kvs_view(v: Seq<(Vec<u8>, Vec<u8>)>) -> Seq<(Seq<u8>, Seq<u8>)> {
    Seq::new(v.len(), |i: int| (v[i].0@, v[i].1@))
}

/// The value of the first pair whose key is `key`.
pub open spec fn spec_lookup(vars: Seq<(Seq<u8>, Seq<u8>)>, key: Seq<u8>) -> Option<Seq<u8>>
    decreases vars.len(),
{
    if vars.len() == 0 {
        None
    } else if vars[0].0 == key {
        Some(vars[0].1)
    } else {
        spec_lookup(vars.drop_first(), key)
    }
}

/// The first position at or after `from` holding `b`, or the length.
fn find_byte(s: &Vec<u8>, b: u8, from: usize) -> (r: usize)
    ensures
        r == spec_find(s@, b, from as int),
        r <= s@.len(),
        from as int <= s@.len() ==> from <= r,
{
    let n = s.len();
    if from >= n {
        return n;
    }
    let mut i: usize = from;
    while i < n
        invariant
            from <= i <= n,
            n == s@.len(),
            spec_find(s@, b, from as int) == spec_find(s@, b, i as int),
        decreases n - i,
    {
        if s[i] == b {
            return i;
        }
        i = i + 1;
    }
    n
}

/// The bytes of `s` between `a` and `b`, as a fresh buffer.
fn copy_range(s: &Vec<u8>, a: usize, b: usize) -> (r: Vec<u8>)
    requires
        a <= b <= s@.len(),
    ensures
        r@ == s@.subrange(a as int, b as int),
{
    let mut r: Vec<u8> = Vec::new();
    let mut i: usize = a;
    while i < b
        invariant
            a <= i <= b,
            b <= s@.len(),
            r@ == s@.subrange(a as int, i as int),
        decreases b - i,
    {
        r.push(s[i]);
        proof {
            assert(r@ =~= s@.subrange(a as int, i + 1));
        }
        i = i + 1;
    }
    r
}

/// The bounds of the text with surrounding whitespace removed.
fn trim_bounds(s: &Vec<u8>) -> (r: (usize, usize))
    ensures
        r.0 <= r.1 <= s@.len(),
        s@.subrange(r.0 as int, r.1 as int) == spec_trim(s@),
{
    let n = s.len();
    let mut lo: usize = 0;
    let mut hi: usize = n;
    proof {
        assert(s@.subrange(0, n as int) =~= s@);
    }
    while lo < hi && (s[lo] == 32 || s[lo] == 9 || s[lo] == 10 || s[lo] == 13)
        invariant
            lo <= hi <= n,
            n == s@.len(),
            hi == n,
            spec_trim(s@) == spec_trim(s@.subrange(lo as int, hi as int)),
        decreases hi - lo,
    {
        proof {
            let tcur = s@.subrange(lo as int, hi as int);
            assert(tcur.drop_first() =~= s@.subrange(lo + 1, hi as int));
        }
        lo = lo + 1;
    }
    while hi > lo && (s[hi - 1] == 32 || s[hi - 1] == 9 || s[hi - 1] == 10 || s[hi - 1] == 13)
        invariant
            lo <= hi <= n,
            n == s@.len(),
            spec_trim(s@) == spec_trim(s@.subrange(lo as int, hi as int)),
            lo < hi ==> !is_ws(s@[lo as int]),
        decreases hi - lo,
    {
        proof {
            let tcur = s@.subrange(lo as int, hi as int);
            assert(tcur.drop_last() =~= s@.subrange(lo as int, hi - 1));
        }
        hi = hi - 1;
    }
    proof {
        let tcur = s@.subrange(lo as int, hi as int);
        assert(spec_trim(tcur) == tcur);
    }
    (lo, hi)
}

fn is_ws_exec(b: u8) -> (r: bool)
    ensures
        r == is_ws(b),
{
    b == 32 || b == 9 || b == 10 || b == 13
}

/// One `key=value` line, split at the first `=`.
fn parse_line(line: &Vec<u8>) -> (r: Option<(Vec<u8>, Vec<u8>)>)
    ensures
        match (r, spec_parse_line(line@)) {
            (Some(kv), Some(skv)) => kv.0@ == skv.0 && kv.1@ == skv.1,
            (None, None) => true,
            _ => false,
        },
{
    let i = find_byte(line, 61, 0);
    if i >= line.len() {
        None
    } else {
        let key = copy_range(line, 0, i);
        let value = copy_range(line, i + 1, line.len());
        Some((key, value))
    }
}

/// Parse a configuration file into its key-value pairs, in file order:
/// trim, split into lines, skip the two header lines, split every further
/// line at its first `=`.  Answers `None` exactly when some such line has
/// no `=` (the file is malformed).
pub fn parse_vars(text: &Vec<u8>) -> (r: Option<Vec<(Vec<u8>, Vec<u8>)>>)
    ensures
        match (r, spec_parse_vars(text@)) {
            (Some(v), Some(sv)) => kvs_view(v@) == sv,
            (None, None) => true,
            _ => false,
        },
{
    let (lo, hi) = trim_bounds(text);
    let t = copy_range(text, lo, hi);
    let ghost ts = t@;
    // Split into lines.
    let mut lines: Vec<Vec<u8>> = Vec::new();
    let mut pos: usize = 0;
    proof {
        assert(vecs_view(lines@) + spec_lines_from(ts, 0) =~= spec_lines_from(ts, 0));
    }
    while pos < t.len()
        invariant
            pos <= t@.len(),
            t@ == ts,
            spec_lines_from(ts, 0) =~= vecs_view(lines@) + spec_lines_from(ts, pos as int),
        decreases t@.len() - pos,
    {
        let i = find_byte(&t, 10, pos);
        let mut line = copy_range(&t, pos, i);
        if line.len() > 0 && line[line.len() - 1] == 13 {
            line.pop();
        }
        let ghost prev = vecs_view(lines@);
        lines.push(line);
        proof {
            assert(vecs_view(lines@) =~= prev + seq![line@]);
            if i < ts.len() {
                assert(line@ == strip_cr(ts.subrange(pos as int, i as int)));
                assert(spec_lines_from(ts, pos as int) == seq![line@] + spec_lines_from(
                    ts,
                    i + 1,
                ));
                assert((prev + seq![line@]) + spec_lines_from(ts, i + 1) =~= prev
                    + spec_lines_from(ts, pos as int));
            } else {
                assert(line@ == strip_cr(ts.subrange(pos as int, ts.len() as int)));
                assert(spec_lines_from(ts, pos as int) == seq![line@]);
                assert((prev + seq![line@]) + spec_lines_from(ts, ts.len() as int) =~= prev
                    + spec_lines_from(ts, pos as int));
            }
        }
        if i < t.len() {
            pos = i + 1;
        } else {
            pos = t.len();
        }
    }
    let ghost ls = vecs_view(lines@);
    proof {
        assert(spec_lines_from(ts, 0) =~= ls);
    }
    // Parse every line after the two headers.
    let mut out: Vec<(Vec<u8>, Vec<u8>)> = Vec::new();
    let mut k: usize = 2;
    proof {
        match spec_parse_vars_from(ls, 2) {
            Some(rest) => {
                assert(kvs_view(out@) + rest =~= rest);
            },
            None => {},
        }
    }
    while k < lines.len()
        invariant
            2 <= k,
            ls == vecs_view(lines@),
            spec_lines_from(ts, 0) =~= ls,
            ts == spec_trim(text@),
            match spec_parse_vars_from(ls, k as int) {
                Some(rest) => spec_parse_vars_from(ls, 2) == Some(kvs_view(out@) + rest),
                None => spec_parse_vars_from(ls, 2) is None,
            },
        decreases lines@.len() - k,
    {
        let parsed = parse_line(&lines[k]);
        match parsed {
            None => {
                proof {
                    assert(spec_parse_line(ls[k as int]) is None);
                    assert(spec_parse_vars_from(ls, k as int) is None);
                }
                return None;
            },
            Some(kv) => {
                let ghost prev_out = kvs_view(out@);
                let ghost skv = spec_parse_line(ls[k as int])->Some_0;
                out.push(kv);
                proof {
                    assert(kvs_view(out@) =~= prev_out + seq![skv]);
                    match spec_parse_vars_from(ls, k + 1) {
                        Some(rest2) => {
                            assert(spec_parse_vars_from(ls, k as int) == Some(
                                seq![skv] + rest2,
                            ));
                            assert((prev_out + seq![skv]) + rest2 =~= prev_out + (seq![skv]
                                + rest2));
                        },
                        None => {
                            assert(spec_parse_vars_from(ls, k as int) is None);
                        },
                    }
                }
            },
        }
        k = k + 1;
    }
    proof {
        assert(spec_parse_vars_from(ls, k as int) == Some(Seq::<(Seq<u8>, Seq<u8>)>::empty()));
        assert(kvs_view(out@) + Seq::<(Seq<u8>, Seq<u8>)>::empty() =~= kvs_view(out@));
    }
    Some(out)
}

/// Whether two byte keys hold the same bytes.
fn keys_equal(x: &Vec<u8>, y: &Vec<u8>) -> (r: bool)
    ensures
        r == (x@ == y@),
{
    if x.len() != y.len() {
        proof {
            assert(x@ != y@);
        }
        return false;
    }
    let mut i: usize = 0;
    while i < x.len()
        invariant
            i <= x@.len(),
            x@.len() == y@.len(),
            forall|k: int| 0 <= k < i ==> x@[k] == y@[k],
        decreases x@.len() - i,
    {
        if x[i] != y[i] {
            proof {
                assert(x@ != y@);
            }
            return false;
        }
        i = i + 1;
    }
    proof {
        assert(x@ =~= y@);
    }
    true
}

/// The value of the first pair whose key is `key`, as a fresh buffer.
pub fn lookup_var(vars: &Vec<(Vec<u8>, Vec<u8>)>, key: &Vec<u8>) -> (r: Option<Vec<u8>>)
    ensures
        match (r, spec_lookup(kvs_view(vars@), key@)) {
            (Some(v), Some(sv)) => v@ == sv,
            (None, None) => true,
            _ => false,
        },
{
    let mut i: usize = 0;
    proof {
        assert(kvs_view(vars@).skip(0) =~= kvs_view(vars@));
    }
    while i < vars.len()
        invariant
            i <= vars@.len(),
            spec_lookup(kvs_view(vars@), key@) == spec_lookup(
                kvs_view(vars@).skip(i as int),
                key@,
            ),
        decreases vars@.len() - i,
    {
        let pair = &vars[i];
        proof {
            assert(kvs_view(vars@).skip(i as int)[0] == (vars@[i as int].0@, vars@[i as int].1@));
            assert(kvs_view(vars@).skip(i as int).drop_first() =~= kvs_view(vars@).skip(i + 1));
        }
        if keys_equal(&pair.0, key) {
            let v = copy_range(&pair.1, 0, pair.1.len());
            proof {
                assert(v@ =~= vars@[i as int].1@);
            }
            return Some(v);
        }
        i = i + 1;
    }
    None
}

/// The sequence of character sequences a vector of owned strings stands
/// for.
pub open spec fn strs_view(v: Seq<String>) -> Seq<Seq<char>> {
    Seq::new(v.len(), |i: int| v[i]@)
}

/// The worker's argument list before the debugger prefix.
pub open spec fn spec_core_run_args(pod: Seq<char>, name: Seq<char>, affinity: Seq<char>) -> Seq<
    Seq<char>,
> {
    seq![
        "--pod"@,
        pod,
        "--cfg"@,
        name,
        "--log-app"@,
        name,
        "--log-thread"@,
        "main"@,
        "--tile-cpus"@,
        affinity,
    ]
}

/// The worker's argument list: under a debugger it is prefixed with the
/// debugger and its separator.
pub open spec fn spec_run_args(
    debug: bool,
    pod: Seq<char>,
    name: Seq<char>,
    affinity: Seq<char>,
) -> Seq<Seq<char>> {
    if debug {
        seq!["gdb"@, "--args"@] + spec_core_run_args(pod, name, affinity)
    } else {
        spec_core_run_args(pod, name, affinity)
    }
}

/// The monitor's argument list: the same pod and names, the monitor's log
/// thread, and a duration of a thousand years.
pub open spec fn spec_monitor_args(pod: Seq<char>, name: Seq<char>) -> Seq<Seq<char>> {
    seq![
        "--pod"@,
        pod,
        "--cfg"@,
        name,
        "--log-app"@,
        name,
        "--log-thread"@,
        "mon"@,
        "--duration"@,
        "31536000000000000"@,
    ]
}

/// Build the worker's argument list from the configured pod, the
/// configuration name and the CPU affinity.
pub fn build_run_args(debug: bool, pod: &String, name: &String, affinity: &String) -> (r: Vec<
    String,
>)
    ensures
        strs_view(r@) == spec_run_args(debug, pod@, name@, affinity@),
{
    let mut r: Vec<String> = Vec::new();
    if debug {
        r.push("gdb".to_owned());
        r.push("--args".to_owned());
    }
    r.push("--pod".to_owned());
    r.push(pod.clone());
    r.push("--cfg".to_owned());
    r.push(name.clone());
    r.push("--log-app".to_owned());
    r.push(name.clone());
    r.push("--log-thread".to_owned());
    r.push("main".to_owned());
    r.push("--tile-cpus".to_owned());
    r.push(affinity.clone());
    proof {
        assert(strs_view(r@) =~= spec_run_args(debug, pod@, name@, affinity@));
    }
    r
}

/// The argument list handed to the native boot step at startup: pin the
/// worker's tile to CPU 0.  The surrounding program converts it to whatever
/// argv form the boot call wants.
pub fn boot_args() -> (r: Vec<String>)
    ensures
        strs_view(r@) == seq!["--tile-cpus"@, "0"@],
{
    let mut r: Vec<String> = Vec::new();
    r.push("--tile-cpus".to_owned());
    r.push("0".to_owned());
    proof {
        assert(strs_view(r@) =~= seq!["--tile-cpus"@, "0"@]);
    }
    r
}

/// Build the monitor's argument list from the configured pod and the
/// configuration name.
pub fn build_monitor_args(pod: &String, name: &String) -> (r: Vec<String>)
    ensures
        strs_view(r@) == spec_monitor_args(pod@, name@),
{
    let mut r: Vec<String> = Vec::new();
    r.push("--pod".to_owned());
    r.push(pod.clone());
    r.push("--cfg".to_owned());
    r.push(name.clone());
    r.push("--log-app".to_owned());
    r.push(name.clone());
    r.push("--log-thread".to_owned());
    r.push("mon".to_owned());
    r.push("--duration".to_owned());
    r.push("31536000000000000".to_owned());
    proof {
        assert(strs_view(r@) =~= spec_monitor_args(pod@, name@));
    }
    r
}

} // verus!
