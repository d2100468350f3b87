//! Locating a debuggable browser session for a profile: reading port and
//! lock markers, deciding whether to reuse, fail or launch, and waiting for
//! the endpoint to become ready.
use vstd::prelude::*;
use vstd::string::{StrSliceExecFns, StringExecFns};
use crate::errors::ErrorKind;
use crate::target::prefix_before;
use crate::text::{
    trim_from, trim_ws, chars_of, contains_str, is_white_space, is_word, parse_number, parsed_number, seq_contains,
    seq_starts_with, trim_char, trim_char_range, vec_occurs_at, vec_slice, white_space,
};

verus! {

/// First port of the range probed for a new debugging endpoint.
pub const DEBUG_PORT_START: u16 = 9300;

/// Last port of the range probed for a new debugging endpoint.
pub const DEBUG_PORT_END: u16 = 9800;

/// Whether a session reuses a running browser or launched a new one.
#[derive(Clone, Copy, Debug, PartialEq, Eq, Structural)]
pub enum ChromeSessionMode {
    ReusedExisting,
    LaunchedNew,
}

impl ChromeSessionMode {
    /// The mode's name.
    pub fn as_str(&self) -> (r: &'static str)
        ensures
            r@ == (match self {
                ChromeSessionMode::ReusedExisting => "reused_existing"@,
                ChromeSessionMode::LaunchedNew => "launched_new"@,
            }),
    {
        match self {
            ChromeSessionMode::ReusedExisting => "reused_existing",
            ChromeSessionMode::LaunchedNew => "launched_new",
        }
    }
}

/// A debugging endpoint for one profile.
#[derive(Clone, Copy, Debug, PartialEq, Eq, Structural)]
pub struct ChromeSession {
    pub port: u16,
    pub mode: ChromeSessionMode,
}

/// A profile is busy when it holds singleton artifacts and either the lock
/// names no readable process id or the process it names is alive. A lock
/// left by a dead process does not make the profile busy.
pub open spec fn profile_busy(has_artifacts: bool, lock_owner_alive: Option<bool>) -> bool {
    has_artifacts && match lock_owner_alive {
        Some(alive) => alive,
        None => true,
    }
}

/// Is the profile busy? `lock_owner_alive` is `None` when the lock names no
/// readable process id, else whether that process runs.
pub fn is_profile_busy(has_artifacts: bool, lock_owner_alive: Option<bool>) -> (r: bool)
    ensures
        r == profile_busy(has_artifacts, lock_owner_alive),
{
    if !has_artifacts {
        return false;
    }
    match lock_owner_alive {
        Some(alive) => alive,
        None => true,
    }
}

/// What to do to obtain a session.
#[derive(Clone, Copy, Debug, PartialEq, Eq, Structural)]
pub enum SessionPlan {
    /// Attach to the endpoint already running on this port.
    Reuse(u16),
    /// Launch a new browser for the profile.
    Launch,
}

/// The plan for a profile: reuse a discovered endpoint; else fail with
/// `ProfileBusy` when another live process holds the profile; else launch.
pub open spec fn session_plan_of(discovered: Option<u16>, busy: bool) -> Result<SessionPlan, ErrorKind> {
    match discovered {
        Some(port) => Ok(SessionPlan::Reuse(port)),
        None => if busy {
            Err(ErrorKind::ProfileBusy)
        } else {
            Ok(SessionPlan::Launch)
        },
    }
}

/// Decide how to obtain a session.
pub fn plan_session(discovered: Option<u16>, busy: bool) -> (r: Result<SessionPlan, ErrorKind>)
    ensures
        r == session_plan_of(discovered, busy),
{
    match discovered {
        Some(port) => Ok(SessionPlan::Reuse(port)),
        None => {
            if busy {
                Err(ErrorKind::ProfileBusy)
            } else {
                Ok(SessionPlan::Launch)
            }
        },
    }
}

/// The session a plan yields once its port is known.
pub fn session_for(plan: SessionPlan, launched_port: u16) -> (r: ChromeSession)
    ensures
        plan matches SessionPlan::Reuse(p) ==> r == (ChromeSession {
            port: p,
            mode: ChromeSessionMode::ReusedExisting,
        }),
        plan matches SessionPlan::Launch ==> r == (ChromeSession {
            port: launched_port,
            mode: ChromeSessionMode::LaunchedNew,
        }),
{
    match plan {
        SessionPlan::Reuse(p) => ChromeSession { port: p, mode: ChromeSessionMode::ReusedExisting },
        SessionPlan::Launch => ChromeSession {
            port: launched_port,
            mode: ChromeSessionMode::LaunchedNew,
        },
    }
}

/// The value of a `prefix=value` word: the text after the prefix, without
/// surrounding double and then single quotes, read as a port number.
pub open spec fn flag_value(word: Seq<char>, prefix: Seq<char>) -> Option<nat> {
    if seq_starts_with(word, prefix) {
        parsed_number(
            trim_char(trim_char(word.subrange(prefix.len() as int, word.len() as int), '"'), '\''),
            65535,
        )
    } else {
        None
    }
}

proof fn lemma_word_end_unique(s: Seq<char>, i: int, j: int, b: int)
    requires
        0 <= i < j <= s.len(),
        forall|k: int| i <= k < j ==> !white_space(#[trigger] s[k]),
        j == s.len() || white_space(s[j]),
        is_word(s, i, b),
    ensures
        b == j,
{
    if b < j {
        assert(!white_space(s[b]));
    } else if b > j {
        assert(!white_space(s[j]));
    }
}

/// The first word of `cmdline` that carries `prefix` with a valid port
/// value, read as that port.
pub fn extract_flag_u16(cmdline: &str, prefix: &str) -> (r: Option<u16>)
    ensures
        r.is_some() ==> exists|i: int, j: int|
            is_word(cmdline@, i, j) && flag_value(cmdline@.subrange(i, j), prefix@) == Some(
                r.unwrap() as nat,
            ) && forall|a: int, b: int|
                is_word(cmdline@, a, b) && a < i ==> flag_value(cmdline@.subrange(a, b), prefix@)
                    is None,
        r.is_none() ==> forall|a: int, b: int|
            is_word(cmdline@, a, b) ==> flag_value(cmdline@.subrange(a, b), prefix@) is None,
{
    let v = chars_of(cmdline);
    let pv = chars_of(prefix);
    let n = v.len();
    let mut i: usize = 0;
    while i < n
        invariant
            n == v@.len(),
            v@ == cmdline@,
            pv@ == prefix@,
            i <= n,
            i == 0 || i == n || white_space(v@[i - 1]) || white_space(v@[i as int]),
            forall|a: int, b: int|
                is_word(v@, a, b) && a < i ==> flag_value(v@.subrange(a, b), pv@) is None,
        decreases n - i,
    {
        if is_white_space(v[i]) {
            proof {
                assert forall|a: int, b: int|
                    is_word(v@, a, b) && a < i + 1 implies flag_value(v@.subrange(a, b), pv@) is None by {
                    if a == i {
                        assert(!white_space(v@[a]));
                    }
                }
            }
            i = i + 1;
        } else {
            let mut j: usize = i;
            while j < n && !is_white_space(v[j])
                invariant
                    n == v@.len(),
                    i <= j <= n,
                    forall|k: int| i <= k < j ==> !white_space(#[trigger] v@[k]),
                decreases n - j,
            {
                j = j + 1;
            }
            proof {
                assert(j > i);
                assert(i == 0 || white_space(v@[i - 1]));
                assert(is_word(v@, i as int, j as int));
            }
            let ghost word = v@.subrange(i as int, j as int);
            let plen = pv.len();
            if plen <= j - i && vec_occurs_at(&v, &pv, i) {
                assert(word.subrange(0, plen as int) =~= v@.subrange(i as int, i + plen));
                let (a, b) = trim_char_range(&v, i + plen, j, '"');
                let (a2, b2) = trim_char_range(&v, a, b, '\'');
                let digits = vec_slice(&v, a2, b2);
                proof {
                    assert(word.subrange(plen as int, word.len() as int) =~= v@.subrange(
                        i + plen,
                        j as int,
                    ));
                }
                match parse_number(&digits, 65535) {
                    Some(val) => {
                        return Some(val as u16);
                    },
                    None => {},
                }
            } else {
                proof {
                    if seq_starts_with(word, pv@) {
                        assert(word.subrange(0, plen as int) =~= v@.subrange(i as int, i + plen));
                    }
                }
            }
            proof {
                assert(flag_value(word, pv@) is None);
                assert forall|a: int, b: int|
                    is_word(v@, a, b) && a < j implies flag_value(v@.subrange(a, b), pv@) is None by {
                    if a == i {
                        lemma_word_end_unique(v@, i as int, j as int, b);
                    } else if i < a < j {
                        assert(!white_space(v@[a - 1]));
                    }
                }
            }
            i = j;
        }
    }
    None
}

/// A command line names `profile` as its user data directory, bare or
/// quoted.
pub open spec fn names_profile(cmdline: Seq<char>, profile: Seq<char>) -> bool {
    seq_contains(cmdline, "--user-data-dir="@ + profile) || seq_contains(
        cmdline,
        "--user-data-dir=\""@ + profile + "\""@,
    ) || seq_contains(cmdline, "--user-data-dir='"@ + profile + "'"@)
}

/// Does `cmdline` run with `profile` as its user data directory?
pub fn matches_profile_user_data_dir(cmdline: &str, profile: &str) -> (r: bool)
    ensures
        r == names_profile(cmdline@, profile@),
{
    let mut plain = String::from_str("--user-data-dir=");
    plain.append(profile);
    let mut double_quote = String::from_str("--user-data-dir=\"");
    double_quote.append(profile);
    double_quote.append("\"");
    let mut single_quote = String::from_str("--user-data-dir='");
    single_quote.append(profile);
    single_quote.append("'");
    contains_str(cmdline, plain.as_str()) || contains_str(cmdline, double_quote.as_str())
        || contains_str(cmdline, single_quote.as_str())
}

/// The debugging port a process line contributes for `profile`: lines that
/// carry both flags, name the profile, and hold a valid port.
pub open spec fn line_port(line: Seq<char>, profile: Seq<char>) -> Option<nat> {
    if seq_contains(line, "--user-data-dir="@) && seq_contains(line, "--remote-debugging-port="@)
        && names_profile(line, profile) {
        first_flag_value(line, "--remote-debugging-port="@)
    } else {
        None
    }
}

/// The value of the first word of `s` that carries `prefix` with a valid
/// port value.
pub open spec fn first_flag_value(s: Seq<char>, prefix: Seq<char>) -> Option<nat> {
    if exists|i: int, j: int| is_word(s, i, j) && flag_value(s.subrange(i, j), prefix) is Some {
        let (i, j) = choose|i: int, j: int|
            is_word(s, i, j) && flag_value(s.subrange(i, j), prefix) is Some && forall|a: int, b: int|
                is_word(s, a, b) && a < i ==> flag_value(s.subrange(a, b), prefix) is None;
        flag_value(s.subrange(i, j), prefix)
    } else {
        None
    }
}

proof fn lemma_first_word_unique(s: Seq<char>, prefix: Seq<char>, i: int, j: int)
    requires
        is_word(s, i, j),
        flag_value(s.subrange(i, j), prefix) is Some,
        forall|a: int, b: int|
            is_word(s, a, b) && a < i ==> flag_value(s.subrange(a, b), prefix) is None,
    ensures
        first_flag_value(s, prefix) == flag_value(s.subrange(i, j), prefix),
{
    let (i2, j2) = choose|i2: int, j2: int|
        is_word(s, i2, j2) && flag_value(s.subrange(i2, j2), prefix) is Some && forall|a: int, b: int|
            is_word(s, a, b) && a < i2 ==> flag_value(s.subrange(a, b), prefix) is None;
    if i2 < i {
        assert(flag_value(s.subrange(i2, j2), prefix) is None);
    } else if i < i2 {
        assert(flag_value(s.subrange(i, j), prefix) is None);
    } else {
        if j2 < j {
            assert(!white_space(s[j2]));
        } else if j < j2 {
            assert(!white_space(s[j]));
        }
    }
}

/// The debugging port of one process line for `profile`, if it has one.
pub fn profile_port_of_line(line: &str, profile: &str) -> (r: Option<u16>)
    ensures
        match (r, line_port(line@, profile@)) {
            (Some(a), Some(b)) => a as nat == b,
            (None, None) => true,
            _ => false,
        },
{
    if !contains_str(line, "--user-data-dir=") || !contains_str(line, "--remote-debugging-port=") {
        return None;
    }
    if !matches_profile_user_data_dir(line, profile) {
        return None;
    }
    let r = extract_flag_u16(line, "--remote-debugging-port=");
    proof {
        match r {
            Some(v) => {
                let (i, j) = choose|i: int, j: int|
                    is_word(line@, i, j) && flag_value(line@.subrange(i, j), "--remote-debugging-port="@)
                        == Some(v as nat) && forall|a: int, b: int|
                        is_word(line@, a, b) && a < i ==> flag_value(
                            line@.subrange(a, b),
                            "--remote-debugging-port="@,
                        ) is None;
                lemma_first_word_unique(line@, "--remote-debugging-port="@, i, j);
            },
            None => {},
        }
    }
    r
}

/// The debugging ports that running processes use for `profile`, in the
/// order of the process lines.
pub open spec fn profile_ports(lines: Seq<String>, profile: Seq<char>) -> Seq<u16>
    decreases lines.len(),
{
    if lines.len() == 0 {
        Seq::empty()
    } else {
        let rest = profile_ports(lines.drop_last(), profile);
        match line_port(lines.last()@, profile) {
            Some(p) => rest.push(p as u16),
            None => rest,
        }
    }
}

/// The debugging ports that the process lines `lines` use for `profile`.
pub fn running_profile_debug_ports(lines: &Vec<String>, profile: &str) -> (r: Vec<u16>)
    ensures
        r@ == profile_ports(lines@, profile@),
{
    let mut out: Vec<u16> = Vec::new();
    let mut i: usize = 0;
    while i < lines.len()
        invariant
            i <= lines@.len(),
            out@ == profile_ports(lines@.subrange(0, i as int), profile@),
        decreases lines@.len() - i,
    {
        let found = profile_port_of_line(lines[i].as_str(), profile);
        proof {
            let next = lines@.subrange(0, i + 1);
            assert(next.drop_last() =~= lines@.subrange(0, i as int));
        }
        match found {
            Some(p) => out.push(p),
            None => {},
        }
        i = i + 1;
    }
    assert(lines@.subrange(0, lines@.len() as int) =~= lines@);
    out
}

/// The text after the last `c` in `s`, or all of `s` when it holds none.
pub open spec fn after_last(s: Seq<char>, c: char) -> Seq<char>
    decreases s.len(),
{
    if s.len() == 0 {
        s
    } else if s.last() == c {
        Seq::empty()
    } else {
        after_last(s.drop_last(), c).push(s.last())
    }
}

/// The process id at the end of a lock link name (`host-1234`).
pub open spec fn lock_pid_of(name: Seq<char>) -> Option<nat> {
    parsed_number(after_last(name, '-'), 0xffff_ffff)
}

/// The process id that a lock link name ends with, if any.
pub fn lock_pid_from_link_name(name: &str) -> (r: Option<u32>)
    ensures
        match (r, lock_pid_of(name@)) {
            (Some(a), Some(b)) => a as nat == b,
            (None, None) => true,
            _ => false,
        },
{
    let v = chars_of(name);
    let n = v.len();
    let mut k: usize = n;
    assert(v@.subrange(0, n as int) =~= v@);
    assert(v@.subrange(n as int, n as int) =~= Seq::<char>::empty());
    assert(after_last(v@, '-') + Seq::<char>::empty() =~= after_last(v@, '-'));
    while k > 0 && v[k - 1] != '-'
        invariant
            n == v@.len(),
            k <= n,
            after_last(v@, '-') == after_last(v@.subrange(0, k as int), '-') + v@.subrange(
                k as int,
                n as int,
            ),
        decreases k,
    {
        proof {
            let pre = v@.subrange(0, k as int);
            assert(pre.drop_last() =~= v@.subrange(0, k - 1));
            assert(pre.last() == v@[k - 1]);
            assert(after_last(pre, '-') == after_last(v@.subrange(0, k - 1), '-').push(v@[k - 1]));
            assert(after_last(v@.subrange(0, k - 1), '-').push(v@[k - 1]) + v@.subrange(
                k as int,
                n as int,
            ) =~= after_last(v@.subrange(0, k - 1), '-') + v@.subrange(k - 1, n as int));
        }
        k = k - 1;
    }
    proof {
        let pre = v@.subrange(0, k as int);
        if k > 0 {
            assert(pre.last() == '-');
        }
        assert(after_last(pre, '-') =~= Seq::<char>::empty());
        assert(after_last(v@, '-') =~= v@.subrange(k as int, n as int));
    }
    let tail = vec_slice(&v, k, n);
    match parse_number(&tail, 0xffff_ffff) {
        Some(x) => Some(x as u32),
        None => None,
    }
}

/// The port that a port-marker file names: its first line, trimmed, read as
/// a port number.
pub open spec fn marker_port_of(body: Seq<char>) -> Option<nat> {
    parsed_number(trim_ws(body.subrange(0, prefix_before(body, '\n'))), 65535)
}

/// The port named by the body of a port-marker file, if any.
pub fn port_from_active_port_file(body: &str) -> (r: Option<u16>)
    ensures
        match (r, marker_port_of(body@)) {
            (Some(a), Some(b)) => a as nat == b,
            (None, None) => true,
            _ => false,
        },
{
    let v = chars_of(body);
    let n = v.len();
    let mut k: usize = 0;
    while k < n && v[k] != '\n'
        invariant
            n == v@.len(),
            k <= n,
            forall|j: int| 0 <= j < k ==> v@[j] != '\n',
        decreases n - k,
    {
        k = k + 1;
    }
    proof {
        lemma_prefix_before_is_first(v@, '\n', k as int);
    }
    let line = vec_slice(&v, 0, k);
    let trimmed = trim_from(&line, 0);
    assert(line@.subrange(0, line@.len() as int) =~= line@);
    let tv = chars_of(trimmed.as_str());
    match parse_number(&tv, 65535) {
        Some(x) => Some(x as u16),
        None => None,
    }
}

proof fn lemma_prefix_before_is_first(s: Seq<char>, c: char, k: int)
    requires
        0 <= k <= s.len(),
        forall|j: int| 0 <= j < k ==> s[j] != c,
        k == s.len() || s[k] == c,
    ensures
        prefix_before(s, c) == k,
    decreases s.len(),
{
    if s.len() > 0 && s[0] != c {
        assert forall|j: int| 0 <= j < k - 1 implies s.drop_first()[j] != c by {
            assert(s.drop_first()[j] == s[j + 1]);
        }
        if k > 0 {
            if k < s.len() {
                assert(s.drop_first()[k - 1] == s[k]);
            }
            lemma_prefix_before_is_first(s.drop_first(), c, k - 1);
        }
    }
}

/// The largest account index among directory names `prefix-N`, or 0.
pub open spec fn max_profile_index(names: Seq<String>, prefix: Seq<char>) -> nat
    decreases names.len(),
{
    if names.len() == 0 {
        0
    } else {
        let rest = max_profile_index(names.drop_last(), prefix);
        let name = names.last()@;
        if seq_starts_with(name, prefix) {
            match parsed_number(name.subrange(prefix.len() as int, name.len() as int), 0xffff_ffff) {
                Some(x) => if x > rest {
                    x
                } else {
                    rest
                },
                None => rest,
            }
        } else {
            rest
        }
    }
}

/// The next free account index for `platform`, given the names of the
/// existing profile directories: one more than the largest `platform-N`;
/// `None` when that would not fit in 32 bits.
pub fn next_profile_index(platform: &str, names: &Vec<String>) -> (r: Option<u32>)
    ensures
        ({
            let m = max_profile_index(names@, platform@ + "-"@);
            &&& m < 0xffff_ffff ==> r == Some((m + 1) as u32)
            &&& m >= 0xffff_ffff ==> r.is_none()
        }),
{
    let mut prefix = String::from_str(platform);
    prefix.append("-");
    let pv = chars_of(prefix.as_str());
    let mut best: u32 = 0;
    let mut i: usize = 0;
    while i < names.len()
        invariant
            i <= names@.len(),
            pv@ == platform@ + "-"@,
            best as nat == max_profile_index(names@.subrange(0, i as int), pv@),
        decreases names@.len() - i,
    {
        let name = chars_of(names[i].as_str());
        proof {
            let next = names@.subrange(0, i + 1);
            assert(next.drop_last() =~= names@.subrange(0, i as int));
        }
        if vec_occurs_at(&name, &pv, 0) {
            let tail = vec_slice(&name, pv.len(), name.len());
            match parse_number(&tail, 0xffff_ffff) {
                Some(x) => {
                    if x as u32 > best {
                        best = x as u32;
                    }
                },
                None => {},
            }
        }
        i = i + 1;
    }
    assert(names@.subrange(0, names@.len() as int) =~= names@);
    if best == 0xffff_ffff {
        None
    } else {
        Some(best + 1)
    }
}

/// Progress of the wait for a debugging endpoint to offer a page.
#[derive(Clone, Copy, Debug, PartialEq, Eq, Structural)]
pub struct ReadyWait {
    pub active_port: u16,
    pub saw_version: bool,
    pub rediscovered_once: bool,
}

/// What the wait does after one check.
#[derive(Clone, Copy, Debug, PartialEq, Eq, Structural)]
pub enum ReadyStep {
    /// The endpoint answers and offers a page on this port.
    Ready(u16),
    /// Give up with this kind.
    Fail(ErrorKind),
    /// Check again after one interval.
    Poll,
}

/// The decision after one check. Past the deadline the wait fails: with
/// `ProfileBusy` when the endpoint answered but never offered a page, or
/// when the profile is busy, else with `ChromeNotReady`.
pub open spec fn ready_step_of(
    w: ReadyWait,
    timed_out: bool,
    version_ok: bool,
    page_target: bool,
    busy: bool,
) -> (ReadyStep, ReadyWait) {
    if timed_out {
        if w.saw_version || busy {
            (ReadyStep::Fail(ErrorKind::ProfileBusy), w)
        } else {
            (ReadyStep::Fail(ErrorKind::ChromeNotReady), w)
        }
    } else if version_ok && page_target {
        (ReadyStep::Ready(w.active_port), ReadyWait { saw_version: true, ..w })
    } else {
        (ReadyStep::Poll, ReadyWait { saw_version: w.saw_version || version_ok, ..w })
    }
}

impl ReadyWait {
    /// The wait for a session, before any check.
    pub fn start(session: &ChromeSession) -> (r: ReadyWait)
        ensures
            r == (ReadyWait { active_port: session.port, saw_version: false, rediscovered_once: false }),
    {
        ReadyWait { active_port: session.port, saw_version: false, rediscovered_once: false }
    }

    /// Decide after one check of the version and target-list endpoints.
    pub fn step(&self, timed_out: bool, version_ok: bool, page_target: bool, busy: bool) -> (r: (
        ReadyStep,
        ReadyWait,
    ))
        ensures
            r == ready_step_of(*self, timed_out, version_ok, page_target, busy),
    {
        if timed_out {
            if self.saw_version || busy {
                (ReadyStep::Fail(ErrorKind::ProfileBusy), *self)
            } else {
                (ReadyStep::Fail(ErrorKind::ChromeNotReady), *self)
            }
        } else if version_ok && page_target {
            (ReadyStep::Ready(self.active_port), ReadyWait { saw_version: true, ..*self })
        } else {
            (ReadyStep::Poll, ReadyWait { saw_version: self.saw_version || version_ok, ..*self })
        }
    }

    /// Take in the one rediscovery of the profile's port: a discovered port
    /// replaces the active one, and no further rediscovery follows.
    pub fn rediscovered(&self, discovered: Option<u16>) -> (r: ReadyWait)
        ensures
            self.rediscovered_once ==> r == *self,
            !self.rediscovered_once ==> r.rediscovered_once && r.saw_version == self.saw_version
                && r.active_port == (match discovered {
                Some(p) => p,
                None => self.active_port,
            }),
    {
        if self.rediscovered_once {
            return *self;
        }
        let port = match discovered {
            Some(p) => p,
            None => self.active_port,
        };
        ReadyWait { active_port: port, saw_version: self.saw_version, rediscovered_once: true }
    }
}

} // verus!
