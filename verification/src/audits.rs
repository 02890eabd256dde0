//! SSH login auditing: the pure decisions of the monitor that tails an
//! authentication log — which lines matter, what they say, and when a
//! notification is due. The tailing itself and the clock live at the host's
//! edge and hand plain values in.

use crate::config::Config;
use std::sync::Arc;
use vstd::prelude::*;
use vstd::utf8::encode_utf8;

verus! {

/// The byte is ASCII whitespace (the fragment of Unicode whitespace that
/// fits in one byte).
pub open spec fn is_space(b: u8) -> bool {
    9 <= b <= 13 || b == 32
}

fn is_space_byte(b: u8) -> (r: bool)
    ensures
        r == is_space(b),
{
    (9 <= b && b <= 13) || b == 32
}

/// Where the whitespace-free run starting at `i` ends.
pub open spec fn token_end(s: Seq<u8>, i: int) -> int
    decreases s.len() - i,
{
    if 0 <= i < s.len() && !is_space(s[i]) {
        token_end(s, i + 1)
    } else {
        i
    }
}

/// `token_end` stays within the text.
proof fn lemma_token_end_bounds(s: Seq<u8>, i: int)
    requires
        0 <= i <= s.len(),
    ensures
        i <= token_end(s, i) <= s.len(),
    decreases s.len() - i,
{
    if 0 <= i < s.len() && !is_space(s[i]) {
        lemma_token_end_bounds(s, i + 1);
    }
}

/// The whitespace-separated tokens of the text from position `i` on.
pub open spec fn tokens_from(s: Seq<u8>, i: int) -> Seq<Seq<u8>>
    decreases s.len() - i, s.len() - i + 1,
        via tokens_from_decreases
{
    if !(0 <= i < s.len()) {
        Seq::empty()
    } else if is_space(s[i]) {
        tokens_from(s, i + 1)
    } else {
        seq![s.subrange(i, token_end(s, i))] + tokens_from(s, token_end(s, i))
    }
}

#[via_fn]
proof fn tokens_from_decreases(s: Seq<u8>, i: int) {
    if 0 <= i < s.len() && !is_space(s[i]) {
        lemma_token_end_bounds(s, i + 1);
    }
}

/// The whitespace-separated tokens of the text, in order.
pub open spec fn tokens(s: Seq<u8>) -> Seq<Seq<u8>> {
    tokens_from(s, 0)
}

/// A maximal whitespace-free run from `start` ends exactly at `end`.
proof fn lemma_token_end_is(s: Seq<u8>, start: int, end: int)
    requires
        0 <= start <= end <= s.len(),
        forall|j: int| start <= j < end ==> !is_space(#[trigger] s[j]),
        end < s.len() ==> is_space(s[end]),
    ensures
        token_end(s, start) == end,
    decreases end - start,
{
    if start < end {
        lemma_token_end_is(s, start + 1, end);
    }
}

/// Split the text at whitespace, dropping the separators: exactly the
/// `tokens` of the text.
pub fn split_whitespace_bytes(s: &Vec<u8>) -> (r: Vec<Vec<u8>>)
    ensures
        r.deep_view() == tokens(s@),
{
    let n = s.len();
    let mut out: Vec<Vec<u8>> = Vec::new();
    let mut i: usize = 0;
    while i < n
        invariant
            n == s@.len(),
            i <= n,
            tokens(s@) == out.deep_view() + tokens_from(s@, i as int),
        decreases n - i,
    {
        if is_space_byte(s[i]) {
            i += 1;
        } else {
            let start = i;
            while i < n && !is_space_byte(s[i])
                invariant
                    n == s@.len(),
                    start <= i <= n,
                    start < n,
                    forall|j: int| start <= j < i ==> !is_space(#[trigger] s@[j]),
                decreases n - i,
            {
                i += 1;
            }
            proof {
                lemma_token_end_is(s@, start as int, i as int);
            }
            let tok = crate::discord::copy_range(s, start, i);
            let ghost prev = out.deep_view();
            out.push(tok);
            proof {
                assert(out.deep_view() =~~= prev.push(tok@));
                assert(tokens_from(s@, start as int) == seq![s@.subrange(
                    start as int,
                    i as int,
                )] + tokens_from(s@, i as int));
                assert(out.deep_view() + tokens_from(s@, i as int) =~~= prev + tokens_from(
                    s@,
                    start as int,
                ));
            }
        }
    }
    proof {
        assert(tokens(s@) =~~= out.deep_view());
    }
    out
}

/// What one accepted-login line says: who, from where, and the log line's
/// own timestamp (its first three tokens, space-separated).
pub struct SshLoginDetails {
    pub user: Vec<u8>,
    pub ip: Vec<u8>,
    pub time: Vec<u8>,
}

/// The two record fields carry the same text.
pub open spec fn details_like(a: SshLoginDetails, b: SshLoginDetails) -> bool {
    &&& a.user@ == b.user@
    &&& a.ip@ == b.ip@
    &&& a.time@ == b.time@
}

/// Read user, address and timestamp out of one log line: token 8 names the
/// user, token 10 the address, tokens 0 to 2 the time. Lines with fewer
/// than 11 tokens carry no login and yield nothing.
pub fn parse_ssh_login_details(log_line: &Vec<u8>) -> (r: Option<SshLoginDetails>)
    ensures
        match r {
            Some(d) => {
                &&& tokens(log_line@).len() >= 11
                &&& d.user@ == tokens(log_line@)[8]
                &&& d.ip@ == tokens(log_line@)[10]
                &&& d.time@ == tokens(log_line@)[0] + seq![32u8] + tokens(log_line@)[1]
                    + seq![32u8] + tokens(log_line@)[2]
            },
            None => tokens(log_line@).len() < 11,
        },
{
    let parts = split_whitespace_bytes(log_line);
    if parts.len() >= 11 {
        let ghost ts = tokens(log_line@);
        let mut time: Vec<u8> = Vec::new();
        append_all(&mut time, &parts[0]);
        time.push(32);
        append_all(&mut time, &parts[1]);
        time.push(32);
        append_all(&mut time, &parts[2]);
        let user = crate::discord::copy_range(&parts[8], 0, parts[8].len());
        let ip = crate::discord::copy_range(&parts[10], 0, parts[10].len());
        proof {
            assert(parts@[8]@ == ts[8] && parts@[10]@ == ts[10] && parts@[0]@ == ts[0]
                && parts@[1]@ == ts[1] && parts@[2]@ == ts[2]);
            assert(user@ =~= ts[8]);
            assert(ip@ =~= ts[10]);
            assert(time@ =~= ts[0] + seq![32u8] + ts[1] + seq![32u8] + ts[2]);
        }
        Some(SshLoginDetails { user, ip, time })
    } else {
        None
    }
}

/// Append all of `src` to `dst`.
fn append_all(dst: &mut Vec<u8>, src: &Vec<u8>)
    ensures
        final(dst)@ == old(dst)@ + src@,
{
    let n = src.len();
    let mut j: usize = 0;
    while j < n
        invariant
            n == src@.len(),
            j <= n,
            dst@ == old(dst)@ + src@.subrange(0, j as int),
        decreases n - j,
    {
        dst.push(src[j]);
        proof {
            assert(dst@ =~= old(dst)@ + src@.subrange(0, j + 1));
        }
        j += 1;
    }
    proof {
        assert(old(dst)@ + src@.subrange(0, n as int) =~= old(dst)@ + src@);
    }
}

/// The needle occurs in the haystack starting at `i`.
pub open spec fn subseq_at(h: Seq<u8>, ndl: Seq<u8>, i: int) -> bool {
    &&& 0 <= i
    &&& i + ndl.len() <= h.len()
    &&& h.subrange(i, i + ndl.len()) == ndl
}

/// The needle occurs somewhere in the haystack.
pub open spec fn contains_subseq(h: Seq<u8>, ndl: Seq<u8>) -> bool {
    exists|i: int| subseq_at(h, ndl, i)
}

/// Find the first occurrence of the needle in the haystack.
pub fn find_subseq(h: &[u8], ndl: &[u8]) -> (r: Option<usize>)
    ensures
        match r {
            Some(i) => subseq_at(h@, ndl@, i as int) && forall|k: int|
                0 <= k < i ==> !subseq_at(h@, ndl@, k),
            None => !contains_subseq(h@, ndl@),
        },
{
    let hn = h.len();
    let nn = ndl.len();
    if nn == 0 {
        proof {
            assert(h@.subrange(0, 0) =~= ndl@);
        }
        return Some(0);
    }
    if nn > hn {
        proof {
            assert forall|i: int| !subseq_at(h@, ndl@, i) by {}
        }
        return None;
    }
    let mut i: usize = 0;
    while i <= hn - nn
        invariant
            hn == h@.len(),
            nn == ndl@.len(),
            nn <= hn,
            1 <= nn,
            i <= hn - nn + 1,
            forall|k: int| 0 <= k < i ==> !subseq_at(h@, ndl@, k),
        decreases hn - i,
    {
        let mut j: usize = 0;
        let mut matched = true;
        while j < nn
            invariant
                hn == h@.len(),
                nn == ndl@.len(),
                i + nn <= hn,
                j <= nn,
                matched ==> forall|t: int| 0 <= t < j ==> h@[i + t] == ndl@[t],
                !matched ==> !subseq_at(h@, ndl@, i as int),
            decreases nn - j,
        {
            if h[i + j] != ndl[j] {
                proof {
                    if subseq_at(h@, ndl@, i as int) {
                        assert(h@.subrange(i as int, i + nn)[j as int] == ndl@[j as int]);
                    }
                }
                matched = false;
                j = nn;
            } else {
                j += 1;
            }
        }
        if matched {
            proof {
                assert(h@.subrange(i as int, i + nn) =~= ndl@);
            }
            return Some(i);
        }
        i += 1;
    }
    proof {
        assert forall|k: int| !subseq_at(h@, ndl@, k) by {
            if 0 <= k <= hn - nn {
                assert(!subseq_at(h@, ndl@, k));
            }
        }
    }
    None
}

/// The line reports an accepted SSH login, by password or by public key.
pub fn is_login_line(line: &Vec<u8>) -> (r: bool)
    ensures
        r <==> (contains_subseq(line@, encode_utf8("Accepted password for"@))
            || contains_subseq(line@, encode_utf8("Accepted publickey for"@))),
{
    let pw = find_subseq(line.as_slice(), "Accepted password for".as_bytes());
    let pk = find_subseq(line.as_slice(), "Accepted publickey for".as_bytes());
    pw.is_some() || pk.is_some()
}

/// What the monitor remembers between lines: the last login it notified
/// about, and when.
pub struct LastLogin {
    pub details: Option<SshLoginDetails>,
    pub time: u64,
}

impl LastLogin {
    /// Before any login was seen.
    pub fn new() -> (r: Self)
        ensures
            r.details is None,
            r.time == 0,
    {
        LastLogin { details: None, time: 0 }
    }

    /// Decide whether a parsed login is worth a notification now, and
    /// remember it if so: a login identical to the last one observed in the
    /// same second is not news, and at most one notification goes out every
    /// two seconds. The clock handed in never runs backwards.
    pub fn observe(&mut self, details: &SshLoginDetails, now: u64) -> (send: bool)
        requires
            old(self).time <= now,
        ensures
            send <==> (!(old(self).details matches Some(p) && details_like(p, *details)
                && old(self).time == now) && now - old(self).time >= 2),
            send ==> (final(self).details matches Some(p) && details_like(p, *details)
                && final(self).time == now),
            !send ==> *final(self) == *old(self),
    {
        let same = match &self.details {
            Some(p) => {
                bytes_eq(&p.user, &details.user) && bytes_eq(&p.ip, &details.ip) && bytes_eq(
                    &p.time,
                    &details.time,
                ) && self.time == now
            },
            None => false,
        };
        if !same && now - self.time >= 2 {
            let user = crate::discord::copy_range(&details.user, 0, details.user.len());
            let ip = crate::discord::copy_range(&details.ip, 0, details.ip.len());
            let time = crate::discord::copy_range(&details.time, 0, details.time.len());
            proof {
                assert(user@ =~= details.user@);
                assert(ip@ =~= details.ip@);
                assert(time@ =~= details.time@);
            }
            self.details = Some(SshLoginDetails { user, ip, time });
            self.time = now;
            true
        } else {
            false
        }
    }
}

/// The two byte strings are equal.
fn bytes_eq(a: &Vec<u8>, b: &Vec<u8>) -> (r: bool)
    ensures
        r <==> a@ == b@,
{
    let n = a.len();
    if n != b.len() {
        return false;
    }
    let mut j: usize = 0;
    while j < n
        invariant
            n == a@.len(),
            n == b@.len(),
            j <= n,
            forall|t: int| 0 <= t < j ==> a@[t] == b@[t],
        decreases n - j,
    {
        if a[j] != b[j] {
            return false;
        }
        j += 1;
    }
    proof {
        assert(a@ =~= b@);
    }
    true
}

/// The SSH audit monitor: holds the configuration on behalf of the loop
/// that tails the log and feeds lines through the decisions above.
pub struct AuditMonitor {
    pub config: Arc<Config>,
}

impl AuditMonitor {
    /// A monitor over the given configuration.
    pub fn new(config: Arc<Config>) -> (r: Self)
        ensures
            r.config == config,
    {
        AuditMonitor { config }
    }
}

} // verus!
