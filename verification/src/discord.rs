//! Pure logic of the webhook notification layer: its configuration, the
//! per-severity colour and emoji tables, and the splitting of long metadata
//! text into bounded chunks.

use crate::logging::Level;
use vstd::prelude::*;

verus! {

/// Configuration of the webhook notifier: where to deliver messages.
pub struct Config {
    pub webhook_url: String,
}

impl Config {
    /// A configuration delivering to the given webhook address.
    pub fn new(webhook_url: String) -> (r: Self)
        ensures
            r.webhook_url == webhook_url,
    {
        Config { webhook_url }
    }
}

/// The message-building layer: holds the notifier configuration on behalf
/// of the message factory the host installs around it.
pub struct Layer {
    pub config: Config,
}

impl Layer {
    /// A layer delivering through the given configuration.
    pub fn new(config: Config) -> (r: Self)
        ensures
            r.config == config,
    {
        Layer { config }
    }
}

/// The embed colour for each severity.
pub open spec fn color_spec(level: Level) -> i32 {
    match level {
        Level::Debug | Level::Trace => 1752220,
        Level::Info => 5763719,
        Level::Warn => 15105570,
        Level::Error => 15548997,
    }
}

/// The embed colour used for a message of the given severity.
pub fn color_from_level(level: Level) -> (r: i32)
    ensures
        r == color_spec(level),
{
    match level {
        Level::Debug | Level::Trace => 1752220,
        Level::Info => 5763719,
        Level::Warn => 15105570,
        Level::Error => 15548997,
    }
}

/// The emoji marking a message of the given severity.
pub fn emoji_from_level(level: Level) -> (r: &'static str)
    ensures
        level is Trace ==> r@ == ":mag:"@,
        level is Debug ==> r@ == ":bug:"@,
        level is Info ==> r@ == ":information_source:"@,
        level is Warn ==> r@ == ":warning:"@,
        level is Error ==> r@ == ":x:"@,
{
    match level {
        Level::Trace => ":mag:",
        Level::Debug => ":bug:",
        Level::Info => ":information_source:",
        Level::Warn => ":warning:",
        Level::Error => ":x:",
    }
}

/// Who a message of the given severity calls out: everyone for errors,
/// the present for warnings, nobody otherwise.
pub fn mention_from_level(level: Level) -> (r: Option<&'static str>)
    ensures
        match r {
            Some(m) => (level is Error && m@ == "@everyone"@) || (level is Warn && m@
                == "@here"@),
            None => !(level is Error) && !(level is Warn),
        },
{
    match level {
        Level::Error => Some("@everyone"),
        Level::Warn => Some("@here"),
        _ => None,
    }
}

/// How many chunks of at most `max` bytes the text splits into: one per
/// full block, plus one for a remainder.
pub open spec fn chunk_count(len: int, max: int) -> int {
    len / max + if len % max == 0 {
        0int
    } else {
        1int
    }
}

/// Chunk `i` of the text: `max` bytes starting at `i * max`, or whatever
/// remains.
pub open spec fn chunk_at(s: Seq<u8>, max: int, i: int) -> Seq<u8> {
    s.subrange(
        i * max,
        if s.len() - i * max < max {
            s.len() as int
        } else {
            i * max + max
        },
    )
}

/// Bytes `start..end` of the text, as an owned value.
pub(crate) fn copy_range(s: &Vec<u8>, start: usize, end: usize) -> (r: Vec<u8>)
    requires
        start <= end,
        end <= s@.len(),
    ensures
        r@ == s@.subrange(start as int, end as int),
{
    let mut r: Vec<u8> = Vec::new();
    let mut j = start;
    while j < end
        invariant
            start <= j <= end,
            end <= s@.len(),
            r@ == s@.subrange(start as int, j as int),
        decreases end - j,
    {
        r.push(s[j]);
        proof {
            assert(r@ =~= s@.subrange(start as int, j + 1));
        }
        j += 1;
    }
    r
}

/// Split the text into consecutive chunks of exactly `max_size` bytes, the
/// last chunk holding whatever remains. Callers hand in non-empty text and
/// a positive chunk size.
pub fn into_chunks(s: &Vec<u8>, max_size: usize) -> (r: Vec<Vec<u8>>)
    requires
        max_size >= 1,
        s@.len() >= 1,
    ensures
        r@.len() == chunk_count(s@.len() as int, max_size as int),
        forall|i: int| 0 <= i < r@.len() ==> (#[trigger] r@[i])@ == chunk_at(
            s@,
            max_size as int,
            i,
        ),
{
    let len = s.len();
    let ghost l = len as int;
    let ghost m = max_size as int;
    let ghost q = l / m;
    let ghost rm = l % m;
    proof {
        vstd::arithmetic::div_mod::lemma_fundamental_div_mod(l, m);
        vstd::arithmetic::div_mod::lemma_mod_bound(l, m);
        vstd::arithmetic::div_mod::lemma_div_pos_is_pos(l, m);
        assert(l == m * q + rm);
        assert(rm != 0 ==> q + 1 <= l) by (nonlinear_arith)
            requires
                l == m * q + rm,
                0 <= rm < m,
                1 <= m,
                0 <= q,
                1 <= l,
        ;
    }
    let chunk_n = len / max_size + if len % max_size != 0 {
        1
    } else {
        0
    };
    let ghost n = chunk_n as int;
    proof {
        assert(n == chunk_count(l, m));
        assert((n - 1) * m < l && (n - 1) * m + m >= l) by (nonlinear_arith)
            requires
                l == m * q + rm,
                0 <= rm < m,
                1 <= m,
                1 <= l,
                n == q + if rm == 0 {
                    0int
                } else {
                    1int
                },
        ;
    }
    let mut chunks: Vec<Vec<u8>> = Vec::new();
    let mut i: usize = 0;
    while i < chunk_n
        invariant
            l == s@.len(),
            l == len as int,
            m == max_size as int,
            n == chunk_n as int,
            1 <= m,
            1 <= l,
            (n - 1) * m < l,
            i <= chunk_n,
            chunks@.len() == i,
            forall|j: int| 0 <= j < i ==> (#[trigger] chunks@[j])@ == chunk_at(s@, m, j),
        decreases chunk_n - i,
    {
        proof {
            assert((i as int) * m < l) by (nonlinear_arith)
                requires
                    0 <= i as int <= n - 1,
                    (n - 1) * m < l,
                    1 <= m,
            ;
        }
        let start = i * max_size;
        let end = if len - start > max_size {
            start + max_size
        } else {
            len
        };
        let piece = copy_range(s, start, end);
        proof {
            assert(piece@ == chunk_at(s@, m, i as int));
        }
        chunks.push(piece);
        i += 1;
    }
    chunks
}

} // verus!
