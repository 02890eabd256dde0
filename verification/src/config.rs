//! Configuration of the system-metrics sample plugin, and the one piece of
//! real logic in it: decoding the embed colour from its hexadecimal text
//! form.

use vstd::prelude::*;
use vstd::utf8::encode_utf8;

verus! {

/// Configuration of the SSH login alerting side channel.
pub struct SshAlertsConfig {
    pub enabled: bool,
    pub log_path: String,
    pub ssh_alert_webhook_url: String,
}

/// Configuration of the metrics sample plugin, as read from its config
/// file. Plain data; the file I/O and decoding that fill it live at the
/// host's edge.
pub struct Config {
    pub webhook_url: String,
    pub embed_title: String,
    pub embed_color: String,
    pub update_interval: String,
    pub optional_message: String,
    pub user_tags: Vec<String>,
    pub show_memory: bool,
    pub memory_in_mb: bool,
    pub show_cpu: bool,
    pub show_network_usage: bool,
    pub network_interfaces: Vec<String>,
    pub optional_message_enabled: bool,
    pub user_tags_enabled: bool,
    pub update_previous_message: bool,
    pub message_id: Option<String>,
    pub show_disk_usage: bool,
    pub disk_drives: Vec<String>,
    pub disk_names: Vec<(String, String)>,
    pub ssh_alerts: SshAlertsConfig,
}

/// Why the embed colour text did not decode to a number.
#[derive(Clone, Copy, Debug, PartialEq, Eq, Structural)]
pub enum ColorError {
    Empty,
    InvalidDigit,
    Overflow,
}

/// The byte is a hexadecimal digit.
pub open spec fn is_hex_digit(b: u8) -> bool {
    ||| 48 <= b <= 57
    ||| 97 <= b <= 102
    ||| 65 <= b <= 70
}

/// The numeric value of a hexadecimal digit byte.
pub open spec fn hex_val(b: u8) -> int {
    if 48 <= b <= 57 {
        b - 48
    } else if 97 <= b <= 102 {
        b - 87
    } else if 65 <= b <= 70 {
        b - 55
    } else {
        0
    }
}

/// Scan hexadecimal digits left to right from position `i`, accumulator
/// `acc`: the first byte that is no digit wins over a later overflow, and
/// the first overflow wins over a later bad digit.
pub open spec fn hex_scan(s: Seq<u8>, i: int, acc: int) -> Result<u32, ColorError>
    decreases s.len() - i,
{
    if i < 0 || i >= s.len() {
        Ok(acc as u32)
    } else if !is_hex_digit(s[i]) {
        Err(ColorError::InvalidDigit)
    } else if acc * 16 + hex_val(s[i]) > u32::MAX {
        Err(ColorError::Overflow)
    } else {
        hex_scan(s, i + 1, acc * 16 + hex_val(s[i]))
    }
}

/// How many leading `#` bytes the colour text carries.
pub open spec fn leading_hashes(s: Seq<u8>) -> int
    decreases s.len(),
{
    if s.len() > 0 && s[0] == 35 {
        1 + leading_hashes(s.drop_first())
    } else {
        0
    }
}

/// The colour a text decodes to: leading `#` bytes are trimmed, one leading
/// `+` is allowed, and the rest must be hexadecimal digits whose value fits.
/// Empty text (after trimming) is its own error; a lone `+` is a bad digit.
pub open spec fn parse_color(s: Seq<u8>) -> Result<u32, ColorError> {
    let body = s.skip(leading_hashes(s));
    if body.len() == 0 {
        Err(ColorError::Empty)
    } else if body[0] == 43 {
        if body.len() == 1 {
            Err(ColorError::InvalidDigit)
        } else {
            hex_scan(body.skip(1), 0, 0)
        }
    } else {
        hex_scan(body, 0, 0)
    }
}

/// `k` is where the leading `#` bytes of `s` end.
proof fn lemma_leading_hashes_is(s: Seq<u8>, k: int)
    requires
        0 <= k <= s.len(),
        forall|j: int| 0 <= j < k ==> s[j] == 35,
        k < s.len() ==> s[k] != 35,
    ensures
        leading_hashes(s) == k,
    decreases s.len(),
{
    if s.len() > 0 && s[0] == 35 {
        assert(k >= 1);
        lemma_leading_hashes_is(s.drop_first(), k - 1);
    }
}

/// The exec hex digit decoder.
fn hex_digit(b: u8) -> (r: Option<u8>)
    ensures
        match r {
            Some(v) => is_hex_digit(b) && v == hex_val(b),
            None => !is_hex_digit(b),
        },
{
    if b >= 48 && b <= 57 {
        Some(b - 48)
    } else if b >= 97 && b <= 102 {
        Some(b - 87)
    } else if b >= 65 && b <= 70 {
        Some(b - 55)
    } else {
        None
    }
}

/// Decode a colour from its byte form: exactly `parse_color` of the bytes.
pub fn parse_color_bytes(s: &[u8]) -> (r: Result<u32, ColorError>)
    ensures
        r == parse_color(s@),
{
    let n = s.len();
    let mut i: usize = 0;
    while i < n && s[i] == 35
        invariant
            n == s@.len(),
            i <= n,
            forall|j: int| 0 <= j < i ==> s@[j] == 35,
        decreases n - i,
    {
        i += 1;
    }
    let ghost hashend = i as int;
    proof {
        lemma_leading_hashes_is(s@, hashend);
    }
    let ghost body = s@.skip(hashend);
    if i == n {
        return Err(ColorError::Empty);
    }
    proof {
        assert(body[0] == s@[hashend]);
    }
    if s[i] == 43 {
        i += 1;
        if i == n {
            proof {
                assert(body.len() == 1);
            }
            return Err(ColorError::InvalidDigit);
        }
        proof {
            assert(body.skip(1) =~= s@.skip(i as int));
        }
    }
    let ghost digits = s@.skip(i as int);
    let ghost start = i as int;
    proof {
        assert(hex_scan(digits, 0, 0) == parse_color(s@));
    }
    let mut acc: u32 = 0;
    while i < n
        invariant
            n == s@.len(),
            0 <= start <= i as int <= n,
            digits == s@.skip(start),
            hex_scan(digits, i - start, acc as int) == hex_scan(digits, 0, 0),
            hex_scan(digits, 0, 0) == parse_color(s@),
        decreases n - i,
    {
        let b = s[i];
        proof {
            assert(digits[i - start] == s@[i as int]);
        }
        let v = match hex_digit(b) {
            Some(v) => v,
            None => {
                return Err(ColorError::InvalidDigit);
            },
        };
        if acc > (u32::MAX - v as u32) / 16 {
            proof {
                assert(acc * 16 + hex_val(digits[i - start]) > u32::MAX) by (nonlinear_arith)
                    requires
                        acc > (u32::MAX - v as u32) / 16,
                        u32::MAX == (u32::MAX - v as u32) / 16 * 16 + ((u32::MAX - v as u32)
                            % 16) + v,
                        0 <= (u32::MAX - v as u32) % 16 < 16,
                        hex_val(digits[i - start]) == v as int,
                ;
            }
            return Err(ColorError::Overflow);
        }
        proof {
            assert(acc * 16 + v <= u32::MAX) by (nonlinear_arith)
                requires
                    acc <= (u32::MAX - v as u32) / 16,
                    u32::MAX == (u32::MAX - v as u32) / 16 * 16 + ((u32::MAX - v as u32) % 16)
                        + v,
                    0 <= (u32::MAX - v as u32) % 16 < 16,
            ;
        }
        acc = acc * 16 + v as u32;
        i += 1;
    }
    Ok(acc)
}

impl Config {
    /// The embed colour this configuration names: its `embed_color` text,
    /// leading `#` trimmed, decoded as a hexadecimal number.
    pub fn get_embed_color(&self) -> (r: Result<u32, ColorError>)
        ensures
            r == parse_color(encode_utf8(self.embed_color@)),
    {
        parse_color_bytes(self.embed_color.as_str().as_bytes())
    }
}

} // verus!
