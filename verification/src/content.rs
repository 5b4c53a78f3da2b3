//! Content reconciliation primitives: the body hash used for change detection,
//! the drift test (balls wins on content), and the one inward exception (a
//! GitHub close closes the live task).

use vstd::prelude::*;
use vstd::utf8::encode_utf8;
use crate::config::CloseMirror;
use crate::text::{chars_eq, chars_of, string_of};

verus! {

broadcast use vstd::string::group_string_axioms;

/// The FNV-1a 64-bit offset basis.
pub const FNV_OFFSET: u64 = 0xcbf2_9ce4_8422_2325;

/// The FNV-1a 64-bit prime.
pub const FNV_PRIME: u64 = 0x100_0000_01b3;

/// FNV-1a 64 over `bytes`: xor each byte in, then multiply (wrapping) by the prime.
pub open spec fn fnv1a(bytes: Seq<u8>) -> u64
    decreases bytes.len(),
{
    if bytes.len() == 0 {
        FNV_OFFSET
    } else {
        (fnv1a(bytes.drop_last()) ^ (bytes.last() as u64)).wrapping_mul(FNV_PRIME)
    }
}

/// The lowercase hex digits.
pub open spec fn hex_digits() -> Seq<char> {
    seq!['0', '1', '2', '3', '4', '5', '6', '7', '8', '9', 'a', 'b', 'c', 'd', 'e', 'f']
}

/// The last `n` hex digits of `h`, most significant first (zero-padded).
pub open spec fn hex_n(h: nat, n: nat) -> Seq<char>
    decreases n,
{
    if n == 0 {
        Seq::empty()
    } else {
        hex_n(h / 16, (n - 1) as nat).push(hex_digits()[(h % 16) as int])
    }
}

/// The body hash: FNV-1a 64 of the UTF-8 bytes, as 16 lowercase hex digits.
pub open spec fn body_hash_spec(s: Seq<char>) -> Seq<char> {
    hex_n(fnv1a(encode_utf8(s)) as nat, 16)
}

fn hex_char(d: u64) -> (c: char)
    requires
        d < 16,
    ensures
        c == hex_digits()[d as int],
{
    if d < 8 {
        if d < 4 {
            if d == 0 {
                '0'
            } else if d == 1 {
                '1'
            } else if d == 2 {
                '2'
            } else {
                '3'
            }
        } else if d == 4 {
            '4'
        } else if d == 5 {
            '5'
        } else if d == 6 {
            '6'
        } else {
            '7'
        }
    } else if d < 12 {
        if d == 8 {
            '8'
        } else if d == 9 {
            '9'
        } else if d == 10 {
            'a'
        } else {
            'b'
        }
    } else if d == 12 {
        'c'
    } else if d == 13 {
        'd'
    } else if d == 14 {
        'e'
    } else {
        'f'
    }
}

fn hex_chars(h: u64, n: usize) -> (v: Vec<char>)
    ensures
        v@ == hex_n(h as nat, n as nat),
    decreases n,
{
    if n == 0 {
        Vec::new()
    } else {
        let mut v = hex_chars(h / 16, n - 1);
        v.push(hex_char(h % 16));
        v
    }
}

pub proof fn lemma_hex_n_len(h: nat, n: nat)
    ensures
        hex_n(h, n).len() == n,
    decreases n,
{
    if n > 0 {
        lemma_hex_n_len(h / 16, (n - 1) as nat);
    }
}

/// FNV-1a 64-bit hex digest of `s`'s UTF-8 bytes. Deterministic and
/// change-detection only: a collision's worst case is one redundant PATCH.
pub fn body_hash(s: &str) -> (r: String)
    ensures
        r@ == body_hash_spec(s@),
        r@.len() == 16,
{
    let bytes = s.as_bytes();
    let mut h: u64 = FNV_OFFSET;
    for i in 0..bytes.len()
        invariant
            bytes@ == encode_utf8(s@),
            h == fnv1a(bytes@.take(i as int)),
    {
        assert(bytes@.take(i + 1).drop_last() == bytes@.take(i as int));
        h = (h ^ (bytes[i] as u64)).wrapping_mul(FNV_PRIME);
    }
    assert(bytes@.take(bytes.len() as int) == bytes@);
    proof {
        lemma_hex_n_len(h as nat, 16);
    }
    string_of(&hex_chars(h, 16))
}

/// Whether GitHub's content drifts from balls': the bare titles differ or the
/// body hashes differ.
pub open spec fn differs_spec(
    gh_bare_title: Seq<char>,
    gh_body: Seq<char>,
    balls_title: Seq<char>,
    balls_body: Seq<char>,
) -> bool {
    gh_bare_title != balls_title || body_hash_spec(gh_body) != body_hash_spec(balls_body)
}

/// Does GitHub's content differ from balls'? `true` means the issue should be
/// re-PATCHed to match balls.
pub fn differs(gh_bare_title: &str, gh_body: &str, balls_title: &str, balls_body: &str) -> (r:
    bool)
    ensures
        r == differs_spec(gh_bare_title@, gh_body@, balls_title@, balls_body@),
{
    let t1 = chars_of(gh_bare_title);
    let t2 = chars_of(balls_title);
    if !chars_eq(&t1, &t2) {
        return true;
    }
    let h1 = body_hash(gh_body);
    let h2 = body_hash(balls_body);
    !chars_eq(&chars_of(h1.as_str()), &chars_of(h2.as_str()))
}

/// Whether a GitHub-closed issue closes the live balls task.
pub open spec fn mirror_close_spec(gh_closed: bool, balls_live: bool, policy: CloseMirror) -> bool {
    policy != CloseMirror::Off && gh_closed && balls_live
}

/// The one inward content exception: `Off` never closes; otherwise a GitHub
/// close beats a live task. A GitHub-open issue never reopens a task.
pub fn mirror_close(gh_closed: bool, balls_live: bool, policy: CloseMirror) -> (r: bool)
    ensures
        r == mirror_close_spec(gh_closed, balls_live, policy),
{
    policy != CloseMirror::Off && gh_closed && balls_live
}

/// Identical content never reads as drift, whatever the text.
pub proof fn law_identical_content_does_not_differ(title: Seq<char>, body: Seq<char>)
    ensures
        !differs_spec(title, body, title, body),
{
}

} // verus!
