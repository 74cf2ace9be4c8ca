//! Group identifiers and the on-disk layout derived from them.

use vstd::prelude::*;
use vstd::string::*;
use vstd::utf8::*;
use crate::messages::ErrorReply;
use crate::reply::invalid_group_id;

verus! {

/// A character that may appear in a group identifier: an ASCII letter or digit,
/// `-` or `_`.
pub open spec fn is_group_id_char(c: char) -> bool {
    ||| ('a' <= c && c <= 'z')
    ||| ('A' <= c && c <= 'Z')
    ||| ('0' <= c && c <= '9')
    ||| c == '-'
    ||| c == '_'
}

/// A group identifier is accepted when it is non-empty, at most 64 bytes long and
/// made only of ASCII letters, digits, `-` and `_`.
pub open spec fn is_valid_group_id(s: Seq<char>) -> bool {
    &&& 0 < s.len() <= 64
    &&& forall|i: int| 0 <= i < s.len() ==> is_group_id_char(#[trigger] s[i])
}

/// Every character of a valid group identifier is ASCII.
pub proof fn lemma_valid_group_id_is_ascii(s: Seq<char>)
    requires
        forall|i: int| 0 <= i < s.len() ==> is_group_id_char(#[trigger] s[i]),
    ensures
        is_ascii_chars(s),
{
}

fn group_id_char(c: char) -> (b: bool)
    ensures
        b == is_group_id_char(c),
{
    ('a' <= c && c <= 'z') || ('A' <= c && c <= 'Z') || ('0' <= c && c <= '9') || c == '-'
        || c == '_'
}

/// Checks a group identifier taken from a request path: accepted ones pass, others
/// are answered with 400 `invalid group id`.
pub fn validate_group_id(group_id: &str) -> (r: Result<(), ErrorReply>)
    ensures
        r is Ok <==> is_valid_group_id(group_id@),
        r matches Err(e) ==> e.status == 400 && e.message@ == "invalid group id"@,
{
    if is_group_id(group_id) {
        Ok(())
    } else {
        Err(invalid_group_id())
    }
}

/// Whether `group_id` is a valid group identifier.
///
/// The length limit counts bytes; since every accepted character is ASCII, that is
/// the same as counting characters.
pub fn is_group_id(group_id: &str) -> (valid: bool)
    ensures
        valid == is_valid_group_id(group_id@),
{
    broadcast use vstd::string::group_string_axioms;

    if group_id.is_empty() || group_id.len() > 64 {
        proof {
            if group_id@.len() > 0 && is_valid_group_id(group_id@) {
                lemma_valid_group_id_is_ascii(group_id@);
                is_ascii_chars_encode_utf8(group_id@);
            }
        }
        return false;
    }
    let n = group_id.unicode_len();
    let mut i: usize = 0;
    while i < n
        invariant
            n == group_id@.len(),
            i <= n,
            forall|j: int| 0 <= j < i ==> is_group_id_char(#[trigger] group_id@[j]),
        decreases n - i,
    {
        let c = group_id.get_char(i);
        if !group_id_char(c) {
            return false;
        }
        i = i + 1;
    }
    proof {
        lemma_valid_group_id_is_ascii(group_id@);
        is_ascii_chars_encode_utf8(group_id@);
    }
    true
}

/// The number of leading bytes of a group identifier that name its shard
/// directory: two, or fewer for a shorter identifier.
pub open spec fn shard_len(byte_len: nat) -> nat {
    if byte_len < 2 {
        byte_len
    } else {
        2
    }
}

/// The shard directory of a group: the first two bytes of its identifier (all of
/// it when shorter). Databases live under `<data root>/<shard>/<group>/`, so that
/// no single directory collects every group.
pub fn shard_of(group_id: &str) -> (shard: String)
    requires
        group_id.spec_bytes().len() <= usize::MAX,
        is_char_boundary(group_id.spec_bytes(), shard_len(group_id.spec_bytes().len()) as int),
    ensures
        encode_utf8(shard@) == group_id.spec_bytes().take(shard_len(group_id.spec_bytes().len()) as int),
        is_valid_group_id(group_id@) ==> shard@ == group_id@.take(
            if group_id@.len() < 2 { group_id@.len() as int } else { 2 },
        ),
{
    let n = group_id.len();
    let mid: usize = if n < 2 {
        n
    } else {
        2
    };
    assert(n as nat == group_id.spec_bytes().len());
    assert(mid as nat == shard_len(group_id.spec_bytes().len()));
    let (head, _tail) = group_id.split_at(mid);
    let shard = String::from_str(head);
    assert(head.spec_bytes() =~= group_id.spec_bytes().subrange(0, mid as int));
    assert(head.spec_bytes() =~= group_id.spec_bytes().take(mid as int));
    assert(shard@ == head@);
    proof {
        if is_valid_group_id(group_id@) {
            lemma_valid_group_id_shard(group_id@, shard@);
        }
    }
    shard
}

/// A valid group identifier is as many bytes long as it has characters, and its
/// shard length falls on a character boundary.
pub proof fn lemma_valid_group_id_bytes(s: Seq<char>)
    requires
        is_valid_group_id(s),
    ensures
        encode_utf8(s).len() == s.len(),
        encode_utf8(s).len() <= 64,
        is_char_boundary(encode_utf8(s), shard_len(encode_utf8(s).len()) as int),
{
    lemma_valid_group_id_is_ascii(s);
    is_ascii_chars_encode_utf8(s);
    let b = encode_utf8(s);
    encode_utf8_valid_utf8(s);
    is_char_boundary_start_end_of_seq(b);
    let k = shard_len(b.len()) as int;
    if k < b.len() {
        is_char_boundary_iff_not_is_continuation_byte(b, k);
        assert(s[k] as u8 == b[k]);
        assert((s[k] as nat) < 128) by {
            assert(is_group_id_char(s[k]));
        }
    }
}

/// For a valid group identifier the shard is its first (at most two) characters.
pub proof fn lemma_valid_group_id_shard(s: Seq<char>, shard: Seq<char>)
    requires
        is_valid_group_id(s),
        encode_utf8(shard) == encode_utf8(s).take(shard_len(encode_utf8(s).len()) as int),
    ensures
        shard == s.take(shard_len(s.len()) as int),
{
    lemma_valid_group_id_bytes(s);
    lemma_valid_group_id_is_ascii(s);
    let k = shard_len(s.len()) as int;
    let t = s.take(k);
    assert(is_ascii_chars(t));
    is_ascii_chars_encode_utf8(t);
    is_ascii_chars_encode_utf8(s);
    assert(encode_utf8(t) =~= encode_utf8(s).take(k));
    encode_utf8_decode_utf8(t);
    encode_utf8_decode_utf8(shard);
}

/// The name of the group-server program next to the supervisor's own.
pub fn group_binary_file_name(windows: bool) -> (name: String)
    ensures
        name@ == (if windows { "gameforge-group-server.exe"@ } else { "gameforge-group-server"@ }),
{
    if windows {
        String::from_str("gameforge-group-server.exe")
    } else {
        String::from_str("gameforge-group-server")
    }
}

/// A character is accepted in a group identifier exactly when it is an ASCII
/// digit (code 48 to 57), an ASCII upper-case letter (65 to 90), an ASCII
/// lower-case letter (97 to 122), `-` (45) or `_` (95).
pub proof fn law_group_id_chars(c: char)
    ensures
        is_group_id_char(c) <==> {
            let u = c as u32;
            ||| 48 <= u <= 57
            ||| 65 <= u <= 90
            ||| 97 <= u <= 122
            ||| u == 45
            ||| u == 95
        },
{
}

/// A group identifier is accepted exactly when it has 1 to 64 characters, each an
/// ASCII letter, an ASCII digit, `-` or `_`.
pub proof fn law_valid_group_ids(s: Seq<char>)
    ensures
        is_valid_group_id(s) <==> {
            &&& 1 <= s.len() <= 64
            &&& forall|i: int|
                0 <= i < s.len() ==> {
                    let u = #[trigger] s[i] as u32;
                    ||| 48 <= u <= 57
                    ||| 65 <= u <= 90
                    ||| 97 <= u <= 122
                    ||| u == 45
                    ||| u == 95
                }
        },
{
    assert forall|i: int| 0 <= i < s.len() implies (is_group_id_char(s[i]) <==> {
        let u = s[i] as u32;
        ||| 48 <= u <= 57
        ||| 65 <= u <= 90
        ||| 97 <= u <= 122
        ||| u == 45
        ||| u == 95
    }) by {
        law_group_id_chars(s[i]);
    }
}

/// The shard of a group is at most two bytes long, and exactly two for any
/// identifier of two bytes or more.
pub proof fn law_shard_is_two_bytes(byte_len: nat)
    ensures
        byte_len >= 2 ==> shard_len(byte_len) == 2,
        byte_len < 2 ==> shard_len(byte_len) == byte_len,
{
}

/// The shard of a valid group identifier is its first two characters (the whole
/// identifier when it is a single character): it is a prefix of the identifier,
/// two characters long whenever the identifier has at least two.
pub proof fn law_shard_of_valid_group(s: Seq<char>, shard: Seq<char>)
    requires
        is_valid_group_id(s),
        encode_utf8(shard) == encode_utf8(s).take(shard_len(encode_utf8(s).len()) as int),
    ensures
        s.len() >= 2 ==> shard.len() == 2 && shard[0] == s[0] && shard[1] == s[1],
        s.len() < 2 ==> shard == s,
{
    lemma_valid_group_id_shard(s, shard);
    if s.len() < 2 {
        assert(s.take(s.len() as int) =~= s);
    }
}

} // verus!
