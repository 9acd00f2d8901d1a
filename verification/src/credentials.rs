//! Credentials for MQTT accounts: random passwords and user names drawn from
//! an alphanumeric character set, PBKDF2 password hashes in the form the
//! Mosquitto authentication plugin reads, and the database password kept in
//! a file.

use vstd::prelude::*;
use vstd::string::*;

use rand::rngs::StdRng;
use rand::seq::SliceRandom;
use rand::SeedableRng;
use ring::rand::SecureRandom;

verus! {

/// The generator passwords and user names are drawn with.
#[verifier::external_type_specification]
#[verifier::external_body]
pub struct ExStdRng(rand::rngs::StdRng);

/// Length in bytes of a derived PBKDF2 key.
pub const KEY_LEN: usize = 64;

/// Length in bytes of the random salt of a hash.
pub const SALT_LEN: usize = 12;

/// Length of a generated password.
pub const PASS_LEN: usize = 16;

/// Length of a generated user name.
pub const USERNAME_LEN: usize = 10;

/// Number of PBKDF2 iterations.
pub const PBKDF2_ITERATIONS: u32 = 100000;

/// Where the database password is kept when the settings leave it empty.
pub const DB_PASSWORD_FILE_LOCATION: &'static str = "/etc/BlackBox/postgresql_bb.creds";

/// The characters passwords and user names are drawn from: `A`-`Z`,
/// `a`-`z` and `0`-`9`.
pub open spec fn is_charset_byte(b: u8) -> bool {
    (65 <= b <= 90) || (97 <= b <= 122) || (48 <= b <= 57)
}

/// A character of the generated credentials' character set.
pub open spec fn is_charset_char(c: char) -> bool {
    ((c as int) >= 65 && (c as int) <= 90) || ((c as int) >= 97 && (c as int) <= 122) || ((
    c as int) >= 48 && (c as int) <= 57)
}

/// A string of `len` characters, each from the character set.
pub open spec fn is_charset_string(s: Seq<char>, len: nat) -> bool {
    s.len() == len && forall|i: int| 0 <= i < s.len() ==> is_charset_char(#[trigger] s[i])
}

/// The character set as bytes: upper-case letters, lower-case letters, digits.
pub fn charset() -> (cs: Vec<u8>)
    ensures
        cs@.len() == 62,
        forall|i: int| 0 <= i < cs@.len() ==> is_charset_byte(#[trigger] cs@[i]),
{
    let mut cs: Vec<u8> = Vec::new();
    let mut b: u8 = 65;
    while b <= 90
        invariant
            65 <= b <= 91,
            cs@.len() == b - 65,
            forall|i: int| 0 <= i < cs@.len() ==> is_charset_byte(#[trigger] cs@[i]),
        decreases 91 - b,
    {
        cs.push(b);
        b = b + 1;
    }
    b = 97;
    while b <= 122
        invariant
            97 <= b <= 123,
            cs@.len() == 26 + (b - 97),
            forall|i: int| 0 <= i < cs@.len() ==> is_charset_byte(#[trigger] cs@[i]),
        decreases 123 - b,
    {
        cs.push(b);
        b = b + 1;
    }
    b = 48;
    while b <= 57
        invariant
            48 <= b <= 58,
            cs@.len() == 52 + (b - 48),
            forall|i: int| 0 <= i < cs@.len() ==> is_charset_byte(#[trigger] cs@[i]),
        decreases 58 - b,
    {
        cs.push(b);
        b = b + 1;
    }
    cs
}

/// Calls `rand::rngs::StdRng::from_rng` with `rand::rngs::OsRng`: a
/// generator seeded from the operating system's entropy source. Its source
/// returns the entropy source's failure as an error, which becomes `None`;
/// nothing is promised of the seed.
#[verifier::external_body]
fn seeded_rng() -> (rng: Option<StdRng>) {
    StdRng::from_rng(rand::rngs::OsRng).ok()
}

/// Calls `rand::seq::SliceRandom::choose` on `items` with `rng`. As its
/// source shows, it gives `None` for an empty slice and otherwise one of
/// the slice's elements; which one is left to chance. Drawing from a
/// `StdRng` neither fails nor panics.
#[verifier::external_body]
fn choose_byte(items: &[u8], rng: &mut StdRng) -> (r: Option<u8>)
    ensures
        r is None <==> items@.len() == 0,
        r is Some ==> items@.contains(r.unwrap()),
{
    items.choose(rng).copied()
}

/// Calls `String::from_utf8` on bytes that are all ASCII: by its
/// documentation it succeeds on valid UTF-8, and each ASCII byte is the
/// character with that code.
#[verifier::external_body]
fn ascii_to_string(bytes: Vec<u8>) -> (s: String)
    requires
        forall|i: int| 0 <= i < bytes@.len() ==> #[trigger] bytes@[i] < 128,
    ensures
        s@ == bytes@.map_values(|b: u8| b as char),
{
    String::from_utf8(bytes).unwrap()
}

/// A string of `len` characters each chosen at random from the character
/// set; `None` when the system's entropy source failed.
fn random_charset_string(len: usize) -> (s: Option<String>)
    ensures
        s matches Some(s) ==> is_charset_string(s@, len as nat),
{
    let mut rng = match seeded_rng() {
        Some(r) => r,
        None => {
            return None;
        },
    };
    let cs = charset();
    let mut bytes: Vec<u8> = Vec::new();
    let mut i: usize = 0;
    while i < len
        invariant
            i <= len,
            cs@.len() == 62,
            forall|k: int| 0 <= k < cs@.len() ==> is_charset_byte(#[trigger] cs@[k]),
            bytes@.len() == i,
            forall|k: int| 0 <= k < bytes@.len() ==> is_charset_byte(#[trigger] bytes@[k]),
        decreases len - i,
    {
        let c = choose_byte(cs.as_slice(), &mut rng);
        match c {
            Some(b) => {
                let ghost k = choose|k: int| 0 <= k < cs@.len() && cs@[k] == b;
                assert(is_charset_byte(cs@[k]));
                bytes.push(b);
            },
            None => {
                assert(false);
            },
        }
        i = i + 1;
    }
    let ghost bs = bytes@;
    let s = ascii_to_string(bytes);
    assert forall|k: int| 0 <= k < s@.len() implies is_charset_char(#[trigger] s@[k]) by {
        assert(is_charset_byte(bs[k]));
        assert(s@[k] == bs[k] as char);
    }
    Some(s)
}

/// Generates a random password of `PASS_LEN` characters from the character
/// set; `None` when the system's entropy source failed.
pub fn generate_mqtt_password() -> (password: Option<String>)
    ensures
        password matches Some(p) ==> is_charset_string(p@, PASS_LEN as nat),
{
    random_charset_string(PASS_LEN)
}

/// Generates a random user name of `USERNAME_LEN` characters from the
/// character set, used for MQTT accounts; `None` when the system's entropy
/// source failed.
pub fn generate_username() -> (username: Option<String>)
    ensures
        username matches Some(u) ==> is_charset_string(u@, USERNAME_LEN as nat),
{
    random_charset_string(USERNAME_LEN)
}

/// The key that PBKDF2 with HMAC-SHA512 derives, `key_len` bytes long.
pub uninterp spec fn pbkdf2_hmac_sha512(
    iterations: u32,
    salt: Seq<u8>,
    secret: Seq<u8>,
    key_len: nat,
) -> Seq<u8>;

/// The base64 digit of a six-bit value (RFC 4648, section 4): `A`-`Z`,
/// `a`-`z`, `0`-`9`, `+`, `/`.
pub open spec fn base64_digit(v: int) -> char {
    if v < 26 {
        (65 + v) as char
    } else if v < 52 {
        (97 + v - 26) as char
    } else if v < 62 {
        (48 + v - 52) as char
    } else if v == 62 {
        '+'
    } else {
        '/'
    }
}

/// The padded base64 encoding (RFC 4648, section 4) of some bytes: each
/// group of three bytes, read as 24 bits, gives four digits of six bits; a
/// last group of one or two bytes is completed with zero bits and the
/// missing digits are written `=`.
pub open spec fn base64_padded(bytes: Seq<u8>) -> Seq<char>
    decreases bytes.len(),
{
    if bytes.len() == 0 {
        Seq::empty()
    } else if bytes.len() == 1 {
        let b0 = bytes[0] as int;
        seq![base64_digit(b0 / 4), base64_digit((b0 % 4) * 16), '=', '=']
    } else if bytes.len() == 2 {
        let b0 = bytes[0] as int;
        let b1 = bytes[1] as int;
        seq![base64_digit(b0 / 4), base64_digit((b0 % 4) * 16 + b1 / 16), base64_digit((b1 % 16) * 4), '=']
    } else {
        let b0 = bytes[0] as int;
        let b1 = bytes[1] as int;
        let b2 = bytes[2] as int;
        seq![
            base64_digit(b0 / 4),
            base64_digit((b0 % 4) * 16 + b1 / 16),
            base64_digit((b1 % 16) * 4 + b2 / 64),
            base64_digit(b2 % 64),
        ] + base64_padded(bytes.skip(3))
    }
}

/// Base64 turns every started group of three bytes into four characters.
pub proof fn lemma_base64_len(bytes: Seq<u8>)
    ensures
        base64_padded(bytes).len() == 4 * ((bytes.len() + 2) / 3),
    decreases bytes.len(),
{
    if bytes.len() >= 3 {
        lemma_base64_len(bytes.skip(3));
        assert((bytes.len() + 2) / 3 == (bytes.skip(3).len() + 2) / 3 + 1);
    }
}

/// Calls `ring::rand::SystemRandom::fill` on a buffer of `len` bytes.
/// What it fills in is left to chance; on success the buffer keeps its
/// length, and `None` stands for the generator's error.
#[verifier::external_body]
fn random_bytes(len: usize) -> (bytes: Option<Vec<u8>>)
    ensures
        bytes matches Some(b) ==> b@.len() == len,
{
    let mut bytes = vec![0u8; len];
    match ring::rand::SystemRandom::new().fill(&mut bytes) {
        Ok(()) => Some(bytes),
        Err(_) => None,
    }
}

/// Calls `ring::pbkdf2::derive` with `PBKDF2_HMAC_SHA512` on an output
/// buffer of `key_len` bytes. The derived key is named, not stated; `derive`
/// fills the buffer without changing its length. It panics only for an
/// output longer than `u32::MAX` digests, which `requires` rules out.
#[verifier::external_body]
fn pbkdf2_derive(iterations: u32, salt: &[u8], secret: &[u8], key_len: usize) -> (key: Vec<u8>)
    requires
        iterations > 0,
        key_len <= u32::MAX,
    ensures
        key@ == pbkdf2_hmac_sha512(iterations, salt@, secret@, key_len as nat),
        key@.len() == key_len,
{
    let mut key = vec![0u8; key_len];
    ring::pbkdf2::derive(
        ring::pbkdf2::PBKDF2_HMAC_SHA512,
        std::num::NonZeroU32::new(iterations).unwrap(),
        salt,
        secret,
        &mut key,
    );
    key
}

/// Calls `data_encoding::BASE64.encode`: as its documentation says, the
/// padded base64 text of the input with the standard alphabet. It may panic
/// for inputs longer than `usize::MAX / 512` bytes, which `requires` rules
/// out.
#[verifier::external_body]
fn base64_encode(bytes: &[u8]) -> (text: String)
    requires
        bytes@.len() <= usize::MAX / 512,
    ensures
        text@ == base64_padded(bytes@),
{
    data_encoding::BASE64.encode(bytes)
}

/// The hash text the Mosquitto authentication plugin reads:
/// `PBKDF2$sha512$<iterations>$<base64 salt>$<base64 key>`.
pub open spec fn mqtt_hash_text(salt: Seq<u8>, password: Seq<u8>) -> Seq<char> {
    "PBKDF2$sha512$100000$"@ + base64_padded(salt) + "$"@ + base64_padded(
        pbkdf2_hmac_sha512(PBKDF2_ITERATIONS, salt, password, KEY_LEN as nat),
    )
}

/// Hashes `password` with the given salt: PBKDF2-HMAC-SHA512 with
/// `PBKDF2_ITERATIONS` iterations and a key of `KEY_LEN` bytes.
pub fn mqtt_hash_with_salt(password: &str, salt: &[u8]) -> (hash: String)
    requires
        salt@.len() <= usize::MAX / 512,
    ensures
        hash@ == mqtt_hash_text(salt@, password.spec_bytes()),
        hash@.len() == 110 + 4 * ((salt@.len() + 2) / 3),
        salt@.len() == SALT_LEN ==> hash@.len() == 126,
{
    let key = pbkdf2_derive(PBKDF2_ITERATIONS, salt, password.as_bytes(), KEY_LEN);
    let mut hash = String::from_str("PBKDF2$sha512$100000$");
    hash.append(base64_encode(salt).as_str());
    hash.append("$");
    hash.append(base64_encode(key.as_slice()).as_str());
    proof {
        reveal_strlit("PBKDF2$sha512$100000$");
        reveal_strlit("$");
        lemma_base64_len(salt@);
        lemma_base64_len(key@);
    }
    hash
}

/// Hashes `password` for the Mosquitto broker with a fresh random salt of
/// `SALT_LEN` bytes; `None` when the system's random generator fails.
pub fn generate_mqtt_hash(password: &str) -> (hash: Option<String>)
    ensures
        hash matches Some(h) ==> exists|salt: Seq<u8>|
            salt.len() == SALT_LEN && h@ == #[trigger] mqtt_hash_text(salt, password.spec_bytes()),
        hash matches Some(h) ==> h@.len() == 126,
{
    match random_bytes(SALT_LEN) {
        Some(salt) => {
            let h = mqtt_hash_with_salt(password, salt.as_slice());
            assert(h@ == mqtt_hash_text(salt@, password.spec_bytes()));
            Some(h)
        },
        None => None,
    }
}

/// White space as `char::is_whitespace` has it: the Unicode `White_Space`
/// property.
pub open spec fn is_white_space(c: char) -> bool {
    let v = c as int;
    (9 <= v <= 13) || v == 32 || v == 0x85 || v == 0xA0 || v == 0x1680 || (0x2000 <= v <= 0x200A)
        || v == 0x2028 || v == 0x2029 || v == 0x202F || v == 0x205F || v == 0x3000
}

/// `s` without leading and trailing white space.
pub open spec fn trim_seq(s: Seq<char>) -> Seq<char>
    decreases s.len(),
{
    if s.len() > 0 && is_white_space(s[0]) {
        trim_seq(s.drop_first())
    } else if s.len() > 0 && is_white_space(s.last()) {
        trim_seq(s.drop_last())
    } else {
        s
    }
}

fn is_white_space_exec(c: char) -> (r: bool)
    ensures
        r == is_white_space(c),
{
    let v = c as u32;
    (9 <= v && v <= 13) || v == 32 || v == 0x85 || v == 0xA0 || v == 0x1680 || (0x2000 <= v && v
        <= 0x200A) || v == 0x2028 || v == 0x2029 || v == 0x202F || v == 0x205F || v == 0x3000
}

proof fn lemma_trim_front(s: Seq<char>, i: int)
    requires
        0 <= i <= s.len(),
        forall|k: int| 0 <= k < i ==> is_white_space(#[trigger] s[k]),
    ensures
        trim_seq(s) == trim_seq(s.subrange(i, s.len() as int)),
    decreases i,
{
    if i > 0 {
        assert(s.drop_first().subrange(i - 1, s.drop_first().len() as int) =~= s.subrange(
            i,
            s.len() as int,
        ));
        assert forall|k: int| 0 <= k < i - 1 implies is_white_space(#[trigger] s.drop_first()[k]) by {
            assert(s.drop_first()[k] == s[k + 1]);
        }
        lemma_trim_front(s.drop_first(), i - 1);
        assert(is_white_space(s[0]));
    } else {
        assert(s.subrange(0, s.len() as int) =~= s);
    }
}

proof fn lemma_trim_back(s: Seq<char>, j: int)
    requires
        0 <= j <= s.len(),
        s.len() == 0 || !is_white_space(s[0]) || j == 0,
        forall|k: int| j <= k < s.len() ==> is_white_space(#[trigger] s[k]),
    ensures
        j > 0 ==> trim_seq(s) == trim_seq(s.subrange(0, j)),
        j == 0 ==> trim_seq(s) == Seq::<char>::empty(),
    decreases s.len() - j,
{
    if j < s.len() {
        assert(is_white_space(s.last()));
        if s.len() > 0 && is_white_space(s[0]) {
            assert(j == 0);
            lemma_trim_all_space(s);
        } else {
            assert(s.drop_last().subrange(0, j) =~= s.subrange(0, j));
            lemma_trim_back(s.drop_last(), j);
        }
    } else {
        assert(s.subrange(0, j) =~= s);
    }
}

proof fn lemma_trim_all_space(s: Seq<char>)
    requires
        forall|k: int| 0 <= k < s.len() ==> is_white_space(#[trigger] s[k]),
    ensures
        trim_seq(s) == Seq::<char>::empty(),
    decreases s.len(),
{
    if s.len() > 0 {
        assert forall|k: int| 0 <= k < s.drop_first().len() implies is_white_space(
            #[trigger] s.drop_first()[k],
        ) by {
            assert(s.drop_first()[k] == s[k + 1]);
        }
        lemma_trim_all_space(s.drop_first());
    } else {
        assert(s =~= Seq::<char>::empty());
    }
}

/// The database password kept in a file: its contents without leading and
/// trailing white space.
pub fn db_password_from_contents(contents: &str) -> (password: String)
    ensures
        password@ == trim_seq(contents@),
{
    let n = contents.unicode_len();
    let mut i: usize = 0;
    while i < n && is_white_space_exec(contents.get_char(i))
        invariant
            n == contents@.len(),
            i <= n,
            forall|k: int| 0 <= k < i ==> is_white_space(#[trigger] contents@[k]),
        decreases n - i,
    {
        i = i + 1;
    }
    proof {
        lemma_trim_front(contents@, i as int);
    }
    let ghost rest = contents@.subrange(i as int, n as int);
    let mut j: usize = n;
    while j > i && is_white_space_exec(contents.get_char(j - 1))
        invariant
            n == contents@.len(),
            i <= j <= n,
            rest == contents@.subrange(i as int, n as int),
            forall|k: int| j <= k < n ==> is_white_space(#[trigger] contents@[k]),
        decreases j,
    {
        j = j - 1;
    }
    proof {
        assert forall|k: int| j - i <= k < rest.len() implies is_white_space(#[trigger] rest[k]) by {
            assert(rest[k] == contents@[k + i]);
        }
        if rest.len() > 0 && i < n {
            assert(rest[0] == contents@[i as int]);
        }
        lemma_trim_back(rest, j - i);
        assert(rest.subrange(0, j - i) =~= contents@.subrange(i as int, j as int));
    }
    contents.substring_char(i, j).to_owned()
}

} // verus!
