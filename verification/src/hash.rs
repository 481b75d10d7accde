use vstd::prelude::*;

use sha2::Digest;

verus! {

/// The SHA-256 digest of a byte sequence. The digest is a function of the
/// input bytes alone; what it is on given bytes is left to the outside
/// implementation, so nothing here can be used to predict digest values.
pub uninterp spec fn sha256_of(data: Seq<u8>) -> Seq<u8>;

/// Declares sha2's hasher type so that it can stand in fields and
/// signatures; its state is opaque here.
#[verifier::external_type_specification]
#[verifier::external_body]
pub struct ExSha256(sha2::Sha256);

/// The bytes a hasher state has absorbed so far.
pub uninterp spec fn hasher_fed(h: sha2::Sha256) -> Seq<u8>;

/// Relies on sha2::Sha256::new (Digest::new): a fresh hasher that has
/// absorbed no input.
#[verifier::external_body]
fn sha256_new() -> (h: sha2::Sha256)
    ensures
        hasher_fed(h) == Seq::<u8>::empty(),
{
    sha2::Sha256::new()
}

/// Relies on sha2::Sha256::update (Digest::update): absorbs the chunk after
/// everything fed before it.
#[verifier::external_body]
fn sha256_update(h: &mut sha2::Sha256, chunk: &[u8])
    ensures
        hasher_fed(*final(h)) == hasher_fed(*old(h)) + chunk@,
{
    h.update(chunk);
}

/// Relies on sha2::Sha256::finalize (Digest::finalize): the SHA-256 digest
/// of all bytes absorbed, 32 bytes, a function of those bytes alone.
#[verifier::external_body]
fn sha256_finalize(h: sha2::Sha256) -> (digest: Vec<u8>)
    ensures
        digest@ == sha256_of(hasher_fed(h)),
        digest@.len() == 32,
{
    h.finalize().to_vec()
}

/// A streaming content hasher over the game binary: the file is read in
/// fixed-size chunks and fed in piece by piece, so the whole file is never
/// held in memory.
pub struct StreamHasher {
    inner: sha2::Sha256,
}

impl StreamHasher {
    /// The bytes fed so far.
    pub closed spec fn bytes_fed(&self) -> Seq<u8> {
        hasher_fed(self.inner)
    }

    /// A hasher that has seen no input.
    pub fn new() -> (h: StreamHasher)
        ensures
            h.bytes_fed() == Seq::<u8>::empty(),
    {
        StreamHasher { inner: sha256_new() }
    }

    /// Feed one chunk, extending the hashed input.
    pub fn update(&mut self, chunk: &[u8])
        ensures
            final(self).bytes_fed() == old(self).bytes_fed() + chunk@,
    {
        sha256_update(&mut self.inner, chunk);
    }

    /// The digest of all bytes fed.
    pub fn finalize(self) -> (digest: Vec<u8>)
        ensures
            digest@ == sha256_of(self.bytes_fed()),
            digest@.len() == 32,
    {
        sha256_finalize(self.inner)
    }

    /// The digest of all bytes fed, rendered as lowercase hex, as the local
    /// hash of the game binary is reported and compared.
    pub fn finalize_hex(self) -> (r: String)
        ensures
            r@ == hex_of(sha256_of(self.bytes_fed())),
    {
        let digest = self.finalize();
        bytes_to_hex(&digest)
    }
}

/// The lowercase hex digit for a value below sixteen.
pub open spec fn hex_digit(n: u8) -> char {
    if n == 0 {
        '0'
    } else if n == 1 {
        '1'
    } else if n == 2 {
        '2'
    } else if n == 3 {
        '3'
    } else if n == 4 {
        '4'
    } else if n == 5 {
        '5'
    } else if n == 6 {
        '6'
    } else if n == 7 {
        '7'
    } else if n == 8 {
        '8'
    } else if n == 9 {
        '9'
    } else if n == 10 {
        'a'
    } else if n == 11 {
        'b'
    } else if n == 12 {
        'c'
    } else if n == 13 {
        'd'
    } else if n == 14 {
        'e'
    } else {
        'f'
    }
}

/// The lowercase hex rendering of a byte sequence: two digits per byte,
/// high nibble first.
pub open spec fn hex_of(data: Seq<u8>) -> Seq<char>
    decreases data.len(),
{
    if data.len() == 0 {
        Seq::empty()
    } else {
        seq![hex_digit(data[0] / 16), hex_digit(data[0] % 16)] + hex_of(data.skip(1))
    }
}

pub proof fn lemma_hex_of_push(data: Seq<u8>, b: u8)
    ensures
        hex_of(data.push(b)) == hex_of(data) + seq![hex_digit(b / 16), hex_digit(b % 16)],
    decreases data.len(),
{
    if data.len() == 0 {
        assert(data.push(b)[0] == b);
        assert(data.push(b).skip(1) =~= Seq::<u8>::empty());
        assert(hex_of(Seq::<u8>::empty()) == Seq::<char>::empty());
        assert(hex_of(data.push(b)) =~= hex_of(data) + seq![
            hex_digit(b / 16),
            hex_digit(b % 16),
        ]);
    } else {
        assert(data.push(b)[0] == data[0]);
        assert(data.push(b).skip(1) =~= data.skip(1).push(b));
        lemma_hex_of_push(data.skip(1), b);
        assert(hex_of(data.push(b)) =~= hex_of(data) + seq![
            hex_digit(b / 16),
            hex_digit(b % 16),
        ]);
    }
}

/// Render bytes as lowercase hex, two digits per byte.
#[verifier::loop_isolation(false)]
pub fn bytes_to_hex(bytes: &Vec<u8>) -> (r: String)
    ensures
        r@ == hex_of(bytes@),
{
    let table = "0123456789abcdef";
    proof {
        reveal_strlit("0123456789abcdef");
        assert(table.is_ascii());
    }
    let mut r = String::new();
    proof {
        assert(bytes@.take(0) =~= Seq::<u8>::empty());
    }
    let mut i: usize = 0;
    while i < bytes.len()
        invariant
            i <= bytes@.len(),
            r@ == hex_of(bytes@.take(i as int)),
        decreases bytes@.len() - i,
    {
        let b = bytes[i];
        let hi = (b / 16) as usize;
        let lo = (b % 16) as usize;
        let hi_digit = table.substring_ascii(hi, hi + 1);
        let lo_digit = table.substring_ascii(lo, lo + 1);
        r.append(hi_digit);
        r.append(lo_digit);
        proof {
            assert(hi_digit@ =~= seq![table@[hi as int]]);
            assert(lo_digit@ =~= seq![table@[lo as int]]);
            assert(table@[hi as int] == hex_digit(b / 16));
            assert(table@[lo as int] == hex_digit(b % 16));
            lemma_hex_of_push(bytes@.take(i as int), b);
            assert(bytes@.take(i as int).push(b) =~= bytes@.take(i as int + 1));
            assert(r@ =~= hex_of(bytes@.take(i as int + 1)));
        }
        i += 1;
    }
    proof {
        assert(bytes@.take(bytes@.len() as int) =~= bytes@);
    }
    r
}

/// The Unicode white-space characters, as surrounding-whitespace trimming
/// removes them.
pub open spec fn is_space_char(c: char) -> bool {
    ||| c == ' '
    ||| c == '\t'
    ||| c == '\n'
    ||| c == '\r'
    ||| c == '\u{0B}'
    ||| c == '\u{0C}'
    ||| c == '\u{85}'
    ||| c == '\u{A0}'
    ||| c == '\u{1680}'
    ||| (0x2000 <= c as u32 && c as u32 <= 0x200A)
    ||| c == '\u{2028}'
    ||| c == '\u{2029}'
    ||| c == '\u{202F}'
    ||| c == '\u{205F}'
    ||| c == '\u{3000}'
}

fn is_space(c: char) -> (r: bool)
    ensures
        r == is_space_char(c),
{
    let v = c as u32;
    v == 0x20 || v == 0x09 || v == 0x0A || v == 0x0D || v == 0x0B || v == 0x0C || v == 0x85 || v
        == 0xA0 || v == 0x1680 || (0x2000 <= v && v <= 0x200A) || v == 0x2028 || v == 0x2029 || v
        == 0x202F || v == 0x205F || v == 0x3000
}

/// `s` without its leading white space.
pub open spec fn drop_leading_spaces(s: Seq<char>) -> Seq<char>
    decreases s.len(),
{
    if s.len() > 0 && is_space_char(s[0]) {
        drop_leading_spaces(s.skip(1))
    } else {
        s
    }
}

/// `s` without its trailing white space.
pub open spec fn drop_trailing_spaces(s: Seq<char>) -> Seq<char>
    decreases s.len(),
{
    if s.len() > 0 && is_space_char(s.last()) {
        drop_trailing_spaces(s.drop_last())
    } else {
        s
    }
}

/// `s` with white space removed from both ends.
pub open spec fn spec_trim(s: Seq<char>) -> Seq<char> {
    drop_trailing_spaces(drop_leading_spaces(s))
}

/// The hash string a fetched remote body yields: the body trimmed of
/// surrounding white space.
#[verifier::loop_isolation(false)]
pub fn remote_hash_from_body(body: &str) -> (r: String)
    ensures
        r@ == spec_trim(body@),
{
    let len = body.unicode_len();
    let mut a: usize = 0;
    proof {
        assert(body@.skip(0) =~= body@);
    }
    while a < len && is_space(body.get_char(a))
        invariant
            a <= len,
            drop_leading_spaces(body@) == drop_leading_spaces(body@.skip(a as int)),
        decreases len - a,
    {
        proof {
            assert(body@.skip(a as int).skip(1) =~= body@.skip(a as int + 1));
        }
        a += 1;
    }
    proof {
        assert(drop_leading_spaces(body@) == body@.skip(a as int));
    }
    let mut b: usize = len;
    proof {
        assert(body@.subrange(a as int, b as int) =~= body@.skip(a as int));
    }
    while b > a && is_space(body.get_char(b - 1))
        invariant
            a <= b <= len,
            drop_trailing_spaces(body@.skip(a as int)) == drop_trailing_spaces(
                body@.subrange(a as int, b as int),
            ),
        decreases b,
    {
        proof {
            assert(body@.subrange(a as int, b as int).drop_last() =~= body@.subrange(
                a as int,
                b as int - 1,
            ));
            assert(body@.subrange(a as int, b as int).last() == body@[b - 1]);
        }
        b -= 1;
    }
    proof {
        assert(drop_trailing_spaces(body@.subrange(a as int, b as int)) == body@.subrange(
            a as int,
            b as int,
        ));
    }
    let trimmed = body.substring_char(a, b);
    String::from_str(trimmed)
}

} // verus!
