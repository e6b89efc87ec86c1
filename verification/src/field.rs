use vstd::prelude::*;

use sha1::Digest;

verus! {

/// The character standing for one hexadecimal digit.
pub open spec fn hex_digit(d: nat) -> char {
    if d == 0 {
        '0'
    } else if d == 1 {
        '1'
    } else if d == 2 {
        '2'
    } else if d == 3 {
        '3'
    } else if d == 4 {
        '4'
    } else if d == 5 {
        '5'
    } else if d == 6 {
        '6'
    } else if d == 7 {
        '7'
    } else if d == 8 {
        '8'
    } else if d == 9 {
        '9'
    } else if d == 10 {
        'a'
    } else if d == 11 {
        'b'
    } else if d == 12 {
        'c'
    } else if d == 13 {
        'd'
    } else if d == 14 {
        'e'
    } else {
        'f'
    }
}

/// The lowercase hexadecimal rendering of a byte sequence, two digits per
/// byte.
pub open spec fn hex_of(b: Seq<u8>) -> Seq<char>
    decreases b.len(),
{
    if b.len() == 0 {
        Seq::empty()
    } else {
        hex_of(b.drop_last()) + seq![
            hex_digit(b.last() as nat / 16),
            hex_digit(b.last() as nat % 16),
        ]
    }
}

pub proof fn lemma_hex_of_len(b: Seq<u8>)
    ensures
        hex_of(b).len() == 2 * b.len(),
    decreases b.len(),
{
    if b.len() > 0 {
        lemma_hex_of_len(b.drop_last());
    }
}

/// What SHA-1 returns for the UTF-8 bytes of a piece of text: a 20-byte
/// digest.
pub uninterp spec fn sha1_of(s: Seq<char>) -> Seq<u8>;

/// Relies on `sha1::Sha1`: the digest depends on the input alone and is 20
/// bytes long.
#[verifier::external_body]
fn sha1_digest(s: &str) -> (r: Vec<u8>)
    ensures
        r@ == sha1_of(s@),
        r@.len() == 20,
{
    sha1::Sha1::digest(s.as_bytes()).to_vec()
}

fn hex_digit_str(d: u8) -> (r: &'static str)
    requires
        d < 16,
    ensures
        r@ == seq![hex_digit(d as nat)],
{
    proof {
        reveal_strlit("0");
        reveal_strlit("1");
        reveal_strlit("2");
        reveal_strlit("3");
        reveal_strlit("4");
        reveal_strlit("5");
        reveal_strlit("6");
        reveal_strlit("7");
        reveal_strlit("8");
        reveal_strlit("9");
        reveal_strlit("a");
        reveal_strlit("b");
        reveal_strlit("c");
        reveal_strlit("d");
        reveal_strlit("e");
        reveal_strlit("f");
    }
    let r: &'static str = match d {
        0 => "0",
        1 => "1",
        2 => "2",
        3 => "3",
        4 => "4",
        5 => "5",
        6 => "6",
        7 => "7",
        8 => "8",
        9 => "9",
        10 => "a",
        11 => "b",
        12 => "c",
        13 => "d",
        14 => "e",
        _ => "f",
    };
    proof {
        assert(r@ =~= seq![hex_digit(d as nat)]);
    }
    r
}

/// The lowercase hexadecimal rendering of a byte vector.
pub fn bytes_to_hex(b: &Vec<u8>) -> (r: String)
    ensures
        r@ == hex_of(b@),
{
    let mut s = String::new();
    let n = b.len();
    let mut i: usize = 0;
    while i < n
        invariant
            i <= n,
            n == b@.len(),
            s@ == hex_of(b@.subrange(0, i as int)),
        decreases n - i,
    {
        let byte = b[i];
        s.append(hex_digit_str(byte / 16));
        s.append(hex_digit_str(byte % 16));
        i += 1;
        proof {
            let sub = b@.subrange(0, i as int);
            assert(sub.drop_last() =~= b@.subrange(0, i - 1));
            assert(s@ =~= hex_of(sub));
        }
    }
    proof {
        assert(b@.subrange(0, n as int) =~= b@);
    }
    s
}

/// The column identifier derived from a field path: the lowercase
/// hexadecimal SHA-1 digest of the path.
pub open spec fn column_hash_of(name: Seq<char>) -> Seq<char> {
    hex_of(sha1_of(name))
}

/// Spec-level image of a schema field.
#[verifier::ext_equal]
pub struct FieldValue {
    pub name: Seq<char>,
    pub hash: Seq<char>,
}

/// A field of the published schema: its path and the column identifier the
/// path hashes to.
#[derive(Debug)]
pub struct Field {
    pub name: String,
    pub hash: String,
}

impl View for Field {
    type V = FieldValue;

    open spec fn view(&self) -> FieldValue {
        FieldValue { name: self.name@, hash: self.hash@ }
    }
}

impl DeepView for Field {
    type V = FieldValue;

    open spec fn deep_view(&self) -> FieldValue {
        self.view()
    }
}

impl Field {
    /// A field for a path, with its 40-character column identifier.
    pub fn new(name: &str) -> (r: Field)
        ensures
            r.name@ == name@,
            r.hash@ == column_hash_of(name@),
            r.hash@.len() == 40,
    {
        let digest = sha1_digest(name);
        let hash = bytes_to_hex(&digest);
        proof {
            lemma_hex_of_len(sha1_of(name@));
        }
        Field { name: name.to_owned(), hash }
    }

    /// A copy with the same name and hash.
    pub fn duplicate(&self) -> (r: Field)
        ensures
            r.name@ == self.name@,
            r.hash@ == self.hash@,
    {
        Field { name: self.name.clone(), hash: self.hash.clone() }
    }
}

} // verus!
