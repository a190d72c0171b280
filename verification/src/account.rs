//! Account identifiers and their grammar.
//!
//! An identifier is a short byte string drawn from a fixed alphabet. Its
//! length is bounded, which is what lets the storage cost of one balance
//! record be measured once against the longest possible key.

use vstd::prelude::*;

verus! {

/// Fewest bytes an account identifier may have.
pub const MIN_ACCOUNT_ID_LENGTH: usize = 2;

/// Most bytes an account identifier may have; the storage cost of one balance
/// record is sized against a key of this length.
pub const MAX_ACCOUNT_ID_LENGTH: usize = 64;

/// ASCII code of 'a'.
pub const BYTE_LOWER_A: u8 = 97;

/// ASCII code of 'z'.
pub const BYTE_LOWER_Z: u8 = 122;

/// ASCII code of '0'.
pub const BYTE_DIGIT_0: u8 = 48;

/// ASCII code of '9'.
pub const BYTE_DIGIT_9: u8 = 57;

/// ASCII code of '-'.
pub const BYTE_HYPHEN: u8 = 45;

/// ASCII code of '_'.
pub const BYTE_UNDERSCORE: u8 = 95;

/// ASCII code of '.'.
pub const BYTE_DOT: u8 = 46;

/// True of the bytes that may separate the alphanumeric runs of an identifier.
pub open spec fn is_separator_byte(b: u8) -> bool {
    b == BYTE_HYPHEN || b == BYTE_UNDERSCORE || b == BYTE_DOT
}

/// True of every byte an identifier may hold: a lower-case letter, a digit or
/// a separator.
pub open spec fn is_account_id_byte(b: u8) -> bool {
    (BYTE_LOWER_A <= b && b <= BYTE_LOWER_Z) || (BYTE_DIGIT_0 <= b && b <= BYTE_DIGIT_9) || is_separator_byte(b)
}

/// The grammar of an account identifier: bounded length, allowed bytes only,
/// alphanumeric at both ends, and never two separators side by side.
pub open spec fn is_valid_account_id(s: Seq<u8>) -> bool {
    &&& MIN_ACCOUNT_ID_LENGTH <= s.len() <= MAX_ACCOUNT_ID_LENGTH
    &&& forall|i: int| 0 <= i < s.len() ==> is_account_id_byte(#[trigger] s[i])
    &&& !is_separator_byte(s[0])
    &&& !is_separator_byte(s[s.len() - 1])
    &&& forall|i: int|
        0 <= i < s.len() - 1 ==> !(is_separator_byte(#[trigger] s[i]) && is_separator_byte(
            s[i + 1],
        ))
}

fn byte_is_account_id_byte(b: u8) -> (r: bool)
    ensures
        r == is_account_id_byte(b),
{
    (BYTE_LOWER_A <= b && b <= BYTE_LOWER_Z) || (BYTE_DIGIT_0 <= b && b <= BYTE_DIGIT_9) || b == BYTE_HYPHEN || b == BYTE_UNDERSCORE || b == BYTE_DOT
}

fn byte_is_separator(b: u8) -> (r: bool)
    ensures
        r == is_separator_byte(b),
{
    b == BYTE_HYPHEN || b == BYTE_UNDERSCORE || b == BYTE_DOT
}

/// Decides the identifier grammar on a byte string.
pub fn bytes_are_valid_account_id(s: &Vec<u8>) -> (r: bool)
    ensures
        r == is_valid_account_id(s@),
{
    let n = s.len();
    if n < MIN_ACCOUNT_ID_LENGTH || n > MAX_ACCOUNT_ID_LENGTH {
        return false;
    }
    if byte_is_separator(s[0]) || byte_is_separator(s[n - 1]) {
        return false;
    }
    let mut i: usize = 0;
    while i < n
        invariant
            0 <= i <= n,
            n == s@.len(),
            forall|j: int| 0 <= j < i ==> is_account_id_byte(#[trigger] s@[j]),
            forall|j: int|
                0 <= j < i - 1 ==> !(is_separator_byte(#[trigger] s@[j]) && is_separator_byte(
                    s@[j + 1],
                )),
            i > 0 ==> !(is_separator_byte(s@[i - 1]) && is_separator_byte(s@[i as int])) || i == n,
        decreases n - i,
    {
        if !byte_is_account_id_byte(s[i]) {
            return false;
        }
        if i + 1 < n && byte_is_separator(s[i]) && byte_is_separator(s[i + 1]) {
            return false;
        }
        i += 1;
    }
    true
}

/// An account identifier whose bytes are known to satisfy the grammar.
#[derive(Debug)]
pub struct AccountId {
    bytes: Vec<u8>,
}

impl View for AccountId {
    type V = Seq<u8>;

    closed spec fn view(&self) -> Seq<u8> {
        self.bytes@
    }
}

impl AccountId {
    #[verifier::type_invariant]
    spec fn type_inv(self) -> bool {
        is_valid_account_id(self.bytes@)
    }

    /// Validates and takes ownership of the identifier bytes; `None` when they
    /// do not satisfy the grammar.
    pub fn new(bytes: Vec<u8>) -> (r: Option<AccountId>)
        ensures
            r is Some <==> is_valid_account_id(bytes@),
            r matches Some(a) ==> a@ == bytes@,
    {
        if bytes_are_valid_account_id(&bytes) {
            Some(AccountId { bytes })
        } else {
            None
        }
    }

    /// Byte length of the identifier.
    pub fn len(&self) -> (n: usize)
        ensures
            n == self@.len(),
    {
        self.bytes.len()
    }

    /// The identifier's bytes.
    pub fn as_bytes(&self) -> (r: &Vec<u8>)
        ensures
            r@ == self@,
    {
        &self.bytes
    }

    /// An owned identifier with the same bytes.
    pub fn duplicate(&self) -> (r: AccountId)
        ensures
            r@ == self@,
    {
        proof {
            use_type_invariant(self);
        }
        let mut bytes: Vec<u8> = Vec::new();
        let mut i: usize = 0;
        while i < self.bytes.len()
            invariant
                0 <= i <= self.bytes@.len(),
                bytes@ == self.bytes@.subrange(0, i as int),
            decreases self.bytes@.len() - i,
        {
            bytes.push(self.bytes[i]);
            i += 1;
        }
        proof {
            assert(bytes@ =~= self.bytes@);
        }
        AccountId { bytes }
    }

    /// True exactly when the two identifiers spell the same bytes.
    pub fn eq_id(&self, other: &AccountId) -> (r: bool)
        ensures
            r == (self@ == other@),
    {
        if self.bytes.len() != other.bytes.len() {
            return false;
        }
        let n = self.bytes.len();
        let mut i: usize = 0;
        while i < n
            invariant
                0 <= i <= n,
                n == self.bytes@.len(),
                n == other.bytes@.len(),
                forall|j: int| 0 <= j < i ==> self.bytes@[j] == other.bytes@[j],
            decreases n - i,
        {
            if self.bytes[i] != other.bytes[i] {
                return false;
            }
            i += 1;
        }
        proof {
            assert(self.bytes@ =~= other.bytes@);
        }
        true
    }

    /// The longest identifier the grammar admits, spelled with one repeated
    /// letter; it sizes the worst-case balance record.
    pub fn longest() -> (r: AccountId)
        ensures
            r@.len() == MAX_ACCOUNT_ID_LENGTH,
    {
        let mut bytes: Vec<u8> = Vec::new();
        let mut i: usize = 0;
        while i < MAX_ACCOUNT_ID_LENGTH
            invariant
                0 <= i <= MAX_ACCOUNT_ID_LENGTH,
                bytes@.len() == i,
                forall|j: int| 0 <= j < i ==> bytes@[j] == BYTE_LOWER_A,
            decreases MAX_ACCOUNT_ID_LENGTH - i,
        {
            bytes.push(BYTE_LOWER_A);
            i += 1;
        }
        AccountId { bytes }
    }
}

} // verus!
