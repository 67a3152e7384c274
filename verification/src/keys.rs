//! RSA keys as the numbers they are made of: big-endian byte strings of the
//! modulus, the exponents and the prime factors.

use vstd::prelude::*;

verus! {

/// The number that a big-endian byte string denotes.
pub open spec fn be_value(b: Seq<u8>) -> nat
    decreases b.len(),
{
    if b.len() == 0 {
        0
    } else {
        be_value(b.drop_last()) * 256 + b.last() as nat
    }
}

/// The number of bytes of a big-endian byte string once its leading zero
/// bytes are dropped: the byte size of the number, as RSA counts the size
/// of a modulus.
pub open spec fn be_len(b: Seq<u8>) -> nat
    decreases b.len(),
{
    if b.len() == 0 {
        0
    } else if b[0] == 0 {
        be_len(b.skip(1))
    } else {
        b.len()
    }
}

/// Whether a number is prime.
pub open spec fn is_prime(p: nat) -> bool {
    &&& p >= 2
    &&& forall|k: nat| 2 <= k < p ==> #[trigger] (p % k) != 0
}

/// The product of the numbers of the byte strings.
pub open spec fn primes_product(primes: Seq<Seq<u8>>) -> nat
    decreases primes.len(),
{
    if primes.len() == 0 {
        1
    } else {
        primes_product(primes.drop_last()) * be_value(primes.last())
    }
}

/// The contents of byte vectors.
pub open spec fn byte_seqs(v: Seq<Vec<u8>>) -> Seq<Seq<u8>> {
    v.map_values(|b: Vec<u8>| b@)
}

/// Whether a modulus and a public exponent form a usable public key: the
/// modulus is odd, the exponent is odd, below the modulus, at least 3 and at
/// most 2^33 - 1.
pub open spec fn public_key_accepted(n: Seq<u8>, e: Seq<u8>) -> bool {
    &&& 3 <= be_value(e) <= 0x1_ffff_ffff
    &&& be_value(e) % 2 == 1
    &&& be_value(n) % 2 == 1
    &&& be_value(e) < be_value(n)
}

/// Whether the components form an RSA private key: a usable public key,
/// at least two distinct primes whose product is the modulus, and a private
/// exponent with `e * d = 1` modulo `p - 1` for every prime `p`.
pub open spec fn rsa_key_valid(n: Seq<u8>, e: Seq<u8>, d: Seq<u8>, primes: Seq<Seq<u8>>) -> bool {
    &&& public_key_accepted(n, e)
    &&& primes.len() >= 2
    &&& forall|i: int| 0 <= i < primes.len() ==> is_prime(#[trigger] be_value(primes[i]))
    &&& forall|i: int, j: int|
        0 <= i < j < primes.len() ==> #[trigger] be_value(primes[i]) != #[trigger] be_value(primes[j])
    &&& primes_product(primes) == be_value(n)
    &&& forall|i: int|
        0 <= i < primes.len() ==> (be_value(e) * be_value(d)) % ((#[trigger] be_value(primes[i]) - 1) as nat)
            == 1
}

/// An RSA public key: the modulus and the public exponent, big-endian.
#[derive(Debug)]
pub struct RsaPublicParts {
    /// The modulus.
    pub n: Vec<u8>,
    /// The public exponent.
    pub e: Vec<u8>,
}

/// An RSA private key: the modulus, the public and private exponents and
/// the prime factors of the modulus, big-endian.  It has at least two prime
/// factors.
#[derive(Debug)]
pub struct RsaPrivateParts {
    n: Vec<u8>,
    e: Vec<u8>,
    d: Vec<u8>,
    primes: Vec<Vec<u8>>,
}

impl RsaPrivateParts {
    #[verifier::type_invariant]
    spec fn has_two_primes(self) -> bool {
        self.primes@.len() >= 2
    }

    /// The modulus.
    pub closed spec fn spec_n(&self) -> Seq<u8> {
        self.n@
    }

    /// The public exponent.
    pub closed spec fn spec_e(&self) -> Seq<u8> {
        self.e@
    }

    /// The private exponent.
    pub closed spec fn spec_d(&self) -> Seq<u8> {
        self.d@
    }

    /// The prime factors.
    pub closed spec fn spec_primes(&self) -> Seq<Seq<u8>> {
        byte_seqs(self.primes@)
    }

    /// Whether the components form an RSA private key.
    pub open spec fn spec_valid(&self) -> bool {
        rsa_key_valid(self.spec_n(), self.spec_e(), self.spec_d(), self.spec_primes())
    }

    /// A private key from its components; `None` when fewer than two prime
    /// factors are given.
    pub fn new(n: Vec<u8>, e: Vec<u8>, d: Vec<u8>, primes: Vec<Vec<u8>>) -> (res: Option<RsaPrivateParts>)
        ensures
            res is Some <==> primes@.len() >= 2,
            res matches Some(k) ==> k.spec_n() == n@ && k.spec_e() == e@ && k.spec_d() == d@
                && k.spec_primes() == byte_seqs(primes@),
    {
        if primes.len() < 2 {
            None
        } else {
            Some(RsaPrivateParts { n, e, d, primes })
        }
    }

    /// The modulus.
    pub fn n(&self) -> (res: &Vec<u8>)
        ensures
            res@ == self.spec_n(),
    {
        &self.n
    }

    /// The public exponent.
    pub fn e(&self) -> (res: &Vec<u8>)
        ensures
            res@ == self.spec_e(),
    {
        &self.e
    }

    /// The private exponent.
    pub fn d(&self) -> (res: &Vec<u8>)
        ensures
            res@ == self.spec_d(),
    {
        &self.d
    }

    /// The prime factors.
    pub fn primes(&self) -> (res: &Vec<Vec<u8>>)
        ensures
            byte_seqs(res@) == self.spec_primes(),
            res@.len() >= 2,
    {
        proof {
            use_type_invariant(self);
        }
        &self.primes
    }
}

} // verus!
