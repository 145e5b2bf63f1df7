//! The client's credential file format: `SPCLI01\0`, a 32-byte salt, a
//! 12-byte nonce, then the AES-256-GCM ciphertext of the credentials. The
//! key is SHA-256 over a fixed label, the salt and the machine's identity.

use vstd::prelude::*;
use vstd::string::StringSliceAdditionalSpecFns;
use sha2::Digest;
use aes_gcm::aead::{Aead, KeyInit};
use rand::RngCore;

verus! {

pub open spec fn envelope_magic() -> Seq<u8> {
    seq![0x53u8, 0x50u8, 0x43u8, 0x4Cu8, 0x49u8, 0x30u8, 0x31u8, 0x00u8]
}

/// ASCII bytes of the key-derivation label `spcli credential envelope v1`.
pub open spec fn key_label() -> Seq<u8> {
    seq![
        0x73u8, 0x70u8, 0x63u8, 0x6Cu8, 0x69u8, 0x20u8, 0x63u8, 0x72u8, 0x65u8, 0x64u8, 0x65u8,
        0x6Eu8, 0x74u8, 0x69u8, 0x61u8, 0x6Cu8, 0x20u8, 0x65u8, 0x6Eu8, 0x76u8, 0x65u8, 0x6Cu8,
        0x6Fu8, 0x70u8, 0x65u8, 0x20u8, 0x76u8, 0x31u8,
    ]
}

/// Largest plaintext AES-GCM accepts (2^36 bytes).
pub open spec fn aes_gcm_max_plaintext() -> int {
    0x1000000000
}

/// SHA-256 digest of a byte string.
pub uninterp spec fn sha256_of(data: Seq<u8>) -> Seq<u8>;

/// AES-256-GCM sealing (ciphertext followed by the 16-byte tag, no associated data).
pub uninterp spec fn aes_gcm_seal(key: Seq<u8>, nonce: Seq<u8>, plaintext: Seq<u8>) -> Seq<u8>;

/// Calls `sha2::Sha256::digest`: the 32-byte SHA-256 digest, named.
#[verifier::external_body]
fn sha256(data: &[u8]) -> (r: [u8; 32])
    ensures
        r@ == sha256_of(data@),
{
    sha2::Sha256::digest(data).into()
}

/// Calls `Aes256Gcm::new_from_slice(key)` and `encrypt(nonce, plaintext)`. The
/// crate refuses plaintexts longer than 2^36 bytes and otherwise returns the
/// ciphertext followed by a 16-byte tag; the bytes are named.
#[verifier::external_body]
#[allow(deprecated)]
fn aes_gcm_encrypt(key: &[u8; 32], nonce: &[u8; 12], plaintext: &[u8]) -> (r: Option<Vec<u8>>)
    ensures
        r is Some <==> plaintext@.len() <= aes_gcm_max_plaintext(),
        r matches Some(c) ==> c@ == aes_gcm_seal(key@, nonce@, plaintext@) && c@.len()
            == plaintext@.len() + 16,
{
    let cipher = aes_gcm::Aes256Gcm::new_from_slice(key).ok()?;
    cipher.encrypt(aes_gcm::Nonce::from_slice(nonce), plaintext).ok()
}

/// Calls `Aes256Gcm::new_from_slice(key)` and `decrypt(nonce, ciphertext)`.
/// Authenticated decryption succeeds exactly on what sealing with the same key
/// and nonce produced, and gives back the sealed plaintext.
#[verifier::external_body]
#[allow(deprecated)]
fn aes_gcm_decrypt(key: &[u8; 32], nonce: &[u8; 12], ciphertext: &[u8]) -> (r: Option<Vec<u8>>)
    ensures
        r is None ==> forall|p: Seq<u8>|
            p.len() <= aes_gcm_max_plaintext() ==> #[trigger] aes_gcm_seal(key@, nonce@, p) != ciphertext@,
        r is Some ==> forall|p: Seq<u8>|
            p.len() <= aes_gcm_max_plaintext() && #[trigger] aes_gcm_seal(key@, nonce@, p) == ciphertext@ ==> r->0@ == p,
        r is Some ==> aes_gcm_seal(key@, nonce@, r->0@) == ciphertext@,
{
    let cipher = aes_gcm::Aes256Gcm::new_from_slice(key).ok()?;
    cipher.decrypt(aes_gcm::Nonce::from_slice(nonce), ciphertext).ok()
}

/// Fills a fresh buffer of `n` bytes from the thread-local random generator
/// (`rand::rng().fill_bytes`). Only the length is promised.
#[verifier::external_body]
pub(crate) fn random_bytes(n: usize) -> (r: Vec<u8>)
    ensures
        r@.len() == n,
{
    let mut b = vec![0u8; n];
    rand::rng().fill_bytes(&mut b);
    b
}

fn push_all(out: &mut Vec<u8>, data: &[u8])
    ensures
        final(out)@ == old(out)@ + data@,
{
    let mut i: usize = 0;
    let ghost pre = out@;
    while i < data.len()
        invariant
            i <= data@.len(),
            out@ == pre + data@.subrange(0, i as int),
        decreases data.len() - i,
    {
        out.push(data[i]);
        i = i + 1;
        proof {
            assert(pre + data@.subrange(0, i as int) =~= (pre + data@.subrange(0, i - 1)).push(data@[i - 1]));
        }
    }
    assert(data@.subrange(0, data@.len() as int) =~= data@);
}

fn magic_bytes() -> (r: Vec<u8>)
    ensures
        r@ == envelope_magic(),
{
    let mut v: Vec<u8> = Vec::new();
    v.push(0x53);
    v.push(0x50);
    v.push(0x43);
    v.push(0x4C);
    v.push(0x49);
    v.push(0x30);
    v.push(0x31);
    v.push(0x00);
    assert(v@ =~= envelope_magic());
    v
}

fn key_label_bytes() -> (r: Vec<u8>)
    ensures
        r@ == key_label(),
{
    let b: [u8; 28] = [
        0x73, 0x70, 0x63, 0x6C, 0x69, 0x20, 0x63, 0x72, 0x65, 0x64, 0x65, 0x6E, 0x74, 0x69, 0x61,
        0x6C, 0x20, 0x65, 0x6E, 0x76, 0x65, 0x6C, 0x6F, 0x70, 0x65, 0x20, 0x76, 0x31,
    ];
    let mut v: Vec<u8> = Vec::new();
    push_all(&mut v, &b);
    assert(v@ =~= key_label());
    v
}

/// The key of an envelope: SHA-256 of the label, the salt and the machine identity text.
pub open spec fn envelope_key(salt: Seq<u8>, machine: Seq<u8>) -> Seq<u8> {
    sha256_of(key_label() + salt + machine)
}

pub fn derive_key(salt: &[u8], machine: &str) -> (k: [u8; 32])
    ensures
        k@ == envelope_key(salt@, machine.spec_bytes()),
{
    let mut data = key_label_bytes();
    push_all(&mut data, salt);
    push_all(&mut data, machine.as_bytes());
    sha256(data.as_slice())
}

/// An envelope around a ciphertext.
pub open spec fn envelope_bytes(salt: Seq<u8>, nonce: Seq<u8>, ciphertext: Seq<u8>) -> Seq<u8> {
    envelope_magic() + salt + nonce + ciphertext
}

/// Seals credentials with the given salt and nonce.
pub fn seal_envelope(plaintext: &[u8], salt: [u8; 32], nonce: [u8; 12], machine: &str) -> (r: Result<Vec<u8>, String>)
    ensures
        plaintext@.len() <= aes_gcm_max_plaintext() ==> (r matches Ok(v) && v@ == envelope_bytes(
            salt@,
            nonce@,
            aes_gcm_seal(envelope_key(salt@, machine.spec_bytes()), nonce@, plaintext@),
        )),
        plaintext@.len() > aes_gcm_max_plaintext() ==> (r matches Err(m) && m@
            == "failed to encrypt credential envelope"@),
        r matches Ok(v) ==> envelope_opens_to(v@, machine.spec_bytes(), plaintext@),
{
    let key = derive_key(&salt, machine);
    let ciphertext = match aes_gcm_encrypt(&key, &nonce, plaintext) {
        Some(c) => c,
        None => return Err(String::from_str("failed to encrypt credential envelope")),
    };
    let mut output = magic_bytes();
    push_all(&mut output, &salt);
    push_all(&mut output, &nonce);
    push_all(&mut output, ciphertext.as_slice());
    proof {
        lemma_sealed_envelope_opens(salt@, nonce@, machine.spec_bytes(), plaintext@);
    }
    Ok(output)
}

/// Seals credentials with a fresh random salt and nonce.
pub fn encrypt_envelope(plaintext: &[u8], machine: &str) -> (r: Result<Vec<u8>, String>)
    ensures
        plaintext@.len() <= aes_gcm_max_plaintext() ==> (r matches Ok(v) && exists|s: Seq<u8>, n: Seq<u8>|
            s.len() == 32 && n.len() == 12 && v@ == #[trigger] envelope_bytes(
                s,
                n,
                aes_gcm_seal(envelope_key(s, machine.spec_bytes()), n, plaintext@),
            )),
        plaintext@.len() > aes_gcm_max_plaintext() ==> r is Err,
        r matches Ok(v) ==> envelope_opens_to(v@, machine.spec_bytes(), plaintext@),
{
    let salt_bytes = random_bytes(32);
    let nonce_bytes = random_bytes(12);
    let salt = copy_range::<32>(salt_bytes.as_slice(), 0);
    let nonce = copy_range::<12>(nonce_bytes.as_slice(), 0);
    seal_envelope(plaintext, salt, nonce, machine)
}

fn copy_range<const N: usize>(data: &[u8], start: usize) -> (r: [u8; N])
    requires
        start + N <= data@.len(),
    ensures
        r@ == data@.subrange(start as int, start + N),
{
    let mut r: [u8; N] = [0u8; N];
    let n = data.len();
    let mut i: usize = 0;
    while i < N
        invariant
            i <= N,
            n == data@.len(),
            start + N <= data@.len(),
            r@.len() == N,
            forall|j: int| 0 <= j < i ==> r@[j] == data@[start + j],
        decreases N - i,
    {
        r.set(i, data[start + i]);
        i = i + 1;
    }
    assert(r@ =~= data@.subrange(start as int, start + N));
    r
}

/// The sealed bytes of a credential file.
pub fn decrypt_envelope(data: &[u8], machine: &str) -> (r: Result<Vec<u8>, String>)
    ensures
        r matches Ok(p) ==> framed(data@) && envelope_ciphertext(data@) == aes_gcm_seal(
            envelope_key(data@.subrange(8, 40), machine.spec_bytes()),
            data@.subrange(40, 52),
            p@,
        ),
        !framed(data@) ==> (r matches Err(m) && m@ == "credential envelope is invalid or unsupported"@),
        framed(data@) && r is Err ==> (r matches Err(m) && m@
            == "credential envelope cannot be decrypted; run spcli login again"@),
        forall|p: Seq<u8>| #[trigger] envelope_opens_to(data@, machine.spec_bytes(), p) ==> (r matches Ok(q) && q@ == p),
{
    let n = data.len();
    proof {
        assert forall|p: Seq<u8>| #[trigger] envelope_opens_to(data@, machine.spec_bytes(), p) implies framed(data@) by {
            let (s, nn) = choose|s: Seq<u8>, nn: Seq<u8>| envelope_sealed_with(data@, machine.spec_bytes(), p, s, nn);
            lemma_envelope_parts(s, nn, machine.spec_bytes(), p);
        }
    }
    let mut bad = n <= 52;
    if !bad {
        let magic = magic_bytes();
        let mut i: usize = 0;
        while i < 8
            invariant
                i <= 8,
                n == data@.len(),
                n > 52,
                magic@ == envelope_magic(),
                !bad <==> forall|j: int| 0 <= j < i ==> data@[j] == magic@[j],
            decreases 8 - i,
        {
            if data[i] != magic[i] {
                bad = true;
            }
            i = i + 1;
        }
        proof {
            if !bad {
                assert(data@.subrange(0, 8) =~= envelope_magic());
            } else {
                assert(data@.subrange(0, 8) != envelope_magic()) by {
                    let j = choose|j: int| 0 <= j < 8 && data@[j] != magic@[j];
                    assert(data@.subrange(0, 8)[j] == data@[j]);
                }
            }
        }
    }
    if bad {
        return Err(String::from_str("credential envelope is invalid or unsupported"));
    }
    let salt: [u8; 32] = copy_range(data, 8);
    let nonce: [u8; 12] = copy_range(data, 40);
    let mut ct: Vec<u8> = Vec::new();
    let mut k: usize = 52;
    while k < n
        invariant
            52 <= k <= n,
            n == data@.len(),
            ct@ == data@.subrange(52, k as int),
        decreases n - k,
    {
        ct.push(data[k]);
        k = k + 1;
        proof {
            assert(data@.subrange(52, k as int) =~= data@.subrange(52, k - 1).push(data@[k - 1]));
        }
    }
    let key = derive_key(&salt, machine);
    proof {
        assert(ct@ =~= envelope_ciphertext(data@));
        assert forall|p: Seq<u8>| #[trigger] envelope_opens_to(data@, machine.spec_bytes(), p) implies p.len()
            <= aes_gcm_max_plaintext() && aes_gcm_seal(key@, nonce@, p) == ct@ by {
            let (s, nn) = choose|s: Seq<u8>, nn: Seq<u8>| envelope_sealed_with(data@, machine.spec_bytes(), p, s, nn);
            lemma_envelope_parts(s, nn, machine.spec_bytes(), p);
        }
    }
    match aes_gcm_decrypt(&key, &nonce, ct.as_slice()) {
        Some(p) => Ok(p),
        None => Err(String::from_str("credential envelope cannot be decrypted; run spcli login again")),
    }
}

/// Whether an envelope is framed: longer than its header and starting with the magic bytes.
pub open spec fn framed(data: Seq<u8>) -> bool {
    data.len() > 52 && data.subrange(0, 8) == envelope_magic()
}

pub open spec fn envelope_ciphertext(data: Seq<u8>) -> Seq<u8> {
    data.subrange(52, data.len() as int)
}

/// `data` is the envelope that sealing `p` with salt `s` and nonce `n` on `machine` produces.
pub open spec fn envelope_sealed_with(data: Seq<u8>, machine: Seq<u8>, p: Seq<u8>, s: Seq<u8>, n: Seq<u8>) -> bool {
    let c = aes_gcm_seal(envelope_key(s, machine), n, p);
    &&& s.len() == 32
    &&& n.len() == 12
    &&& p.len() <= aes_gcm_max_plaintext()
    &&& c.len() == p.len() + 16
    &&& data == envelope_bytes(s, n, c)
}

/// `data` is an envelope sealed around `p` on `machine`, for some salt and nonce.
pub open spec fn envelope_opens_to(data: Seq<u8>, machine: Seq<u8>, p: Seq<u8>) -> bool {
    exists|s: Seq<u8>, n: Seq<u8>| envelope_sealed_with(data, machine, p, s, n)
}

proof fn lemma_envelope_parts(s: Seq<u8>, n: Seq<u8>, machine: Seq<u8>, p: Seq<u8>)
    requires
        s.len() == 32,
        n.len() == 12,
        aes_gcm_seal(envelope_key(s, machine), n, p).len() == p.len() + 16,
    ensures
        ({
            let d = envelope_bytes(s, n, aes_gcm_seal(envelope_key(s, machine), n, p));
            &&& framed(d)
            &&& d.subrange(8, 40) == s
            &&& d.subrange(40, 52) == n
            &&& envelope_ciphertext(d) == aes_gcm_seal(envelope_key(s, machine), n, p)
        }),
{
    let c = aes_gcm_seal(envelope_key(s, machine), n, p);
    let d = envelope_bytes(s, n, c);
    assert(d.subrange(0, 8) =~= envelope_magic());
    assert(d.subrange(8, 40) =~= s);
    assert(d.subrange(40, 52) =~= n);
    assert(d.subrange(52, d.len() as int) =~= c);
}

/// Sealing then opening on the same machine gives back the sealed bytes: what
/// `seal_envelope` writes, `decrypt_envelope` reads back unchanged.
pub proof fn lemma_sealed_envelope_opens(s: Seq<u8>, n: Seq<u8>, machine: Seq<u8>, p: Seq<u8>)
    requires
        s.len() == 32,
        n.len() == 12,
        p.len() <= aes_gcm_max_plaintext(),
        aes_gcm_seal(envelope_key(s, machine), n, p).len() == p.len() + 16,
    ensures
        envelope_opens_to(envelope_bytes(s, n, aes_gcm_seal(envelope_key(s, machine), n, p)), machine, p),
{
    let d = envelope_bytes(s, n, aes_gcm_seal(envelope_key(s, machine), n, p));
    assert(envelope_sealed_with(d, machine, p, s, n));
}

} // verus!
