use vstd::prelude::*;
use aes::cipher::{BlockDecrypt, BlockEncrypt, KeyInit};

verus! {

/// Size in bytes of an AES block, of an AES-128 key and of a CBC initialisation vector.
pub const BLOCK_SIZE: usize = 16;

/// What AES-128 makes of one 16-byte block under a 16-byte key.
pub uninterp spec fn aes128_encrypted(key: Seq<u8>, block: Seq<u8>) -> Seq<u8>;

/// What the inverse AES-128 permutation makes of one 16-byte block under a 16-byte key.
pub uninterp spec fn aes128_decrypted(key: Seq<u8>, block: Seq<u8>) -> Seq<u8>;

/// Encrypts one block with `aes::Aes128` (`KeyInit::new_from_slice`, then
/// `BlockEncrypt::encrypt_block`). Trusted: the result is the AES-128 image of the
/// block, is 16 bytes long, and the inverse permutation under the same key maps it
/// back onto the block.
#[verifier::external_body]
fn aes128_encrypt_block(key: &[u8], block: &[u8]) -> (out: Vec<u8>)
    requires
        key@.len() == BLOCK_SIZE,
        block@.len() == BLOCK_SIZE,
    ensures
        out@ == aes128_encrypted(key@, block@),
        out@.len() == BLOCK_SIZE,
        aes128_decrypted(key@, out@) == block@,
{
    let cipher = aes::Aes128::new_from_slice(key).unwrap();
    let mut b = aes::Block::clone_from_slice(block);
    cipher.encrypt_block(&mut b);
    b.to_vec()
}

/// Decrypts one block with `aes::Aes128` (`KeyInit::new_from_slice`, then
/// `BlockDecrypt::decrypt_block`). Trusted: the result is the inverse AES-128 image of
/// the block, is 16 bytes long, and encrypting it under the same key gives the block back.
#[verifier::external_body]
fn aes128_decrypt_block(key: &[u8], block: &[u8]) -> (out: Vec<u8>)
    requires
        key@.len() == BLOCK_SIZE,
        block@.len() == BLOCK_SIZE,
    ensures
        out@ == aes128_decrypted(key@, block@),
        out@.len() == BLOCK_SIZE,
        aes128_encrypted(key@, out@) == block@,
{
    let cipher = aes::Aes128::new_from_slice(key).unwrap();
    let mut b = aes::Block::clone_from_slice(block);
    cipher.decrypt_block(&mut b);
    b.to_vec()
}

/// Byte-wise exclusive or of the first 16 bytes of `a` and `b`.
pub open spec fn xor_block(a: Seq<u8>, b: Seq<u8>) -> Seq<u8> {
    Seq::new(BLOCK_SIZE as nat, |i: int| a[i] ^ b[i])
}

/// CBC encryption of the whole blocks of `data`, chained from `prev`.
pub open spec fn cbc_encrypt_spec(key: Seq<u8>, prev: Seq<u8>, data: Seq<u8>) -> Seq<u8>
    decreases data.len(),
{
    if data.len() < BLOCK_SIZE {
        Seq::empty()
    } else {
        let c = aes128_encrypted(key, xor_block(data.take(BLOCK_SIZE as int), prev));
        c + cbc_encrypt_spec(key, c, data.skip(BLOCK_SIZE as int))
    }
}

/// CBC decryption of the whole blocks of `data`, chained from `prev`.
pub open spec fn cbc_decrypt_spec(key: Seq<u8>, prev: Seq<u8>, data: Seq<u8>) -> Seq<u8>
    decreases data.len(),
{
    if data.len() < BLOCK_SIZE {
        Seq::empty()
    } else {
        let c = data.take(BLOCK_SIZE as int);
        xor_block(aes128_decrypted(key, c), prev) + cbc_decrypt_spec(key, c, data.skip(BLOCK_SIZE as int))
    }
}

/// Every block that CBC encryption of `data` from `prev` hands to AES comes back
/// through the inverse permutation.
spec fn cbc_invertible(key: Seq<u8>, prev: Seq<u8>, data: Seq<u8>) -> bool
    decreases data.len(),
{
    data.len() < BLOCK_SIZE || {
        let x = xor_block(data.take(BLOCK_SIZE as int), prev);
        let c = aes128_encrypted(key, x);
        &&& c.len() == BLOCK_SIZE
        &&& aes128_decrypted(key, c) == x
        &&& cbc_invertible(key, c, data.skip(BLOCK_SIZE as int))
    }
}

proof fn lemma_xor_block_involution(a: Seq<u8>, b: Seq<u8>)
    requires
        a.len() == BLOCK_SIZE,
        b.len() == BLOCK_SIZE,
    ensures
        xor_block(xor_block(a, b), b) == a,
{
    assert forall|i: int| 0 <= i < BLOCK_SIZE implies #[trigger] xor_block(xor_block(a, b), b)[i] == a[i] by {
        let x = a[i];
        let y = b[i];
        assert((x ^ y) ^ y == x) by (bit_vector);
    }
    assert(xor_block(xor_block(a, b), b) =~= a);
}

proof fn lemma_cbc_roundtrip(key: Seq<u8>, prev: Seq<u8>, data: Seq<u8>)
    requires
        prev.len() == BLOCK_SIZE,
        data.len() % (BLOCK_SIZE as nat) == 0,
        cbc_invertible(key, prev, data),
    ensures
        cbc_decrypt_spec(key, prev, cbc_encrypt_spec(key, prev, data)) == data,
    decreases data.len(),
{
    if data.len() < BLOCK_SIZE {
        assert(data =~= Seq::<u8>::empty());
    } else {
        let head = data.take(BLOCK_SIZE as int);
        let rest = data.skip(BLOCK_SIZE as int);
        let x = xor_block(head, prev);
        let c = aes128_encrypted(key, x);
        lemma_cbc_roundtrip(key, c, rest);
        let tail = cbc_encrypt_spec(key, c, rest);
        let enc = c + tail;
        assert(enc.take(BLOCK_SIZE as int) =~= c);
        assert(enc.skip(BLOCK_SIZE as int) =~= tail);
        lemma_xor_block_involution(head, prev);
        assert(data =~= head + rest);
    }
}

/// The 16 bytes of `data` from `off` on.
fn block_at(data: &[u8], off: usize) -> (out: Vec<u8>)
    requires
        off + BLOCK_SIZE <= data.len(),
    ensures
        out@ == data@.subrange(off as int, off + BLOCK_SIZE),
{
    let mut out: Vec<u8> = Vec::new();
    let mut j: usize = 0;
    while j < BLOCK_SIZE
        invariant
            j <= BLOCK_SIZE,
            off + BLOCK_SIZE <= data.len(),
            out@ == data@.subrange(off as int, off + j),
        decreases BLOCK_SIZE - j,
    {
        out.push(data[off + j]);
        j = j + 1;
        assert(out@ =~= data@.subrange(off as int, off + j));
    }
    out
}

/// The exclusive or of the 16 bytes of `a` from `off` on with the first 16 bytes of `b`.
fn xor_at(a: &[u8], off: usize, b: &[u8]) -> (out: Vec<u8>)
    requires
        off + BLOCK_SIZE <= a.len(),
        b@.len() == BLOCK_SIZE,
    ensures
        out@ == xor_block(a@.subrange(off as int, off + BLOCK_SIZE), b@),
{
    let ghost block = a@.subrange(off as int, off + BLOCK_SIZE);
    let mut out: Vec<u8> = Vec::new();
    let mut j: usize = 0;
    while j < BLOCK_SIZE
        invariant
            j <= BLOCK_SIZE,
            off + BLOCK_SIZE <= a.len(),
            b@.len() == BLOCK_SIZE,
            block == a@.subrange(off as int, off + BLOCK_SIZE),
            out@ =~= xor_block(block, b@).take(j as int),
        decreases BLOCK_SIZE - j,
    {
        out.push(a[off + j] ^ b[j]);
        j = j + 1;
        assert(out@ =~= xor_block(block, b@).take(j as int));
    }
    assert(xor_block(block, b@).take(BLOCK_SIZE as int) =~= xor_block(block, b@));
    out
}

/// AES-128 in CBC mode over data made of whole blocks: each plaintext block is
/// combined by exclusive or with the previous ciphertext block (with `iv` before the
/// first) and then encrypted. Decrypting the result with the same key and vector
/// gives `data` back.
pub fn cbc_encrypt(key: &[u8], iv: &[u8], data: &[u8]) -> (out: Vec<u8>)
    requires
        key@.len() == BLOCK_SIZE,
        iv@.len() == BLOCK_SIZE,
        data@.len() % (BLOCK_SIZE as nat) == 0,
    ensures
        out@ == cbc_encrypt_spec(key@, iv@, data@),
        out@.len() == data@.len(),
        cbc_decrypt_spec(key@, iv@, out@) == data@,
{
    let mut out: Vec<u8> = Vec::new();
    let mut prev: Vec<u8> = block_at(iv, 0);
    assert(prev@ =~= iv@);
    let mut i: usize = 0;
    assert(data@.skip(0) =~= data@);
    while i < data.len()
        invariant
            key@.len() == BLOCK_SIZE,
            iv@.len() == BLOCK_SIZE,
            data@.len() % (BLOCK_SIZE as nat) == 0,
            i % BLOCK_SIZE == 0,
            i <= data@.len(),
            prev@.len() == BLOCK_SIZE,
            out@.len() == i,
            cbc_encrypt_spec(key@, iv@, data@) == out@ + cbc_encrypt_spec(key@, prev@, data@.skip(i as int)),
            cbc_invertible(key@, prev@, data@.skip(i as int)) ==> cbc_invertible(key@, iv@, data@),
        decreases data@.len() - i,
    {
        let ghost rest = data@.skip(i as int);
        let x = xor_at(data, i, &prev);
        let mut c = aes128_encrypt_block(key, &x);
        assert(rest.take(BLOCK_SIZE as int) =~= data@.subrange(i as int, i + BLOCK_SIZE));
        assert(rest.skip(BLOCK_SIZE as int) =~= data@.skip(i + BLOCK_SIZE));
        let ghost old_out = out@;
        let ghost tail = cbc_encrypt_spec(key@, c@, data@.skip(i + BLOCK_SIZE));
        prev = c.clone();
        out.append(&mut c);
        assert(old_out + (prev@ + tail) =~= out@ + tail);
        i = i + BLOCK_SIZE;
    }
    assert(data@.skip(i as int) =~= Seq::<u8>::empty());
    assert(out@ + Seq::<u8>::empty() =~= out@);
    proof {
        lemma_cbc_roundtrip(key@, iv@, data@);
    }
    out
}

/// AES-128 in CBC mode, inverted: each ciphertext block is decrypted and combined by
/// exclusive or with the ciphertext block before it (with `iv` before the first).
pub fn cbc_decrypt(key: &[u8], iv: &[u8], data: &[u8]) -> (out: Vec<u8>)
    requires
        key@.len() == BLOCK_SIZE,
        iv@.len() == BLOCK_SIZE,
        data@.len() % (BLOCK_SIZE as nat) == 0,
    ensures
        out@ == cbc_decrypt_spec(key@, iv@, data@),
        out@.len() == data@.len(),
{
    let mut out: Vec<u8> = Vec::new();
    let mut prev: Vec<u8> = block_at(iv, 0);
    assert(prev@ =~= iv@);
    let mut i: usize = 0;
    assert(data@.skip(0) =~= data@);
    while i < data.len()
        invariant
            key@.len() == BLOCK_SIZE,
            iv@.len() == BLOCK_SIZE,
            data@.len() % (BLOCK_SIZE as nat) == 0,
            i % BLOCK_SIZE == 0,
            i <= data@.len(),
            prev@.len() == BLOCK_SIZE,
            out@.len() == i,
            cbc_decrypt_spec(key@, iv@, data@) == out@ + cbc_decrypt_spec(key@, prev@, data@.skip(i as int)),
        decreases data@.len() - i,
    {
        let ghost rest = data@.skip(i as int);
        let c = block_at(data, i);
        let d = aes128_decrypt_block(key, &c);
        let mut p = xor_at(&d, 0, &prev);
        assert(d@.subrange(0, BLOCK_SIZE as int) =~= d@);
        assert(rest.take(BLOCK_SIZE as int) =~= c@);
        assert(rest.skip(BLOCK_SIZE as int) =~= data@.skip(i + BLOCK_SIZE));
        let ghost old_out = out@;
        let ghost tail = cbc_decrypt_spec(key@, c@, data@.skip(i + BLOCK_SIZE));
        let ghost pv = p@;
        out.append(&mut p);
        assert(old_out + (pv + tail) =~= out@ + tail);
        prev = c;
        i = i + BLOCK_SIZE;
    }
    assert(data@.skip(i as int) =~= Seq::<u8>::empty());
    assert(out@ + Seq::<u8>::empty() =~= out@);
    out
}

/// PKCS#7 padding: between 1 and 16 bytes, each holding the number of bytes added,
/// so that the length becomes a multiple of the block size.
pub open spec fn spec_pkcs7_pad(data: Seq<u8>) -> Seq<u8> {
    let n = (BLOCK_SIZE - data.len() % (BLOCK_SIZE as nat)) as nat;
    data + Seq::new(n, |i: int| n as u8)
}

/// Removes PKCS#7 padding: the last byte `n` must lie in 1..=16 and the last `n`
/// bytes must all equal `n`; otherwise the padding is refused.
pub open spec fn spec_pkcs7_unpad(data: Seq<u8>) -> Option<Seq<u8>> {
    if data.len() == 0 {
        None
    } else {
        let n = data.last() as int;
        if 1 <= n <= BLOCK_SIZE && n <= data.len() && (forall|i: int|
            data.len() - n <= i < data.len() ==> #[trigger] data[i] == n) {
            Some(data.take(data.len() - n))
        } else {
            None
        }
    }
}

/// Removing the padding that `spec_pkcs7_pad` adds gives the data back, and the
/// padded data fills whole blocks.
pub proof fn lemma_pkcs7_roundtrip(data: Seq<u8>)
    ensures
        spec_pkcs7_pad(data).len() % (BLOCK_SIZE as nat) == 0,
        spec_pkcs7_pad(data).len() > data.len(),
        spec_pkcs7_unpad(spec_pkcs7_pad(data)) == Some(data),
{
    let len = data.len();
    let n = (BLOCK_SIZE - len % (BLOCK_SIZE as nat)) as nat;
    let padded = spec_pkcs7_pad(data);
    assert(1 <= n <= 16);
    assert((len + n) % 16 == 0) by {
        vstd::arithmetic::div_mod::lemma_fundamental_div_mod(len as int, 16);
        vstd::arithmetic::div_mod::lemma_mod_multiples_basic(len as int / 16 + 1, 16);
    }
    assert(padded.len() == len + n);
    assert(padded.last() == n as u8);
    assert(padded.take(len as int) =~= data);
}

/// PKCS#7 padding puts `n = 16 - |data| mod 16` bytes after the data, between 1 and 16
/// of them, each equal to `n`, and leaves the data in front as it was.
pub proof fn lemma_pkcs7_pad_bytes(data: Seq<u8>)
    ensures
        1 <= 16 - data.len() % 16 <= 16,
        spec_pkcs7_pad(data).len() == data.len() + (16 - data.len() % 16),
        spec_pkcs7_pad(data).take(data.len() as int) == data,
        forall|i: int| data.len() <= i < spec_pkcs7_pad(data).len()
            ==> #[trigger] spec_pkcs7_pad(data)[i] == (16 - data.len() % 16) as u8,
        spec_pkcs7_pad(data) == data + Seq::new((16 - data.len() % 16) as nat, |i: int| (16 - data.len() % 16) as u8),
{
    let padded = spec_pkcs7_pad(data);
    assert(padded.take(data.len() as int) =~= data);
    assert(padded =~= data + Seq::new((16 - data.len() % 16) as nat, |i: int| (16 - data.len() % 16) as u8));
}

/// Removing padding undoes standard PKCS#7 padding of any length from 1 to 16: the data
/// followed by `n` bytes equal to `n` unpads to the data.
pub proof fn lemma_pkcs7_unpad_inverts(data: Seq<u8>, n: nat)
    requires
        1 <= n <= 16,
    ensures
        spec_pkcs7_unpad(data + Seq::new(n, |i: int| n as u8)) == Some(data),
{
    let padded = data + Seq::new(n, |i: int| n as u8);
    assert(padded.len() == data.len() + n);
    assert(padded.last() == n as u8);
    assert(forall|i: int| padded.len() - n <= i < padded.len() ==> #[trigger] padded[i] == n);
    assert(padded.take(padded.len() - n) =~= data);
}

/// Pads `data` as PKCS#7 does for 16-byte blocks.
pub fn pkcs7_pad(data: &[u8]) -> (out: Vec<u8>)
    requires
        data@.len() + BLOCK_SIZE <= usize::MAX,
    ensures
        out@ == spec_pkcs7_pad(data@),
        out@ == data@ + Seq::new((16 - data@.len() % 16) as nat, |i: int| (16 - data@.len() % 16) as u8),
{
    let n: usize = BLOCK_SIZE - data.len() % BLOCK_SIZE;
    let mut out = vstd::slice::slice_to_vec(data);
    let ghost pad = Seq::new(n as nat, |i: int| n as u8);
    let mut k: usize = 0;
    while k < n
        invariant
            k <= n,
            n <= BLOCK_SIZE,
            pad == Seq::new(n as nat, |i: int| n as u8),
            out@ =~= data@ + pad.take(k as int),
        decreases n - k,
    {
        out.push(n as u8);
        k = k + 1;
        assert(out@ =~= data@ + pad.take(k as int));
    }
    assert(pad.take(n as int) =~= pad);
    proof {
        lemma_pkcs7_pad_bytes(data@);
    }
    out
}

/// Strips PKCS#7 padding, or returns `None` where the padding is malformed.
pub fn pkcs7_unpad(data: &[u8]) -> (out: Option<Vec<u8>>)
    ensures
        match out {
            Some(v) => spec_pkcs7_unpad(data@) == Some(v@),
            None => spec_pkcs7_unpad(data@) is None,
        },
{
    let len = data.len();
    if len == 0 {
        return None;
    }
    let last = data[len - 1];
    let n = last as usize;
    if n < 1 || n > BLOCK_SIZE || n > len {
        return None;
    }
    let mut i: usize = len - n;
    while i < len
        invariant
            len == data@.len(),
            1 <= n <= len,
            n == data@.last(),
            len - n <= i <= len,
            forall|j: int| len - n <= j < i ==> #[trigger] data@[j] == n,
        decreases len - i,
    {
        if data[i] as usize != n {
            return None;
        }
        i = i + 1;
    }
    let mut out: Vec<u8> = Vec::new();
    let mut k: usize = 0;
    while k < len - n
        invariant
            len == data@.len(),
            n <= len,
            k <= len - n,
            out@ =~= data@.take(k as int),
        decreases len - n - k,
    {
        out.push(data[k]);
        k = k + 1;
        assert(out@ =~= data@.take(k as int));
    }
    Some(out)
}

/// The AES-128 key under which the game API encrypts its message bodies.
pub open spec fn spec_api_key() -> Seq<u8> {
    seq![103u8, 50, 102, 99, 67, 48, 90, 99, 122, 78, 57, 77, 84, 74, 54, 49]
}

/// The CBC initialisation vector that the game API uses with `spec_api_key`.
pub open spec fn spec_api_iv() -> Seq<u8> {
    seq![109u8, 115, 120, 51, 73, 86, 48, 105, 57, 88, 69, 53, 117, 89, 90, 49]
}

fn api_key() -> (k: Vec<u8>)
    ensures
        k@ == spec_api_key(),
{
    let k: Vec<u8> = vec![103u8, 50, 102, 99, 67, 48, 90, 99, 122, 78, 57, 77, 84, 74, 54, 49];
    assert(k@ =~= spec_api_key());
    k
}

fn api_iv() -> (iv: Vec<u8>)
    ensures
        iv@ == spec_api_iv(),
{
    let iv: Vec<u8> = vec![109u8, 115, 120, 51, 73, 86, 48, 105, 57, 88, 69, 53, 117, 89, 90, 49];
    assert(iv@ =~= spec_api_iv());
    iv
}

/// Why an encrypted body cannot be decrypted.
#[derive(Debug, Clone, Copy, PartialEq, Eq, Structural)]
pub enum DecryptError {
    /// The body is not made of whole 16-byte blocks.
    InvalidLength,
    /// The decrypted body does not end in well-formed PKCS#7 padding.
    InvalidPadding,
}

/// A body encrypted as the game API does: PKCS#7 padding, then AES-128-CBC under
/// the API key and vector.
pub open spec fn spec_encrypt(data: Seq<u8>) -> Seq<u8> {
    cbc_encrypt_spec(spec_api_key(), spec_api_iv(), spec_pkcs7_pad(data))
}

/// What decrypting a body as the game API does gives: refused unless the body is made
/// of whole blocks, and refused unless the decrypted blocks end in valid padding.
pub open spec fn spec_decrypt(data: Seq<u8>) -> Result<Seq<u8>, DecryptError> {
    if data.len() % (BLOCK_SIZE as nat) != 0 {
        Err(DecryptError::InvalidLength)
    } else {
        match spec_pkcs7_unpad(cbc_decrypt_spec(spec_api_key(), spec_api_iv(), data)) {
            Some(plain) => Ok(plain),
            None => Err(DecryptError::InvalidPadding),
        }
    }
}

/// A body made of whole blocks whose CBC decryption under the API key and vector is
/// `data` followed by `n` bytes equal to `n` (1 to 16) decrypts to `data`.
pub proof fn lemma_decrypt_strips_padding(body: Seq<u8>, data: Seq<u8>, n: nat)
    requires
        1 <= n <= 16,
        body.len() % 16 == 0,
        cbc_decrypt_spec(spec_api_key(), spec_api_iv(), body) == data + Seq::new(n, |i: int| n as u8),
    ensures
        spec_decrypt(body) == Ok::<Seq<u8>, DecryptError>(data),
{
    lemma_pkcs7_unpad_inverts(data, n);
}

/// Encrypts a body for the game API. Decrypting the result gives `data` back.
pub fn encrypt(data: &[u8]) -> (out: Vec<u8>)
    requires
        data@.len() + BLOCK_SIZE <= usize::MAX,
    ensures
        out@ == spec_encrypt(data@),
        out@ == cbc_encrypt_spec(
            spec_api_key(),
            spec_api_iv(),
            data@ + Seq::new((16 - data@.len() % 16) as nat, |i: int| (16 - data@.len() % 16) as u8),
        ),
        out@.len() == spec_pkcs7_pad(data@).len(),
        spec_decrypt(out@) == Ok::<Seq<u8>, DecryptError>(data@),
{
    let key = api_key();
    let iv = api_iv();
    let padded = pkcs7_pad(data);
    proof {
        lemma_pkcs7_roundtrip(data@);
        lemma_pkcs7_pad_bytes(data@);
    }
    cbc_encrypt(&key, &iv, &padded)
}

/// Decrypts a body of the game API.
pub fn decrypt(data: &[u8]) -> (res: Result<Vec<u8>, DecryptError>)
    ensures
        match res {
            Ok(plain) => spec_decrypt(data@) == Ok::<Seq<u8>, DecryptError>(plain@),
            Err(e) => spec_decrypt(data@) == Err::<Seq<u8>, DecryptError>(e),
        },
{
    if data.len() % BLOCK_SIZE != 0 {
        return Err(DecryptError::InvalidLength);
    }
    let key = api_key();
    let iv = api_iv();
    let padded = cbc_decrypt(&key, &iv, data);
    match pkcs7_unpad(&padded) {
        Some(plain) => Ok(plain),
        None => Err(DecryptError::InvalidPadding),
    }
}

} // verus!
