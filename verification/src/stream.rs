//! The stream cipher engine: chunked authenticated encryption and decryption
//! of the payload with AES-256-GCM.
//!
//! The engine works in bounded-size chunks so that peak memory stays
//! proportional to the working-buffer size.  openssl's stateful `Crypter`
//! stands behind two small wrapper types whose ghost fields record what has
//! been fed in and what has come out; their trusted contracts tie those
//! records to the named functions `gcm_ciphertext_of`, `gcm_plaintext_of` and
//! `gcm_tag_of`.

use vstd::prelude::*;
use vstd::slice::slice_subrange;

use crate::constants::{version_seq, version_bytes, STREAM_IV_SIZE, STREAM_KEY_SIZE, STREAM_TAG_SIZE};
use crate::errors::ContainerError;
use crate::primitives::{gcm_ciphertext_of, gcm_plaintext_of, gcm_tag_of};

verus! {

#[verifier::external_type_specification]
#[verifier::external_body]
pub struct ExCrypter(openssl::symm::Crypter);

/// The associated data bound into the stream cipher's authentication tag: the
/// format version followed by the stream nonce, so a ciphertext body cannot
/// be replayed against a different header or format revision.
pub open spec fn stream_aad(iv: Seq<u8>) -> Seq<u8> {
    version_seq() + iv
}

/// An AES-256-GCM encryption in progress.  The ghost fields mirror the
/// parameters and the plaintext fed and ciphertext produced so far.
pub(crate) struct GcmEncryptor {
    pub(crate) inner: openssl::symm::Crypter,
    pub(crate) key: Ghost<Seq<u8>>,
    pub(crate) iv: Ghost<Seq<u8>>,
    pub(crate) aad: Ghost<Seq<u8>>,
    pub(crate) aad_done: Ghost<bool>,
    pub(crate) fed: Ghost<Seq<u8>>,
    pub(crate) out: Ghost<Seq<u8>>,
}

/// Relies on openssl's `Crypter::new` with AES-256-GCM: a fresh cipher
/// context for this key and nonce, in decrypt mode when `decrypt` is set and
/// in encrypt mode otherwise.  AES-256 rejects keys that are not 32 bytes;
/// GCM accepts the nonce lengths admitted here.
#[verifier::external_body]
fn new_gcm_crypter(key: &[u8], iv: &[u8], decrypt: bool) -> (r: Result<
    openssl::symm::Crypter,
    ContainerError,
>)
    requires
        key@.len() == STREAM_KEY_SIZE,
        1 <= iv@.len() <= 0x7fff_ffff,
    ensures
        r matches Err(e) ==> e == ContainerError::CipherFailure,
{
    let mode = if decrypt {
        openssl::symm::Mode::Decrypt
    } else {
        openssl::symm::Mode::Encrypt
    };
    match openssl::symm::Crypter::new(openssl::symm::Cipher::aes_256_gcm(), mode, key, Some(iv)) {
        Ok(c) => Ok(c),
        Err(_) => Err(ContainerError::CipherFailure),
    }
}

impl GcmEncryptor {
    /// Opens a fresh encryption context; the ghost records start out at the
    /// supplied parameters with nothing fed and nothing produced.
    pub(crate) fn new(key: &[u8], iv: &[u8]) -> (r: Result<GcmEncryptor, ContainerError>)
        requires
            key@.len() == STREAM_KEY_SIZE,
            1 <= iv@.len() <= 0x7fff_ffff,
        ensures
            r matches Ok(e) ==> {
                &&& e.key@ == key@
                &&& e.iv@ == iv@
                &&& e.aad@ == Seq::<u8>::empty()
                &&& !e.aad_done@
                &&& e.fed@ == Seq::<u8>::empty()
                &&& e.out@ == Seq::<u8>::empty()
            },
            r matches Err(e) ==> e == ContainerError::CipherFailure,
    {
        match new_gcm_crypter(key, iv, false) {
            Ok(inner) => Ok(GcmEncryptor {
                inner,
                key: Ghost(key@),
                iv: Ghost(iv@),
                aad: Ghost(Seq::empty()),
                aad_done: Ghost(false),
                fed: Ghost(Seq::empty()),
                out: Ghost(Seq::empty()),
            }),
            Err(e) => Err(e),
        }
    }

    /// Relies on openssl's `Crypter::aad_update`: binds the associated data
    /// into the authentication tag; must come before the first `update`.  The
    /// two clauses over the (still empty) records state that GCM maps the
    /// empty plaintext to the empty ciphertext and back.
    #[verifier::external_body]
    pub(crate) fn aad_update(&mut self, aad: &[u8]) -> (r: Result<(), ContainerError>)
        requires
            !old(self).aad_done@,
            old(self).fed@.len() == 0,
            old(self).out@.len() == 0,
            aad@.len() <= 0x7fff_ffff,
        ensures
            r matches Ok(u) ==> {
                &&& final(self).key@ == old(self).key@
                &&& final(self).iv@ == old(self).iv@
                &&& final(self).aad@ == aad@
                &&& final(self).aad_done@
                &&& final(self).fed@ == old(self).fed@
                &&& final(self).out@ == old(self).out@
                &&& final(self).out@ == gcm_ciphertext_of(
                    final(self).key@,
                    final(self).iv@,
                    final(self).aad@,
                    final(self).fed@,
                )
                &&& gcm_plaintext_of(
                    final(self).key@,
                    final(self).iv@,
                    final(self).aad@,
                    final(self).out@,
                ) == final(self).fed@
            },
            r matches Err(e) ==> e == ContainerError::CipherFailure,
    {
        match self.inner.aad_update(aad) {
            Ok(()) => Ok(()),
            Err(_) => Err(ContainerError::CipherFailure),
        }
    }

    /// Relies on openssl's `Crypter::update` in a stream mode (GCM runs on a
    /// counter keystream): each chunk yields exactly its own length of
    /// ciphertext at once, the concatenated output is the GCM ciphertext of
    /// the concatenated input, and decryption with the same parameters
    /// inverts it.
    #[verifier::external_body]
    pub(crate) fn update(&mut self, chunk: &[u8]) -> (r: Result<Vec<u8>, ContainerError>)
        requires
            old(self).aad_done@,
            chunk@.len() + 16 <= 0x7fff_ffff,
        ensures
            r matches Ok(c) ==> {
                &&& final(self).key@ == old(self).key@
                &&& final(self).iv@ == old(self).iv@
                &&& final(self).aad@ == old(self).aad@
                &&& final(self).aad_done@
                &&& final(self).fed@ == old(self).fed@ + chunk@
                &&& final(self).out@ == old(self).out@ + c@
                &&& c@.len() == chunk@.len()
                &&& final(self).out@ == gcm_ciphertext_of(
                    final(self).key@,
                    final(self).iv@,
                    final(self).aad@,
                    final(self).fed@,
                )
                &&& gcm_plaintext_of(
                    final(self).key@,
                    final(self).iv@,
                    final(self).aad@,
                    final(self).out@,
                ) == final(self).fed@
            },
            r matches Err(e) ==> e == ContainerError::CipherFailure,
    {
        let mut out = vec![0u8; chunk.len() + 16];
        match self.inner.update(chunk, &mut out) {
            Ok(count) => {
                out.truncate(count);
                Ok(out)
            }
            Err(_) => Err(ContainerError::CipherFailure),
        }
    }

    /// Relies on openssl's `Crypter::finalize` (which writes no further bytes
    /// in GCM) and `Crypter::get_tag`: the 16-byte tag is a deterministic
    /// function of key, nonce, associated data and the plaintext fed in.
    #[verifier::external_body]
    pub(crate) fn finish(self) -> (r: Result<Vec<u8>, ContainerError>)
        requires
            self.aad_done@,
        ensures
            r matches Ok(t) ==> {
                &&& t@ == gcm_tag_of(self.key@, self.iv@, self.aad@, self.fed@)
                &&& t@.len() == STREAM_TAG_SIZE
            },
            r matches Err(e) ==> e == ContainerError::CipherFailure,
    {
        let mut inner = self.inner;
        let mut rest = vec![0u8; 1];
        if inner.finalize(&mut rest).is_err() {
            return Err(ContainerError::CipherFailure);
        }
        let mut tag = vec![0u8; STREAM_TAG_SIZE];
        match inner.get_tag(&mut tag) {
            Ok(()) => Ok(tag),
            Err(_) => Err(ContainerError::CipherFailure),
        }
    }
}

/// An AES-256-GCM decryption in progress.  The ghost fields mirror the
/// parameters, the ciphertext fed and the plaintext produced so far.
pub(crate) struct GcmDecryptor {
    pub(crate) inner: openssl::symm::Crypter,
    pub(crate) key: Ghost<Seq<u8>>,
    pub(crate) iv: Ghost<Seq<u8>>,
    pub(crate) aad: Ghost<Seq<u8>>,
    pub(crate) aad_done: Ghost<bool>,
    pub(crate) fed: Ghost<Seq<u8>>,
    pub(crate) out: Ghost<Seq<u8>>,
}

impl GcmDecryptor {
    /// Opens a fresh decryption context; the ghost records start out at the
    /// supplied parameters with nothing fed and nothing produced.
    pub(crate) fn new(key: &[u8], iv: &[u8]) -> (r: Result<GcmDecryptor, ContainerError>)
        requires
            key@.len() == STREAM_KEY_SIZE,
            1 <= iv@.len() <= 0x7fff_ffff,
        ensures
            r matches Ok(d) ==> {
                &&& d.key@ == key@
                &&& d.iv@ == iv@
                &&& d.aad@ == Seq::<u8>::empty()
                &&& !d.aad_done@
                &&& d.fed@ == Seq::<u8>::empty()
                &&& d.out@ == Seq::<u8>::empty()
            },
            r matches Err(e) ==> e == ContainerError::CipherFailure,
    {
        match new_gcm_crypter(key, iv, true) {
            Ok(inner) => Ok(GcmDecryptor {
                inner,
                key: Ghost(key@),
                iv: Ghost(iv@),
                aad: Ghost(Seq::empty()),
                aad_done: Ghost(false),
                fed: Ghost(Seq::empty()),
                out: Ghost(Seq::empty()),
            }),
            Err(e) => Err(e),
        }
    }

    /// Relies on openssl's `Crypter::aad_update`, as on the encrypt side.
    #[verifier::external_body]
    pub(crate) fn aad_update(&mut self, aad: &[u8]) -> (r: Result<(), ContainerError>)
        requires
            !old(self).aad_done@,
            old(self).fed@.len() == 0,
            old(self).out@.len() == 0,
            aad@.len() <= 0x7fff_ffff,
        ensures
            r matches Ok(u) ==> {
                &&& final(self).key@ == old(self).key@
                &&& final(self).iv@ == old(self).iv@
                &&& final(self).aad@ == aad@
                &&& final(self).aad_done@
                &&& final(self).fed@ == old(self).fed@
                &&& final(self).out@ == old(self).out@
                &&& final(self).out@ == gcm_plaintext_of(
                    final(self).key@,
                    final(self).iv@,
                    final(self).aad@,
                    final(self).fed@,
                )
            },
            r matches Err(e) ==> e == ContainerError::CipherFailure,
    {
        match self.inner.aad_update(aad) {
            Ok(()) => Ok(()),
            Err(_) => Err(ContainerError::CipherFailure),
        }
    }

    /// Relies on openssl's `Crypter::update` in decrypt mode: GCM deciphers
    /// each chunk at once with the counter keystream, so the concatenated
    /// output is the GCM decryption of the concatenated input, byte for byte
    /// as long.
    #[verifier::external_body]
    pub(crate) fn update(&mut self, chunk: &[u8]) -> (r: Result<Vec<u8>, ContainerError>)
        requires
            old(self).aad_done@,
            chunk@.len() + 16 <= 0x7fff_ffff,
        ensures
            r matches Ok(p) ==> {
                &&& final(self).key@ == old(self).key@
                &&& final(self).iv@ == old(self).iv@
                &&& final(self).aad@ == old(self).aad@
                &&& final(self).aad_done@
                &&& final(self).fed@ == old(self).fed@ + chunk@
                &&& final(self).out@ == old(self).out@ + p@
                &&& p@.len() == chunk@.len()
                &&& final(self).out@ == gcm_plaintext_of(
                    final(self).key@,
                    final(self).iv@,
                    final(self).aad@,
                    final(self).fed@,
                )
            },
            r matches Err(e) ==> e == ContainerError::CipherFailure,
    {
        let mut out = vec![0u8; chunk.len() + 16];
        match self.inner.update(chunk, &mut out) {
            Ok(count) => {
                out.truncate(count);
                Ok(out)
            }
            Err(_) => Err(ContainerError::CipherFailure),
        }
    }

    /// Relies on openssl's `Crypter::set_tag` and `Crypter::finalize` in GCM
    /// decrypt mode: finalization succeeds exactly when the supplied tag is
    /// the authentication tag of the data that was fed through, and no
    /// further bytes are produced.  This is the sole integrity check on the
    /// bulk data.
    #[verifier::external_body]
    pub(crate) fn finish(self, tag: &[u8]) -> (r: Result<(), ContainerError>)
        requires
            self.aad_done@,
            tag@.len() == STREAM_TAG_SIZE,
        ensures
            r matches Ok(u) <==> tag@ == gcm_tag_of(
                self.key@,
                self.iv@,
                self.aad@,
                gcm_plaintext_of(self.key@, self.iv@, self.aad@, self.fed@),
            ),
            r matches Err(e) ==> e == ContainerError::TagMismatch,
    {
        let mut inner = self.inner;
        if inner.set_tag(tag).is_err() {
            return Err(ContainerError::TagMismatch);
        }
        let mut rest = vec![0u8; 1];
        match inner.finalize(&mut rest) {
            Ok(_) => Ok(()),
            Err(_) => Err(ContainerError::TagMismatch),
        }
    }
}

/// An encryption pass fed one chunk at a time: the incremental face of the
/// engine, for callers that hold only one working buffer of the payload at a
/// time.  `new` binds the key, the nonce and the associated data; each `push`
/// enciphers one chunk and returns exactly that much ciphertext; `finish`
/// yields the authentication tag over everything pushed.
pub struct StreamEncryptor {
    enc: GcmEncryptor,
}

impl StreamEncryptor {
    /// The stream key this pass was opened with.
    pub closed spec fn key(&self) -> Seq<u8> {
        self.enc.key@
    }

    /// The stream nonce this pass was opened with.
    pub closed spec fn iv(&self) -> Seq<u8> {
        self.enc.iv@
    }

    /// The plaintext fed in so far.
    pub closed spec fn fed(&self) -> Seq<u8> {
        self.enc.fed@
    }

    /// The ciphertext handed out so far: always the stream cipher's output
    /// for exactly the plaintext fed in.
    pub closed spec fn produced(&self) -> Seq<u8> {
        self.enc.out@
    }

    /// The pass is properly bound and its records are consistent; established
    /// by `new` and preserved by every successful `push`.
    pub closed spec fn wf(&self) -> bool {
        &&& self.enc.aad_done@
        &&& self.enc.aad@ == stream_aad(self.enc.iv@)
        &&& self.enc.out@ == gcm_ciphertext_of(
            self.enc.key@,
            self.enc.iv@,
            stream_aad(self.enc.iv@),
            self.enc.fed@,
        )
        &&& gcm_plaintext_of(
            self.enc.key@,
            self.enc.iv@,
            stream_aad(self.enc.iv@),
            self.enc.out@,
        ) == self.enc.fed@
        &&& self.enc.out@.len() == self.enc.fed@.len()
    }

    /// Opens an encryption pass under `key` and nonce `iv`, binding the
    /// format version and the nonce as associated data.
    pub fn new(key: &[u8], iv: &[u8]) -> (r: Result<StreamEncryptor, ContainerError>)
        requires
            key@.len() == STREAM_KEY_SIZE,
            iv@.len() == STREAM_IV_SIZE,
        ensures
            r matches Ok(e) ==> {
                &&& e.wf()
                &&& e.key() == key@
                &&& e.iv() == iv@
                &&& e.fed() == Seq::<u8>::empty()
                &&& e.produced() == Seq::<u8>::empty()
            },
            r matches Err(e) ==> e == ContainerError::CipherFailure,
    {
        let mut enc = match GcmEncryptor::new(key, iv) {
            Ok(e) => e,
            Err(e) => {
                return Err(e);
            },
        };
        let mut aad = version_bytes();
        aad.extend_from_slice(iv);
        proof {
            assert(aad@ =~= stream_aad(iv@));
        }
        match enc.aad_update(aad.as_slice()) {
            Ok(u) => u,
            Err(e) => {
                return Err(e);
            },
        }
        Ok(StreamEncryptor { enc })
    }

    /// Enciphers one chunk, returning exactly its length of ciphertext.
    pub fn push(&mut self, chunk: &[u8]) -> (r: Result<Vec<u8>, ContainerError>)
        requires
            old(self).wf(),
            chunk@.len() + 16 <= 0x7fff_ffff,
        ensures
            r matches Ok(c) ==> {
                &&& final(self).wf()
                &&& final(self).key() == old(self).key()
                &&& final(self).iv() == old(self).iv()
                &&& final(self).fed() == old(self).fed() + chunk@
                &&& final(self).produced() == old(self).produced() + c@
                &&& c@.len() == chunk@.len()
            },
            r matches Err(e) ==> e == ContainerError::CipherFailure,
    {
        self.enc.update(chunk)
    }

    /// Closes the pass and returns the authentication tag over everything
    /// pushed, to be written as the artifact's final bytes.
    pub fn finish(self) -> (r: Result<Vec<u8>, ContainerError>)
        requires
            self.wf(),
        ensures
            r matches Ok(t) ==> {
                &&& t@ == gcm_tag_of(self.key(), self.iv(), stream_aad(self.iv()), self.fed())
                &&& t@.len() == STREAM_TAG_SIZE
            },
            r matches Err(e) ==> e == ContainerError::CipherFailure,
    {
        self.enc.finish()
    }
}

/// A decryption pass fed one ciphertext chunk at a time, the counterpart of
/// [`StreamEncryptor`].  Plaintext comes out incrementally and is provisional
/// until `finish` verifies the authentication tag: a caller must discard
/// whatever it received when `finish` fails.
pub struct StreamDecryptor {
    dec: GcmDecryptor,
}

impl StreamDecryptor {
    /// The stream key this pass was opened with.
    pub closed spec fn key(&self) -> Seq<u8> {
        self.dec.key@
    }

    /// The stream nonce this pass was opened with.
    pub closed spec fn iv(&self) -> Seq<u8> {
        self.dec.iv@
    }

    /// The ciphertext fed in so far.
    pub closed spec fn fed(&self) -> Seq<u8> {
        self.dec.fed@
    }

    /// The plaintext handed out so far: always the stream cipher's decryption
    /// of exactly the ciphertext fed in.
    pub closed spec fn produced(&self) -> Seq<u8> {
        self.dec.out@
    }

    /// The pass is properly bound and its records are consistent; established
    /// by `new` and preserved by every successful `push`.
    pub closed spec fn wf(&self) -> bool {
        &&& self.dec.aad_done@
        &&& self.dec.aad@ == stream_aad(self.dec.iv@)
        &&& self.dec.out@ == gcm_plaintext_of(
            self.dec.key@,
            self.dec.iv@,
            stream_aad(self.dec.iv@),
            self.dec.fed@,
        )
        &&& self.dec.out@.len() == self.dec.fed@.len()
    }

    /// Opens a decryption pass under `key` and nonce `iv`, binding the format
    /// version and the nonce as associated data.
    pub fn new(key: &[u8], iv: &[u8]) -> (r: Result<StreamDecryptor, ContainerError>)
        requires
            key@.len() == STREAM_KEY_SIZE,
            iv@.len() == STREAM_IV_SIZE,
        ensures
            r matches Ok(d) ==> {
                &&& d.wf()
                &&& d.key() == key@
                &&& d.iv() == iv@
                &&& d.fed() == Seq::<u8>::empty()
                &&& d.produced() == Seq::<u8>::empty()
            },
            r matches Err(e) ==> e == ContainerError::CipherFailure,
    {
        let mut dec = match GcmDecryptor::new(key, iv) {
            Ok(d) => d,
            Err(e) => {
                return Err(e);
            },
        };
        let mut aad = version_bytes();
        aad.extend_from_slice(iv);
        proof {
            assert(aad@ =~= stream_aad(iv@));
        }
        match dec.aad_update(aad.as_slice()) {
            Ok(u) => u,
            Err(e) => {
                return Err(e);
            },
        }
        Ok(StreamDecryptor { dec })
    }

    /// Deciphers one chunk, returning exactly its length of provisional
    /// plaintext.
    pub fn push(&mut self, chunk: &[u8]) -> (r: Result<Vec<u8>, ContainerError>)
        requires
            old(self).wf(),
            chunk@.len() + 16 <= 0x7fff_ffff,
        ensures
            r matches Ok(p) ==> {
                &&& final(self).wf()
                &&& final(self).key() == old(self).key()
                &&& final(self).iv() == old(self).iv()
                &&& final(self).fed() == old(self).fed() + chunk@
                &&& final(self).produced() == old(self).produced() + p@
                &&& p@.len() == chunk@.len()
            },
            r matches Err(e) ==> e == ContainerError::CipherFailure,
    {
        self.dec.update(chunk)
    }

    /// Verifies the authentication tag against everything fed in.  Succeeds
    /// exactly when `tag` is the tag the stream cipher computes over the
    /// plaintext handed out under this pass's parameters; on failure the
    /// plaintext already handed out must be discarded.
    pub fn finish(self, tag: &[u8]) -> (r: Result<(), ContainerError>)
        requires
            self.wf(),
            tag@.len() == STREAM_TAG_SIZE,
        ensures
            r matches Ok(u) <==> tag@ == gcm_tag_of(
                self.key(),
                self.iv(),
                stream_aad(self.iv()),
                self.produced(),
            ),
            r matches Err(e) ==> e == ContainerError::TagMismatch,
    {
        self.dec.finish(tag)
    }
}

/// Enciphers `payload` under `key` and nonce `iv` in chunks of at most
/// `buffer_size` bytes, returning the ciphertext body and the authentication
/// tag.  The body is byte-for-byte as long as the payload, the associated
/// data is the format version followed by the nonce, and decryption with the
/// same parameters recovers the payload.
pub fn encrypt_stream(key: &[u8], iv: &[u8], payload: &[u8], buffer_size: usize) -> (r: Result<
    (Vec<u8>, Vec<u8>),
    ContainerError,
>)
    requires
        key@.len() == STREAM_KEY_SIZE,
        iv@.len() == STREAM_IV_SIZE,
        1 <= buffer_size,
        buffer_size + 16 <= 0x7fff_ffff,
    ensures
        r matches Ok(bt) ==> {
            &&& bt.0@ == gcm_ciphertext_of(key@, iv@, stream_aad(iv@), payload@)
            &&& bt.0@.len() == payload@.len()
            &&& gcm_plaintext_of(key@, iv@, stream_aad(iv@), bt.0@) == payload@
            &&& bt.1@ == gcm_tag_of(key@, iv@, stream_aad(iv@), payload@)
            &&& bt.1@.len() == STREAM_TAG_SIZE
        },
        r matches Err(e) ==> e == ContainerError::CipherFailure,
{
    let mut enc = match GcmEncryptor::new(key, iv) {
        Ok(e) => e,
        Err(e) => {
            return Err(e);
        },
    };
    let mut aad = version_bytes();
    aad.extend_from_slice(iv);
    proof {
        assert(aad@ =~= stream_aad(iv@));
    }
    match enc.aad_update(aad.as_slice()) {
        Ok(u) => u,
        Err(e) => {
            return Err(e);
        },
    }
    let len = payload.len();
    let mut body: Vec<u8> = Vec::new();
    let mut i: usize = 0;
    proof {
        assert(payload@.subrange(0, 0) =~= Seq::<u8>::empty());
    }
    while i < len
        invariant
            i <= len,
            len == payload@.len(),
            key@.len() == STREAM_KEY_SIZE,
            iv@.len() == STREAM_IV_SIZE,
            1 <= buffer_size,
            buffer_size + 16 <= 0x7fff_ffff,
            enc.key@ == key@,
            enc.iv@ == iv@,
            enc.aad@ == stream_aad(iv@),
            enc.aad_done@,
            enc.fed@ == payload@.subrange(0, i as int),
            enc.out@ == body@,
            enc.out@ == gcm_ciphertext_of(key@, iv@, stream_aad(iv@), enc.fed@),
            gcm_plaintext_of(key@, iv@, stream_aad(iv@), enc.out@) == enc.fed@,
            body@.len() == i,
        decreases len - i,
    {
        let end = if len - i < buffer_size {
            len
        } else {
            i + buffer_size
        };
        let chunk = slice_subrange(payload, i, end);
        let mut piece = match enc.update(chunk) {
            Ok(c) => c,
            Err(e) => {
                return Err(e);
            },
        };
        body.append(&mut piece);
        proof {
            assert(payload@.subrange(0, i as int) + payload@.subrange(i as int, end as int)
                =~= payload@.subrange(0, end as int));
        }
        i = end;
    }
    proof {
        assert(payload@.subrange(0, len as int) =~= payload@);
    }
    let tag = match enc.finish() {
        Ok(t) => t,
        Err(e) => {
            return Err(e);
        },
    };
    Ok((body, tag))
}

/// Deciphers a ciphertext `body` under `key` and nonce `iv` in chunks of at
/// most `buffer_size` bytes, then verifies the authentication `tag` before
/// the plaintext is released.  A `TagMismatch` result means exactly that the
/// tag is not the one the stream cipher computes over this body under these
/// parameters.
pub fn decrypt_stream(key: &[u8], iv: &[u8], body: &[u8], tag: &[u8], buffer_size: usize) -> (r:
    Result<Vec<u8>, ContainerError>)
    requires
        key@.len() == STREAM_KEY_SIZE,
        iv@.len() == STREAM_IV_SIZE,
        tag@.len() == STREAM_TAG_SIZE,
        1 <= buffer_size,
        buffer_size + 16 <= 0x7fff_ffff,
    ensures
        r matches Ok(p) ==> {
            &&& p@ == gcm_plaintext_of(key@, iv@, stream_aad(iv@), body@)
            &&& p@.len() == body@.len()
            &&& tag@ == gcm_tag_of(key@, iv@, stream_aad(iv@), p@)
        },
        r == Err::<Vec<u8>, ContainerError>(ContainerError::TagMismatch) ==> tag@ != gcm_tag_of(
            key@,
            iv@,
            stream_aad(iv@),
            gcm_plaintext_of(key@, iv@, stream_aad(iv@), body@),
        ),
        r matches Err(e) ==> (e == ContainerError::TagMismatch || e
            == ContainerError::CipherFailure),
{
    let mut dec = match GcmDecryptor::new(key, iv) {
        Ok(d) => d,
        Err(e) => {
            return Err(e);
        },
    };
    let mut aad = version_bytes();
    aad.extend_from_slice(iv);
    proof {
        assert(aad@ =~= stream_aad(iv@));
    }
    match dec.aad_update(aad.as_slice()) {
        Ok(u) => u,
        Err(e) => {
            return Err(e);
        },
    }
    let len = body.len();
    let mut plaintext: Vec<u8> = Vec::new();
    let mut i: usize = 0;
    proof {
        assert(body@.subrange(0, 0) =~= Seq::<u8>::empty());
    }
    while i < len
        invariant
            i <= len,
            len == body@.len(),
            key@.len() == STREAM_KEY_SIZE,
            iv@.len() == STREAM_IV_SIZE,
            1 <= buffer_size,
            buffer_size + 16 <= 0x7fff_ffff,
            dec.key@ == key@,
            dec.iv@ == iv@,
            dec.aad@ == stream_aad(iv@),
            dec.aad_done@,
            dec.fed@ == body@.subrange(0, i as int),
            dec.out@ == plaintext@,
            dec.out@ == gcm_plaintext_of(key@, iv@, stream_aad(iv@), dec.fed@),
            plaintext@.len() == i,
        decreases len - i,
    {
        let end = if len - i < buffer_size {
            len
        } else {
            i + buffer_size
        };
        let chunk = slice_subrange(body, i, end);
        let mut piece = match dec.update(chunk) {
            Ok(p) => p,
            Err(e) => {
                return Err(e);
            },
        };
        plaintext.append(&mut piece);
        proof {
            assert(body@.subrange(0, i as int) + body@.subrange(i as int, end as int)
                =~= body@.subrange(0, end as int));
        }
        i = end;
    }
    proof {
        assert(body@.subrange(0, len as int) =~= body@);
    }
    match dec.finish(tag) {
        Ok(u) => u,
        Err(e) => {
            return Err(e);
        },
    }
    Ok(plaintext)
}

} // verus!
