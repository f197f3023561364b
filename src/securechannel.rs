//! The secure channel: session key derivation from a static authentication
//! key and two challenges, the handshake cryptograms, and the per-message
//! transform (encrypt and MAC commands, verify and decrypt responses) with
//! its MAC chain and message counter.

use vstd::prelude::*;
use crate::be::{
    be_bytes, lemma_be_bytes_len, lemma_be_value_of_bytes, lemma_pow256_facts, push_be,
};
use crate::command::{self, command_body, encode_command, CommandView};
use crate::connector::copy_range;
use crate::error::SessionErrorKind;
use crate::wrap::wipe_bytes;
use crate::object::zeros;
use crate::response::{
    self, be16, CREATE_SESSION, code_to_byte, decode, parses, Code, AUTHENTICATE_SESSION, MAC_SIZE,
    SESSION_MESSAGE,
};

verus! {

/// Size of an AES-128 key, and of a block
pub const KEY_SIZE: usize = 16;

/// Size of a static authentication key: encryption key, then MAC key
pub const AUTH_KEY_SIZE: usize = 32;

/// Size of each challenge
pub const CHALLENGE_SIZE: usize = 8;

/// Size of each cryptogram
pub const CRYPTOGRAM_SIZE: usize = 8;

/// Derivation constant of the device cryptogram
pub const CARD_CRYPTOGRAM: u8 = 0x00;

/// Derivation constant of the host cryptogram
pub const HOST_CRYPTOGRAM: u8 = 0x01;

/// Derivation constant of the session encryption key
pub const S_ENC: u8 = 0x04;

/// Derivation constant of the session command-MAC key
pub const S_MAC: u8 = 0x06;

/// Derivation constant of the session response-MAC key
pub const S_RMAC: u8 = 0x07;

/// The AES-128 CMAC tag of `msg` under `key`.
pub uninterp spec fn cmac_aes128(key: Seq<u8>, msg: Seq<u8>) -> Seq<u8>;

/// One AES-128 block `block` encrypted under `key`.
pub uninterp spec fn aes128_encrypt_block(key: Seq<u8>, block: Seq<u8>) -> Seq<u8>;

/// `data` encrypted with AES-128 in CBC mode under `key` from `iv`, unpadded.
pub uninterp spec fn aes128_cbc_encrypt(key: Seq<u8>, iv: Seq<u8>, data: Seq<u8>) -> Seq<u8>;

/// `data` decrypted with AES-128 in CBC mode under `key` from `iv`, unpadded.
pub uninterp spec fn aes128_cbc_decrypt(key: Seq<u8>, iv: Seq<u8>, data: Seq<u8>) -> Seq<u8>;

/// Relies on cmac's `Cmac<Aes128>` (`Mac::new_from_slice`, `update`,
/// `finalize`): the 16-byte tag of `msg` under a 16-byte key.
#[verifier::external_body]
fn cmac_tag(key: &[u8], msg: &[u8]) -> (r: Vec<u8>)
    requires
        key@.len() == KEY_SIZE,
    ensures
        r@ == cmac_aes128(key@, msg@),
        r@.len() == KEY_SIZE,
{
    let mut mac = <cmac::Cmac<aes::Aes128> as cmac::Mac>::new_from_slice(key).unwrap();
    cmac::Mac::update(&mut mac, msg);
    cmac::Mac::finalize(mac).into_bytes().to_vec()
}

/// Relies on aes's `Aes128` (`KeyInit::new_from_slice`,
/// `BlockEncrypt::encrypt_block`): one block encrypted under a 16-byte key.
#[verifier::external_body]
fn aes_encrypt_block(key: &[u8], block: &[u8]) -> (r: Vec<u8>)
    requires
        key@.len() == KEY_SIZE,
        block@.len() == KEY_SIZE,
    ensures
        r@ == aes128_encrypt_block(key@, block@),
        r@.len() == KEY_SIZE,
{
    let cipher = <aes::Aes128 as aes::cipher::KeyInit>::new_from_slice(key).unwrap();
    let mut b = aes::cipher::generic_array::GenericArray::clone_from_slice(block);
    aes::cipher::BlockEncrypt::encrypt_block(&cipher, &mut b);
    b.to_vec()
}

/// Relies on cbc's `Encryptor<Aes128>` (`KeyIvInit::new_from_slices`,
/// `encrypt_padded_mut` with `NoPadding`): whole blocks encrypted in CBC mode,
/// the result as long as the input.
#[verifier::external_body]
fn cbc_encrypt(key: &[u8], iv: &[u8], data: &[u8]) -> (r: Vec<u8>)
    requires
        key@.len() == KEY_SIZE,
        iv@.len() == KEY_SIZE,
        data@.len() % (KEY_SIZE as nat) == 0,
    ensures
        r@ == aes128_cbc_encrypt(key@, iv@, data@),
        r@.len() == data@.len(),
{
    let enc = <cbc::Encryptor<aes::Aes128> as aes::cipher::KeyIvInit>::new_from_slices(key, iv)
        .unwrap();
    let mut buf = data.to_vec();
    let n = buf.len();
    aes::cipher::BlockEncryptMut::encrypt_padded_mut::<aes::cipher::block_padding::NoPadding>(
        enc,
        &mut buf,
        n,
    ).unwrap();
    buf
}

/// Relies on cbc's `Decryptor<Aes128>` (`KeyIvInit::new_from_slices`,
/// `decrypt_padded_mut` with `NoPadding`): whole blocks decrypted in CBC mode,
/// the result as long as the input.
#[verifier::external_body]
fn cbc_decrypt(key: &[u8], iv: &[u8], data: &[u8]) -> (r: Vec<u8>)
    requires
        key@.len() == KEY_SIZE,
        iv@.len() == KEY_SIZE,
        data@.len() % (KEY_SIZE as nat) == 0,
    ensures
        r@ == aes128_cbc_decrypt(key@, iv@, data@),
        r@.len() == data@.len(),
{
    let dec = <cbc::Decryptor<aes::Aes128> as aes::cipher::KeyIvInit>::new_from_slices(key, iv)
        .unwrap();
    let mut buf = data.to_vec();
    aes::cipher::BlockDecryptMut::decrypt_padded_mut::<aes::cipher::block_padding::NoPadding>(
        dec,
        &mut buf,
    ).unwrap();
    buf
}

/// The input of the key derivation function: eleven zero bytes, the
/// derivation constant, a zero separator, the output length in bits as a
/// 16-bit big-endian number, the counter 1, then the context.
pub open spec fn kdf_input(constant: u8, out_len: nat, context: Seq<u8>) -> Seq<u8> {
    zeros(11) + seq![
        constant,
        0u8,
        ((out_len * 8) / 256) as u8,
        ((out_len * 8) % 256) as u8,
        1u8,
    ] + context
}

/// The first `out_len` bytes of the CMAC of the derivation input.
pub open spec fn derive_spec(key: Seq<u8>, constant: u8, context: Seq<u8>, out_len: nat) -> Seq<
    u8,
> {
    cmac_aes128(key, kdf_input(constant, out_len, context)).subrange(0, out_len as int)
}

/// Derive `out_len` bytes from `key` for the given purpose and context.
pub fn derive(key: &[u8], constant: u8, context: &[u8], out_len: usize) -> (r: Vec<u8>)
    requires
        key@.len() == KEY_SIZE,
        out_len <= KEY_SIZE,
    ensures
        r@ == derive_spec(key@, constant, context@, out_len as nat),
        r@.len() == out_len,
{
    let mut input: Vec<u8> = Vec::new();
    let mut i: usize = 0;
    while i < 11
        invariant
            i <= 11,
            input@ == zeros(i as nat),
        decreases 11 - i,
    {
        input.push(0u8);
        i = i + 1;
        assert(input@ =~= zeros(i as nat));
    }
    let bits: usize = out_len * 8;
    input.push(constant);
    input.push(0u8);
    input.push((bits / 256) as u8);
    input.push((bits % 256) as u8);
    input.push(1u8);
    let mut j: usize = 0;
    let ghost head = input@;
    while j < context.len()
        invariant
            j <= context@.len(),
            input@ == head + context@.subrange(0, j as int),
        decreases context@.len() - j,
    {
        input.push(context[j]);
        j = j + 1;
        assert(input@ =~= head + context@.subrange(0, j as int));
    }
    assert(input@ =~= kdf_input(constant, out_len as nat, context@));
    let tag = cmac_tag(key, input.as_slice());
    copy_range(tag.as_slice(), 0, out_len)
}

/// The three keys of one session.
pub struct SessionKeys {
    /// Encryption key
    pub enc_key: Vec<u8>,
    /// Command-MAC key
    pub mac_key: Vec<u8>,
    /// Response-MAC key
    pub rmac_key: Vec<u8>,
}

/// The keys of a session with the given static key and challenges: the
/// encryption key derives from the first half of the static key, both MAC
/// keys from the second half; the context is the host challenge followed by
/// the device challenge.
pub open spec fn session_keys_spec(auth_key: Seq<u8>, context: Seq<u8>) -> (Seq<u8>, Seq<u8>, Seq<
    u8,
>) {
    (
        derive_spec(auth_key.subrange(0, 16), S_ENC, context, 16),
        derive_spec(auth_key.subrange(16, 32), S_MAC, context, 16),
        derive_spec(auth_key.subrange(16, 32), S_RMAC, context, 16),
    )
}

/// Derive the session keys from the static key and the two challenges.
pub fn derive_session_keys(auth_key: &[u8], context: &[u8]) -> (r: SessionKeys)
    requires
        auth_key@.len() == AUTH_KEY_SIZE,
    ensures
        (r.enc_key@, r.mac_key@, r.rmac_key@) == session_keys_spec(auth_key@, context@),
        r.enc_key@.len() == KEY_SIZE,
        r.mac_key@.len() == KEY_SIZE,
        r.rmac_key@.len() == KEY_SIZE,
{
    let enc = copy_range(auth_key, 0, KEY_SIZE);
    let mac = copy_range(auth_key, KEY_SIZE, AUTH_KEY_SIZE);
    let enc_key = derive(enc.as_slice(), S_ENC, context, KEY_SIZE);
    let mac_key = derive(mac.as_slice(), S_MAC, context, KEY_SIZE);
    let rmac_key = derive(mac.as_slice(), S_RMAC, context, KEY_SIZE);
    SessionKeys { enc_key, mac_key, rmac_key }
}

/// The handshake context: host challenge, then device challenge.
pub fn challenge_context(host_challenge: &[u8], card_challenge: &[u8]) -> (r: Vec<u8>)
    ensures
        r@ == host_challenge@ + card_challenge@,
{
    let mut r = copy_range(host_challenge, 0, host_challenge.len());
    let mut b = copy_range(card_challenge, 0, card_challenge.len());
    assert(r@ =~= host_challenge@.subrange(0, host_challenge@.len() as int));
    r.append(&mut b);
    assert(r@ =~= host_challenge@ + card_challenge@);
    r
}

/// Compare two byte strings, looking at every byte whatever the earlier ones were.
pub fn ct_eq(a: &[u8], b: &[u8]) -> (r: bool)
    ensures
        r == (a@ == b@),
{
    if a.len() != b.len() {
        return false;
    }
    let mut diff: bool = false;
    let mut i: usize = 0;
    while i < a.len()
        invariant
            i <= a@.len(),
            a@.len() == b@.len(),
            diff == exists|j: int| 0 <= j < i && a@[j] != b@[j],
        decreases a@.len() - i,
    {
        let d = a[i] != b[i];
        diff = diff || d;
        proof {
            if d {
                assert(a@[i as int] != b@[i as int]);
            }
            if !diff {
                assert forall|j: int| 0 <= j < i + 1 implies a@[j] == b@[j] by {
                    if j < i {
                        assert(!(0 <= j < i && a@[j] != b@[j]));
                    }
                }
            }
        }
        i = i + 1;
    }
    if diff {
        false
    } else {
        assert(a@ =~= b@);
        true
    }
}

/// `msg` padded to whole blocks: a byte 0x80, then zeros.
pub open spec fn pad(msg: Seq<u8>) -> Seq<u8> {
    msg + seq![0x80u8] + zeros(((16 - (msg.len() + 1) % 16) % 16) as nat)
}

/// The message within padded bytes: strip trailing zeros, then one 0x80.
pub open spec fn unpad(p: Seq<u8>) -> Option<Seq<u8>>
    decreases p.len(),
{
    if p.len() == 0 {
        None
    } else if p.last() == 0 {
        unpad(p.drop_last())
    } else if p.last() == 0x80 {
        Some(p.drop_last())
    } else {
        None
    }
}

/// Pad `msg` to whole blocks.
pub fn pad_message(msg: &[u8]) -> (r: Vec<u8>)
    requires
        msg@.len() + 16 <= usize::MAX,
    ensures
        r@ == pad(msg@),
        r@.len() % 16 == 0,
{
    let mut r = copy_range(msg, 0, msg.len());
    assert(r@ =~= msg@);
    r.push(0x80u8);
    let ghost head = r@;
    let k: usize = (16 - (msg.len() + 1) % 16) % 16;
    let mut i: usize = 0;
    while i < k
        invariant
            i <= k,
            k < 16,
            r@ == head + zeros(i as nat),
        decreases k - i,
    {
        r.push(0u8);
        i = i + 1;
        assert(r@ =~= head + zeros(i as nat));
    }
    r
}

/// Strip the padding from decrypted bytes.
pub fn unpad_message(p: &[u8]) -> (r: Option<Vec<u8>>)
    ensures
        match unpad(p@) {
            Some(m) => r matches Some(v) && v@ == m,
            None => r.is_none(),
        },
{
    let mut n: usize = p.len();
    assert(p@.subrange(0, n as int) =~= p@);
    while n > 0 && p[n - 1] == 0
        invariant
            n <= p@.len(),
            unpad(p@) == unpad(p@.subrange(0, n as int)),
        decreases n,
    {
        assert(p@.subrange(0, n as int).drop_last() =~= p@.subrange(0, n - 1));
        n = n - 1;
    }
    if n == 0 || p[n - 1] != 0x80 {
        return None;
    }
    assert(p@.subrange(0, n as int).drop_last() =~= p@.subrange(0, n - 1));
    Some(copy_range(p, 0, n - 1))
}

/// Append all of `s` to `out`.
pub fn append_slice(out: &mut Vec<u8>, s: &[u8])
    ensures
        final(out)@ == old(out)@ + s@,
{
    let ghost head = out@;
    let mut i: usize = 0;
    while i < s.len()
        invariant
            i <= s@.len(),
            out@ == head + s@.subrange(0, i as int),
        decreases s@.len() - i,
    {
        out.push(s[i]);
        i = i + 1;
        assert(out@ =~= head + s@.subrange(0, i as int));
    }
    assert(s@.subrange(0, i as int) =~= s@);
}

/// Largest payload that an encrypted command can carry: padded, with the
/// session id and MAC, it still fits the 16-bit length field.
pub const MAX_COMMAND_PLAINTEXT: usize = 0xffff - 16 - 1 - MAC_SIZE;

/// Abstract value of a secure channel.
pub struct SecureChannelView {
    pub id: u8,
    pub counter: u32,
    pub context: Seq<u8>,
    pub enc_key: Seq<u8>,
    pub mac_key: Seq<u8>,
    pub rmac_key: Seq<u8>,
    pub mac_chain: Seq<u8>,
}

/// The secure channel of one session: its keys, its MAC chain and its
/// message counter.
pub struct SecureChannel {
    id: u8,
    counter: u32,
    context: Vec<u8>,
    keys: SessionKeys,
    mac_chain: Vec<u8>,
}

impl View for SecureChannel {
    type V = SecureChannelView;

    closed spec fn view(&self) -> SecureChannelView {
        SecureChannelView {
            id: self.id,
            counter: self.counter,
            context: self.context@,
            enc_key: self.keys.enc_key@,
            mac_key: self.keys.mac_key@,
            rmac_key: self.keys.rmac_key@,
            mac_chain: self.mac_chain@,
        }
    }
}

/// Keys and MAC chain have their sizes.
pub open spec fn channel_wf(c: SecureChannelView) -> bool {
    &&& c.enc_key.len() == KEY_SIZE
    &&& c.mac_key.len() == KEY_SIZE
    &&& c.rmac_key.len() == KEY_SIZE
    &&& c.mac_chain.len() == KEY_SIZE
}

/// The device cryptogram expected for a channel.
pub open spec fn card_cryptogram_spec(c: SecureChannelView) -> Seq<u8> {
    derive_spec(c.mac_key, CARD_CRYPTOGRAM, c.context, CRYPTOGRAM_SIZE as nat)
}

/// The host cryptogram of a channel.
pub open spec fn host_cryptogram_spec(c: SecureChannelView) -> Seq<u8> {
    derive_spec(c.mac_key, HOST_CRYPTOGRAM, c.context, CRYPTOGRAM_SIZE as nat)
}

/// The bytes that the MAC of a session-scoped envelope covers: the previous
/// MAC chain value, then the envelope up to the MAC (code, length counting
/// the MAC, session id, data).
pub open spec fn mac_input(chain: Seq<u8>, code: u8, id: u8, data: Seq<u8>) -> Seq<u8> {
    chain + seq![code] + be16((1 + data.len() + MAC_SIZE) as nat) + seq![id] + data
}

/// The IV of the command sent with counter value `counter`.
pub open spec fn command_icv(enc_key: Seq<u8>, counter: u32) -> Seq<u8> {
    aes128_encrypt_block(enc_key, zeros(12) + be_bytes(counter as nat, 4))
}

/// The IV of the response to the command sent with counter value `counter`.
pub open spec fn response_icv(enc_key: Seq<u8>, counter: u32) -> Seq<u8> {
    aes128_encrypt_block(enc_key, seq![0x80u8] + zeros(11) + be_bytes(counter as nat, 4))
}

/// The bytes that the MAC of a session-scoped envelope covers.
fn mac_input_bytes(chain: &[u8], code: u8, id: u8, data: &[u8]) -> (r: Vec<u8>)
    requires
        data@.len() + 1 + MAC_SIZE <= 0xffff,
    ensures
        r@ == mac_input(chain@, code, id, data@),
{
    let mut input: Vec<u8> = Vec::new();
    append_slice(&mut input, chain);
    input.push(code);
    let len: u64 = (1 + data.len() + MAC_SIZE) as u64;
    push_be(&mut input, len, 2);
    input.push(id);
    append_slice(&mut input, data);
    proof {
        let n = (1 + data@.len() + MAC_SIZE) as nat;
        assert(be_bytes(n, 2) =~= be16(n)) by {
            assert(be_bytes(n, 2).drop_last() =~= be_bytes(n / 256, 1));
            assert(be_bytes(n / 256, 1).drop_last() =~= be_bytes(n / 256 / 256, 0));
            assert((n / 256) % 256 == n / 256) by (nonlinear_arith)
                requires
                    n <= 0xffff,
            ;
        }
        assert(input@ =~= mac_input(chain@, code, id, data@));
    }
    input
}

/// Build the block `prefix`, eleven zeros, then the counter in four bytes.
fn icv_block(prefix: u8, counter: u32) -> (r: Vec<u8>)
    ensures
        r@ == seq![prefix] + zeros(11) + be_bytes(counter as nat, 4),
        r@.len() == KEY_SIZE,
{
    let mut b: Vec<u8> = Vec::new();
    b.push(prefix);
    let mut i: usize = 0;
    while i < 11
        invariant
            i <= 11,
            b@ == seq![prefix] + zeros(i as nat),
        decreases 11 - i,
    {
        b.push(0u8);
        i = i + 1;
        assert(b@ =~= seq![prefix] + zeros(i as nat));
    }
    push_be(&mut b, counter as u64, 4);
    proof {
        lemma_be_bytes_len(counter as nat, 4);
    }
    b
}

impl SecureChannel {
    /// Open a channel with the session id assigned by the device, the static
    /// authentication key and the two challenges. Fails with `ProtocolError`
    /// when a challenge does not have the challenge size.
    pub fn new(id: u8, auth_key: &[u8], host_challenge: &[u8], card_challenge: &[u8]) -> (r:
        Result<SecureChannel, SessionErrorKind>)
        requires
            auth_key@.len() == AUTH_KEY_SIZE,
        ensures
            host_challenge@.len() != CHALLENGE_SIZE || card_challenge@.len() != CHALLENGE_SIZE
                ==> r == Err::<SecureChannel, SessionErrorKind>(SessionErrorKind::ProtocolError),
            host_challenge@.len() == CHALLENGE_SIZE && card_challenge@.len() == CHALLENGE_SIZE
                ==> (r matches Ok(c) && channel_wf(c@) && c@.id == id && c@.counter == 0
                && c@.context == host_challenge@ + card_challenge@ && (
                c@.enc_key,
                c@.mac_key,
                c@.rmac_key,
            ) == session_keys_spec(auth_key@, c@.context) && c@.mac_chain == zeros(16)),
    {
        if host_challenge.len() != CHALLENGE_SIZE || card_challenge.len() != CHALLENGE_SIZE {
            return Err(SessionErrorKind::ProtocolError);
        }
        let context = challenge_context(host_challenge, card_challenge);
        let keys = derive_session_keys(auth_key, context.as_slice());
        let mut chain: Vec<u8> = Vec::new();
        let mut i: usize = 0;
        while i < KEY_SIZE
            invariant
                i <= KEY_SIZE,
                chain@ == zeros(i as nat),
            decreases KEY_SIZE - i,
        {
            chain.push(0u8);
            i = i + 1;
            assert(chain@ =~= zeros(i as nat));
        }
        Ok(SecureChannel { id, counter: 0, context, keys, mac_chain: chain })
    }

    /// Number of commands encrypted on this channel.
    pub fn counter(&self) -> (r: u32)
        ensures
            r == self@.counter,
    {
        self.counter
    }

    /// The device cryptogram that this channel expects.
    pub fn card_cryptogram(&self) -> (r: Vec<u8>)
        requires
            channel_wf(self@),
        ensures
            r@ == card_cryptogram_spec(self@),
            r@.len() == CRYPTOGRAM_SIZE,
    {
        derive(self.keys.mac_key.as_slice(), CARD_CRYPTOGRAM, self.context.as_slice(), CRYPTOGRAM_SIZE)
    }

    /// The host cryptogram that this channel sends.
    pub fn host_cryptogram(&self) -> (r: Vec<u8>)
        requires
            channel_wf(self@),
        ensures
            r@ == host_cryptogram_spec(self@),
            r@.len() == CRYPTOGRAM_SIZE,
    {
        derive(self.keys.mac_key.as_slice(), HOST_CRYPTOGRAM, self.context.as_slice(), CRYPTOGRAM_SIZE)
    }

    /// Check the cryptogram that the device sent in its handshake reply.
    pub fn verify_card_cryptogram(&self, received: &[u8]) -> (r: Result<(), SessionErrorKind>)
        requires
            channel_wf(self@),
        ensures
            r is Ok <==> received@ == card_cryptogram_spec(self@),
            r matches Err(e) ==> e == SessionErrorKind::AuthenticationError,
    {
        let expected = self.card_cryptogram();
        if ct_eq(expected.as_slice(), received) {
            Ok(())
        } else {
            Err(SessionErrorKind::AuthenticationError)
        }
    }

    /// Wrap `data` into a session-scoped command with a MAC that chains on
    /// the previous one; the full tag becomes the new chain value.
    pub fn command_with_mac(&mut self, code: u8, data: Vec<u8>) -> (r: command::Message)
        requires
            channel_wf(old(self)@),
            data@.len() + 1 + MAC_SIZE <= 0xffff,
        ensures
            final(self)@ == (SecureChannelView {
                mac_chain: cmac_aes128(
                    old(self)@.mac_key,
                    mac_input(old(self)@.mac_chain, code, old(self)@.id, data@),
                ),
                ..old(self)@
            }),
            channel_wf(final(self)@),
            r@ == (CommandView {
                command_type: code,
                session_id: Some(old(self)@.id),
                data: data@,
                mac: Some(final(self)@.mac_chain.subrange(0, MAC_SIZE as int)),
            }),
    {
        let input = mac_input_bytes(self.mac_chain.as_slice(), code, self.id, data.as_slice());
        let tag = cmac_tag(self.keys.mac_key.as_slice(), input.as_slice());
        let mac = copy_range(tag.as_slice(), 0, MAC_SIZE);
        self.mac_chain = tag;
        command::Message::new_with_mac(code, self.id, data, mac)
    }

    /// The command that authenticates the host: its cryptogram, with a MAC.
    pub fn authenticate_session(&mut self) -> (r: command::Message)
        requires
            channel_wf(old(self)@),
        ensures
            channel_wf(final(self)@),
            final(self)@.mac_chain == cmac_aes128(
                old(self)@.mac_key,
                mac_input(
                    old(self)@.mac_chain,
                    AUTHENTICATE_SESSION,
                    old(self)@.id,
                    host_cryptogram_spec(old(self)@),
                ),
            ),
            r@ == (CommandView {
                command_type: AUTHENTICATE_SESSION,
                session_id: Some(old(self)@.id),
                data: host_cryptogram_spec(old(self)@),
                mac: Some(final(self)@.mac_chain.subrange(0, MAC_SIZE as int)),
            }),
    {
        let cryptogram = self.host_cryptogram();
        self.command_with_mac(AUTHENTICATE_SESSION, cryptogram)
    }

    /// Encrypt a command for sending in this session: advance the counter,
    /// derive the IV from it, encrypt the padded encoding of the command and
    /// wrap the ciphertext with a chained MAC. Fails with `ProtocolError` when
    /// the command is too long to carry, and with `CommandLimitExceeded` when
    /// the counter is exhausted; either failure changes nothing.
    pub fn encrypt_command(&mut self, command: command::Message) -> (r: Result<
        command::Message,
        SessionErrorKind,
    >)
        requires
            channel_wf(old(self)@),
        ensures
            channel_wf(final(self)@),
            r matches Ok(m) ==> m.data@.len() + 1 + MAC_SIZE <= 0xffff && (m.mac matches Some(t)
                && t@.len() == MAC_SIZE),
            3 + command_body(command@).len() > MAX_COMMAND_PLAINTEXT ==> r == Err::<
                command::Message,
                SessionErrorKind,
            >(SessionErrorKind::ProtocolError) && final(self)@ == old(self)@,
            3 + command_body(command@).len() <= MAX_COMMAND_PLAINTEXT && old(self)@.counter
                == u32::MAX ==> r == Err::<command::Message, SessionErrorKind>(
                SessionErrorKind::CommandLimitExceeded,
            ) && final(self)@ == old(self)@,
            3 + command_body(command@).len() <= MAX_COMMAND_PLAINTEXT && old(self)@.counter
                < u32::MAX ==> {
                let counter = (old(self)@.counter + 1) as u32;
                let ct = aes128_cbc_encrypt(
                    old(self)@.enc_key,
                    command_icv(old(self)@.enc_key, counter),
                    pad(encode_command(command@)),
                );
                let chain = cmac_aes128(
                    old(self)@.mac_key,
                    mac_input(old(self)@.mac_chain, SESSION_MESSAGE, old(self)@.id, ct),
                );
                &&& final(self)@ == (SecureChannelView { counter, mac_chain: chain, ..old(self)@ })
                &&& r matches Ok(m) && m@ == (CommandView {
                    command_type: SESSION_MESSAGE,
                    session_id: Some(old(self)@.id),
                    data: ct,
                    mac: Some(chain.subrange(0, MAC_SIZE as int)),
                })
            },
    {
        let body_len = command.data.len();
        let sid_len: usize = if command.session_id.is_some() { 1 } else { 0 };
        let mac_len: usize = match &command.mac {
            Some(t) => t.len(),
            None => 0,
        };
        if body_len > MAX_COMMAND_PLAINTEXT || mac_len > MAX_COMMAND_PLAINTEXT || 3 + body_len
            + sid_len + mac_len > MAX_COMMAND_PLAINTEXT {
            return Err(SessionErrorKind::ProtocolError);
        }
        if self.counter == u32::MAX {
            return Err(SessionErrorKind::CommandLimitExceeded);
        }
        self.counter = self.counter + 1;
        let plaintext = command.into_bytes();
        let padded = pad_message(plaintext.as_slice());
        let block = icv_block(0u8, self.counter);
        assert(block@ =~= zeros(12) + be_bytes(self.counter as nat, 4));
        let icv = aes_encrypt_block(self.keys.enc_key.as_slice(), block.as_slice());
        let ct = cbc_encrypt(self.keys.enc_key.as_slice(), icv.as_slice(), padded.as_slice());
        Ok(self.command_with_mac(SESSION_MESSAGE, ct))
    }

    /// Check the R-MAC of an encrypted response against the MAC chain and
    /// the response-MAC key.
    pub fn verify_response_mac(&self, response: &response::Message) -> (r: Result<
        (),
        SessionErrorKind,
    >)
        requires
            channel_wf(self@),
        ensures
            r is Ok <==> response_authentic(self@, response@),
            response.code != Code::Success(SESSION_MESSAGE) ==> r == Err::<(), SessionErrorKind>(
                SessionErrorKind::ProtocolError,
            ),
            response.code == Code::Success(SESSION_MESSAGE) && response.session_id != Some(
                self@.id,
            ) ==> r == Err::<(), SessionErrorKind>(SessionErrorKind::MismatchError),
            r matches Err(e) ==> e == SessionErrorKind::ProtocolError || e
                == SessionErrorKind::MismatchError,
    {
        if response.code != Code::Success(SESSION_MESSAGE) {
            return Err(SessionErrorKind::ProtocolError);
        }
        if response.session_id != Some(self.id) {
            return Err(SessionErrorKind::MismatchError);
        }
        let received = match &response.mac {
            Some(t) => t,
            None => return Err(SessionErrorKind::ProtocolError),
        };
        if response.data.len() > 0xffff - 1 - MAC_SIZE {
            return Err(SessionErrorKind::ProtocolError);
        }
        let code = Code::Success(SESSION_MESSAGE).to_u8();
        let input = mac_input_bytes(self.mac_chain.as_slice(), code, self.id, response.data.as_slice());
        let tag = cmac_tag(self.keys.rmac_key.as_slice(), input.as_slice());
        let expected = copy_range(tag.as_slice(), 0, MAC_SIZE);
        if ct_eq(expected.as_slice(), received.as_slice()) {
            Ok(())
        } else {
            Err(SessionErrorKind::ProtocolError)
        }
    }

    /// Verify and decrypt the response to the last command: the R-MAC is
    /// checked before anything is decrypted; the plaintext is decrypted with
    /// the IV of the current counter value, unpadded and parsed as a response.
    pub fn decrypt_response(&self, response: response::Message) -> (r: Result<
        response::Message,
        SessionErrorKind,
    >)
        requires
            channel_wf(self@),
        ensures
            !response_authentic(self@, response@) ==> r is Err,
            response_authentic(self@, response@) ==> match decrypted(self@, response@.data) {
                Some(p) => if parses(p) {
                    r matches Ok(m) && m@ == decode(p)
                } else {
                    r == Err::<response::Message, SessionErrorKind>(
                        SessionErrorKind::ProtocolError,
                    )
                },
                None => r == Err::<response::Message, SessionErrorKind>(
                    SessionErrorKind::ProtocolError,
                ),
            },
    {
        match self.verify_response_mac(&response) {
            Ok(()) => {},
            Err(e) => return Err(e),
        }
        if response.data.len() % KEY_SIZE != 0 {
            return Err(SessionErrorKind::ProtocolError);
        }
        let block = icv_block(0x80u8, self.counter);
        let icv = aes_encrypt_block(self.keys.enc_key.as_slice(), block.as_slice());
        let plain = cbc_decrypt(self.keys.enc_key.as_slice(), icv.as_slice(), response.data.as_slice());
        let inner = match unpad_message(plain.as_slice()) {
            Some(p) => p,
            None => return Err(SessionErrorKind::ProtocolError),
        };
        response::Message::parse(crate::connector::Message::from_vec(inner))
    }

    /// Overwrite the session keys and the MAC chain with zeros and drop them.
    pub fn wipe(&mut self)
        ensures
            final(self)@ == (SecureChannelView {
                enc_key: Seq::empty(),
                mac_key: Seq::empty(),
                rmac_key: Seq::empty(),
                mac_chain: Seq::empty(),
                ..old(self)@
            }),
    {
        wipe_bytes(&mut self.keys.enc_key);
        wipe_bytes(&mut self.keys.mac_key);
        wipe_bytes(&mut self.keys.rmac_key);
        wipe_bytes(&mut self.mac_chain);
        assert(self.keys.enc_key@ =~= Seq::<u8>::empty());
        assert(self.keys.mac_key@ =~= Seq::<u8>::empty());
        assert(self.keys.rmac_key@ =~= Seq::<u8>::empty());
        assert(self.mac_chain@ =~= Seq::<u8>::empty());
    }

    /// Open the channel from the device's reply to a session-creation
    /// request: the reply must be a success for that command with a session
    /// id and sixteen data bytes, the device challenge then the device
    /// cryptogram, and the cryptogram must verify. A device error gives its
    /// kind; any other malformed reply a `ProtocolError`; a wrong cryptogram
    /// an `AuthenticationError`.
    pub fn from_create_session_reply(
        reply: &response::Message,
        auth_key: &[u8],
        host_challenge: &[u8],
    ) -> (r: Result<SecureChannel, SessionErrorKind>)
        requires
            auth_key@.len() == AUTH_KEY_SIZE,
        ensures
            reply.code is DeviceError ==> r == Err::<SecureChannel, SessionErrorKind>(
                response::device_error_kind_of(reply.data@),
            ),
            reply.code is Success && !create_reply_shaped(reply@, host_challenge@) ==> r == Err::<
                SecureChannel,
                SessionErrorKind,
            >(SessionErrorKind::ProtocolError),
            create_reply_shaped(reply@, host_challenge@) ==> {
                let c = opened_channel(reply@, auth_key@, host_challenge@);
                if reply.data@.subrange(8, 16) == card_cryptogram_spec(c) {
                    r matches Ok(ch) && ch@ == c && channel_wf(ch@)
                } else {
                    r == Err::<SecureChannel, SessionErrorKind>(
                        SessionErrorKind::AuthenticationError,
                    )
                }
            },
    {
        if let Some(kind) = reply.error_kind() {
            return Err(kind);
        }
        let id = match reply.session_id {
            Some(id) => id,
            None => return Err(SessionErrorKind::ProtocolError),
        };
        if reply.code != Code::Success(CREATE_SESSION) || reply.data.len() != CHALLENGE_SIZE
            + CRYPTOGRAM_SIZE || host_challenge.len() != CHALLENGE_SIZE {
            return Err(SessionErrorKind::ProtocolError);
        }
        let card_challenge = copy_range(reply.data.as_slice(), 0, CHALLENGE_SIZE);
        let cryptogram = copy_range(reply.data.as_slice(), CHALLENGE_SIZE, 16);
        let channel = match SecureChannel::new(
            id,
            auth_key,
            host_challenge,
            card_challenge.as_slice(),
        ) {
            Ok(c) => c,
            Err(e) => return Err(e),
        };
        match channel.verify_card_cryptogram(cryptogram.as_slice()) {
            Ok(()) => Ok(channel),
            Err(e) => Err(e),
        }
    }

    /// Verify, decrypt and read the response to the last command with code
    /// `code`: a device error in the outer envelope gives its kind; then the
    /// response must be authentic and well padded, and the inner response a
    /// success for `code`, whose data is returned.
    pub fn open_response(&self, reply: response::Message, code: u8) -> (r: Result<
        Vec<u8>,
        SessionErrorKind,
    >)
        requires
            channel_wf(self@),
        ensures
            reply.code is DeviceError ==> r == Err::<Vec<u8>, SessionErrorKind>(
                response::device_error_kind_of(reply.data@),
            ),
            reply.code is Success && !response_authentic(self@, reply@) ==> r is Err,
            reply.code is Success && response_authentic(self@, reply@) ==> match decrypted(
                self@,
                reply@.data,
            ) {
                Some(p) => if parses(p) {
                    response::result_of(decode(p), code) == match r {
                        Ok(v) => Ok::<Seq<u8>, SessionErrorKind>(v@),
                        Err(e) => Err::<Seq<u8>, SessionErrorKind>(e),
                    }
                } else {
                    r == Err::<Vec<u8>, SessionErrorKind>(SessionErrorKind::ProtocolError)
                },
                None => r == Err::<Vec<u8>, SessionErrorKind>(SessionErrorKind::ProtocolError),
            },
    {
        if let Some(kind) = reply.error_kind() {
            return Err(kind);
        }
        match self.decrypt_response(reply) {
            Ok(inner) => inner.into_result(code),
            Err(e) => Err(e),
        }
    }

    /// Device side: check the MAC of a session-scoped command against the
    /// MAC chain; on success the full tag becomes the new chain value.
    pub fn verify_command_mac(&mut self, cmd: &command::Message) -> (r: Result<
        (),
        SessionErrorKind,
    >)
        requires
            channel_wf(old(self)@),
        ensures
            channel_wf(final(self)@),
            r is Ok <==> command_authentic(old(self)@, cmd@),
            r is Ok ==> final(self)@ == (SecureChannelView {
                mac_chain: cmac_aes128(
                    old(self)@.mac_key,
                    mac_input(old(self)@.mac_chain, cmd.command_type, old(self)@.id, cmd.data@),
                ),
                ..old(self)@
            }),
            r is Err ==> final(self)@ == old(self)@,
            r matches Err(e) ==> e == SessionErrorKind::ProtocolError || e
                == SessionErrorKind::MismatchError,
    {
        if cmd.session_id != Some(self.id) {
            return Err(SessionErrorKind::MismatchError);
        }
        let received = match &cmd.mac {
            Some(t) => t,
            None => return Err(SessionErrorKind::ProtocolError),
        };
        if cmd.data.len() > 0xffff - 1 - MAC_SIZE {
            return Err(SessionErrorKind::ProtocolError);
        }
        let input = mac_input_bytes(self.mac_chain.as_slice(), cmd.command_type, self.id, cmd.data.as_slice());
        let tag = cmac_tag(self.keys.mac_key.as_slice(), input.as_slice());
        let expected = copy_range(tag.as_slice(), 0, MAC_SIZE);
        if ct_eq(expected.as_slice(), received.as_slice()) {
            self.mac_chain = tag;
            Ok(())
        } else {
            Err(SessionErrorKind::ProtocolError)
        }
    }

    /// Device side: verify and decrypt an encrypted command. The counter
    /// advances once the MAC is accepted; the plaintext is decrypted with the
    /// IV of the new counter value, unpadded and parsed.
    pub fn decrypt_command(&mut self, cmd: command::Message) -> (r: Result<
        command::Message,
        SessionErrorKind,
    >)
        requires
            channel_wf(old(self)@),
        ensures
            channel_wf(final(self)@),
            !(cmd.command_type == SESSION_MESSAGE && command_authentic(old(self)@, cmd@) && old(
                self,
            )@.counter < u32::MAX) ==> r is Err && final(self)@ == old(self)@,
            cmd.command_type == SESSION_MESSAGE && command_authentic(old(self)@, cmd@) && old(
                self,
            )@.counter < u32::MAX ==> {
                &&& final(self)@ == (SecureChannelView {
                    counter: (old(self)@.counter + 1) as u32,
                    mac_chain: cmac_aes128(
                        old(self)@.mac_key,
                        mac_input(old(self)@.mac_chain, SESSION_MESSAGE, old(self)@.id, cmd.data@),
                    ),
                    ..old(self)@
                })
                &&& match command_decrypted(final(self)@, cmd.data@) {
                    Some(p) => if command::command_parses(p) {
                        r matches Ok(m) && m@ == command::decode_command(p)
                    } else {
                        r is Err
                    },
                    None => r is Err,
                }
            },
    {
        if cmd.command_type != SESSION_MESSAGE || self.counter == u32::MAX {
            return Err(SessionErrorKind::ProtocolError);
        }
        match self.verify_command_mac(&cmd) {
            Ok(()) => {},
            Err(e) => return Err(e),
        }
        self.counter = self.counter + 1;
        if cmd.data.len() % KEY_SIZE != 0 {
            return Err(SessionErrorKind::ProtocolError);
        }
        let block = icv_block(0u8, self.counter);
        assert(block@ =~= zeros(12) + be_bytes(self.counter as nat, 4));
        let icv = aes_encrypt_block(self.keys.enc_key.as_slice(), block.as_slice());
        let plain = cbc_decrypt(self.keys.enc_key.as_slice(), icv.as_slice(), cmd.data.as_slice());
        let inner = match unpad_message(plain.as_slice()) {
            Some(p) => p,
            None => return Err(SessionErrorKind::ProtocolError),
        };
        command::Message::parse(inner)
    }

    /// Device side: encrypt a response to the last command under the IV of
    /// the current counter value and attach its R-MAC.
    pub fn encrypt_response(&self, resp: response::Message) -> (r: Result<
        response::Message,
        SessionErrorKind,
    >)
        requires
            channel_wf(self@),
            response::code_valid(resp.code),
            resp.mac matches Some(t) ==> t@.len() == MAC_SIZE,
        ensures
            response::body_of(resp@).len() + 3 + 16 + 1 + MAC_SIZE <= 0xffff ==> (r matches Ok(m) && {
                let ct = aes128_cbc_encrypt(
                    self@.enc_key,
                    response_icv(self@.enc_key, self@.counter),
                    pad(response::encode(resp@)),
                );
                m@ == (response::MessageView {
                    code: Code::Success(SESSION_MESSAGE),
                    session_id: Some(self@.id),
                    data: ct,
                    mac: Some(expected_rmac(self@, ct)),
                })
            }),
            response::body_of(resp@).len() + 3 + 16 + 1 + MAC_SIZE > 0xffff ==> r
                == Err::<response::Message, SessionErrorKind>(SessionErrorKind::ProtocolError),
            r matches Ok(m) ==> response::body_of(m@).len() <= 0xffff && (m.mac matches Some(t)
                && t@.len() == MAC_SIZE),
    {
        let sid_len: usize = if resp.session_id.is_some() { 1 } else { 0 };
        let mac_len: usize = if resp.mac.is_some() { MAC_SIZE } else { 0 };
        if resp.data.len() > 0xffff || resp.data.len() + sid_len + mac_len + 3 + 16 + 1 + MAC_SIZE
            > 0xffff {
            return Err(SessionErrorKind::ProtocolError);
        }
        let plaintext = resp.into_bytes();
        let padded = pad_message(plaintext.as_slice());
        let block = icv_block(0x80u8, self.counter);
        let icv = aes_encrypt_block(self.keys.enc_key.as_slice(), block.as_slice());
        let ct = cbc_encrypt(self.keys.enc_key.as_slice(), icv.as_slice(), padded.as_slice());
        let code = Code::Success(SESSION_MESSAGE).to_u8();
        let input = mac_input_bytes(self.mac_chain.as_slice(), code, self.id, ct.as_slice());
        let tag = cmac_tag(self.keys.rmac_key.as_slice(), input.as_slice());
        let rmac = copy_range(tag.as_slice(), 0, MAC_SIZE);
        Ok(response::Message::new_with_mac(Code::Success(SESSION_MESSAGE), self.id, ct, rmac))
    }
}

/// A session-scoped command for this channel with a correct MAC.
pub open spec fn command_authentic(c: SecureChannelView, m: CommandView) -> bool {
    &&& m.session_id == Some(c.id)
    &&& m.data.len() + 1 + MAC_SIZE <= 0xffff
    &&& m.mac == Some(
        cmac_aes128(c.mac_key, mac_input(c.mac_chain, m.command_type, c.id, m.data)).subrange(
            0,
            MAC_SIZE as int,
        ),
    )
}

/// The unpadded plaintext of an encrypted command sent with the channel's
/// current counter value, if it is whole blocks and well padded.
pub open spec fn command_decrypted(c: SecureChannelView, data: Seq<u8>) -> Option<Seq<u8>> {
    if data.len() % (KEY_SIZE as nat) == 0 {
        unpad(aes128_cbc_decrypt(c.enc_key, command_icv(c.enc_key, c.counter), data))
    } else {
        None
    }
}

/// The R-MAC expected on a response that carries `data`.
pub open spec fn expected_rmac(c: SecureChannelView, data: Seq<u8>) -> Seq<u8> {
    cmac_aes128(
        c.rmac_key,
        mac_input(c.mac_chain, code_to_byte(Code::Success(SESSION_MESSAGE)), c.id, data),
    ).subrange(0, MAC_SIZE as int)
}

/// An encrypted response to this channel with a correct R-MAC.
pub open spec fn response_authentic(c: SecureChannelView, m: response::MessageView) -> bool {
    &&& m.code == Code::Success(SESSION_MESSAGE)
    &&& m.session_id == Some(c.id)
    &&& m.data.len() + 1 + MAC_SIZE <= 0xffff
    &&& m.mac == Some(expected_rmac(c, m.data))
}

/// The unpadded plaintext of an encrypted response, if it is whole blocks
/// and well padded.
pub open spec fn decrypted(c: SecureChannelView, data: Seq<u8>) -> Option<Seq<u8>> {
    if data.len() % (KEY_SIZE as nat) == 0 {
        unpad(aes128_cbc_decrypt(c.enc_key, response_icv(c.enc_key, c.counter), data))
    } else {
        None
    }
}

/// Distinct counter values give distinct IV input blocks, and command blocks
/// never equal response blocks: within a session no two messages are
/// encrypted from the same IV.
pub proof fn lemma_icv_blocks_distinct(a: u32, b: u32)
    ensures
        a != b ==> zeros(12) + be_bytes(a as nat, 4) != zeros(12) + be_bytes(b as nat, 4),
        a != b ==> seq![0x80u8] + zeros(11) + be_bytes(a as nat, 4) != seq![0x80u8] + zeros(11)
            + be_bytes(b as nat, 4),
        zeros(12) + be_bytes(a as nat, 4) != seq![0x80u8] + zeros(11) + be_bytes(b as nat, 4),
{
    lemma_pow256_facts();
    lemma_be_bytes_len(a as nat, 4);
    lemma_be_bytes_len(b as nat, 4);
    lemma_be_value_of_bytes(a as nat, 4);
    lemma_be_value_of_bytes(b as nat, 4);
    let ca = zeros(12) + be_bytes(a as nat, 4);
    let cb = zeros(12) + be_bytes(b as nat, 4);
    let ra = seq![0x80u8] + zeros(11) + be_bytes(a as nat, 4);
    let rb = seq![0x80u8] + zeros(11) + be_bytes(b as nat, 4);
    assert(ca.subrange(12, 16) =~= be_bytes(a as nat, 4));
    assert(cb.subrange(12, 16) =~= be_bytes(b as nat, 4));
    assert(ra.subrange(12, 16) =~= be_bytes(a as nat, 4));
    assert(rb.subrange(12, 16) =~= be_bytes(b as nat, 4));
    assert(ca[0] == 0u8 && rb[0] == 0x80u8);
}

/// A success reply to session creation with a session id and sixteen data
/// bytes, for a host challenge of the right size.
pub open spec fn create_reply_shaped(m: response::MessageView, host_challenge: Seq<u8>) -> bool {
    &&& m.code == Code::Success(CREATE_SESSION)
    &&& m.session_id is Some
    &&& m.data.len() == CHALLENGE_SIZE + CRYPTOGRAM_SIZE
    &&& host_challenge.len() == CHALLENGE_SIZE
}

/// The channel that a well-shaped session-creation reply opens.
pub open spec fn opened_channel(
    m: response::MessageView,
    auth_key: Seq<u8>,
    host_challenge: Seq<u8>,
) -> SecureChannelView {
    let context = host_challenge + m.data.subrange(0, 8);
    let keys = session_keys_spec(auth_key, context);
    SecureChannelView {
        id: m.session_id.unwrap(),
        counter: 0,
        context,
        enc_key: keys.0,
        mac_key: keys.1,
        rmac_key: keys.2,
        mac_chain: zeros(16),
    }
}

} // verus!
