//! The backup protocol: the client-side payload a keypair is transmitted
//! as, the server-side registry that accumulates received keypairs, and the
//! flush plan that persists the registry as one named object per entry.

use vstd::prelude::*;

use crate::errors::WalletError;
use crate::hex::{hex_bytes, push_hex};
use crate::keypair::KeyPair;

verus! {

/// The payload a keypair is transmitted as: each field is framed by one
/// length byte, public key first.
pub open spec fn payload_of(pk: Seq<u8>, sk: Seq<u8>) -> Seq<u8> {
    seq![pk.len() as u8] + pk + seq![sk.len() as u8] + sk
}

/// The fields denoted by a payload, when it is well formed: both length
/// bytes in range and no bytes left over.
pub open spec fn parse_payload(s: Seq<u8>) -> Option<(Seq<u8>, Seq<u8>)> {
    if s.len() < 1 {
        None
    } else {
        let n1 = s[0] as int;
        if s.len() < n1 + 2 {
            None
        } else {
            let n2 = s[n1 + 1] as int;
            if s.len() != n1 + n2 + 2 {
                None
            } else {
                Some((s.subrange(1, n1 + 1), s.subrange(n1 + 2, n1 + n2 + 2)))
            }
        }
    }
}

/// A payload parses back to exactly the fields it was built from.
pub proof fn lemma_payload_round_trip(pk: Seq<u8>, sk: Seq<u8>)
    requires
        pk.len() < 256,
        sk.len() < 256,
    ensures
        parse_payload(payload_of(pk, sk)) == Some((pk, sk)),
{
    let s = payload_of(pk, sk);
    assert(s[0] == pk.len() as u8);
    assert(s[pk.len() as int + 1] == sk.len() as u8);
    assert(s.subrange(1, pk.len() as int + 1) =~= pk);
    assert(s.subrange(pk.len() as int + 2, pk.len() as int + sk.len() as int + 2) =~= sk);
}

/// Serializes a keypair into the backup payload.
pub fn encode_keypair(kp: &KeyPair) -> (r: Vec<u8>)
    requires
        kp.public_key@.len() < 256,
        kp.secret_key@.len() < 256,
    ensures
        r@ == payload_of(kp.public_key@, kp.secret_key@),
{
    let mut out: Vec<u8> = Vec::new();
    out.push(kp.public_key.len() as u8);
    crate::hex::append_bytes(&mut out, &kp.public_key);
    out.push(kp.secret_key.len() as u8);
    crate::hex::append_bytes(&mut out, &kp.secret_key);
    proof {
        assert(out@ =~= payload_of(kp.public_key@, kp.secret_key@));
    }
    out
}

/// Copies `src[start..end]` into a fresh vector.
fn copy_range(src: &Vec<u8>, start: usize, end: usize) -> (r: Vec<u8>)
    requires
        start <= end <= src@.len(),
    ensures
        r@ == src@.subrange(start as int, end as int),
{
    let mut out: Vec<u8> = Vec::new();
    let mut i: usize = start;
    while i < end
        invariant
            start <= i <= end <= src@.len(),
            out@ == src@.subrange(start as int, i as int),
        decreases end - i,
    {
        out.push(src[i]);
        i += 1;
        proof {
            assert(out@ =~= src@.subrange(start as int, i as int));
        }
    }
    out
}

/// Deserializes a backup payload, accepting exactly the well-formed ones;
/// anything else is a malformed transmission.
pub fn decode_keypair(bytes: &Vec<u8>) -> (r: Result<KeyPair, WalletError>)
    ensures
        r is Ok <==> parse_payload(bytes@) is Some,
        r matches Ok(kp) ==> Some((kp.public_key@, kp.secret_key@)) == parse_payload(bytes@),
        r matches Err(e) ==> e == WalletError::TransmissionError,
{
    if bytes.len() < 1 {
        return Err(WalletError::TransmissionError);
    }
    let n1 = bytes[0] as usize;
    if bytes.len() < n1 + 2 {
        return Err(WalletError::TransmissionError);
    }
    let n2 = bytes[n1 + 1] as usize;
    if bytes.len() != n1 + n2 + 2 {
        return Err(WalletError::TransmissionError);
    }
    let public_key = copy_range(bytes, 1, n1 + 1);
    let secret_key = copy_range(bytes, n1 + 2, n1 + n2 + 2);
    Ok(KeyPair { public_key, secret_key })
}

/// One durable storage object of a flush: its name and its content.
#[derive(Debug)]
pub struct BackupObject {
    pub name: Vec<u8>,
    pub content: Vec<u8>,
}

/// The server-side registry: the ordered sequence of keypairs received so
/// far, append-only in memory.
pub struct BackupRegistry {
    entries: Vec<KeyPair>,
}

impl View for BackupRegistry {
    type V = Seq<KeyPair>;

    closed spec fn view(&self) -> Seq<KeyPair> {
        self.entries@
    }
}

/// `"backup-keys-"`, the prefix every storage object name carries.
pub open spec fn name_prefix() -> Seq<u8> {
    seq![0x62u8, 0x61, 0x63, 0x6b, 0x75, 0x70, 0x2d, 0x6b, 0x65, 0x79, 0x73, 0x2d]
}

/// The decimal digits of `n`, most significant first.
pub open spec fn dec_digits(n: nat) -> Seq<u8>
    decreases n,
{
    if n < 10 {
        seq![(0x30 + n) as u8]
    } else {
        dec_digits(n / 10).push((0x30 + n % 10) as u8)
    }
}

/// The deterministic name of the storage object for registry index `i`:
/// `backup-keys-<i>`.
pub open spec fn object_name_spec(i: nat) -> Seq<u8> {
    name_prefix() + dec_digits(i)
}

proof fn lemma_dec_digits_len(n: nat)
    ensures
        dec_digits(n).len() >= 1,
        n >= 10 ==> dec_digits(n).len() >= 2,
    decreases n,
{
    if n >= 10 {
        lemma_dec_digits_len(n / 10);
    }
}

proof fn lemma_dec_digits_injective(a: nat, b: nat)
    requires
        dec_digits(a) == dec_digits(b),
    ensures
        a == b,
    decreases a,
{
    if a < 10 && b < 10 {
        assert(dec_digits(a)[0] == (0x30 + a) as u8);
        assert(dec_digits(b)[0] == (0x30 + b) as u8);
    } else if a < 10 {
        lemma_dec_digits_len(b);
        assert(dec_digits(a).len() == 1);
    } else if b < 10 {
        lemma_dec_digits_len(a);
        assert(dec_digits(b).len() == 1);
    } else {
        let da = dec_digits(a / 10);
        let db = dec_digits(b / 10);
        assert(da.push((0x30 + a % 10) as u8).drop_last() =~= da);
        assert(db.push((0x30 + b % 10) as u8).drop_last() =~= db);
        assert(da == db);
        assert(dec_digits(a).last() == (0x30 + a % 10) as u8);
        assert(dec_digits(b).last() == (0x30 + b % 10) as u8);
        lemma_dec_digits_injective(a / 10, b / 10);
    }
}

/// Distinct registry indices get distinct storage object names, so a flush
/// writes exactly one object per entry and never folds two entries into one
/// object; only a later flush of an unchanged registry reuses a name.
pub proof fn lemma_object_names_injective(i: nat, j: nat)
    requires
        object_name_spec(i) == object_name_spec(j),
    ensures
        i == j,
{
    assert(object_name_spec(i).skip(12) =~= dec_digits(i));
    assert(object_name_spec(j).skip(12) =~= dec_digits(j));
    lemma_dec_digits_injective(i, j);
}

/// `"public_key: "`, opening the human-readable dump.
pub open spec fn public_label() -> Seq<u8> {
    seq![0x70u8, 0x75, 0x62, 0x6c, 0x69, 0x63, 0x5f, 0x6b, 0x65, 0x79, 0x3a, 0x20]
}

/// `"\nsecret_key: "`, separating the two dumped fields.
pub open spec fn secret_label() -> Seq<u8> {
    seq![0x0au8, 0x73, 0x65, 0x63, 0x72, 0x65, 0x74, 0x5f, 0x6b, 0x65, 0x79, 0x3a, 0x20]
}

/// The human-readable dump of a keypair that a flush uploads: both fields in
/// hexadecimal under their labels. Not designed for restore.
pub open spec fn render_spec(kp: KeyPair) -> Seq<u8> {
    public_label() + hex_bytes(kp.public_key@) + secret_label() + hex_bytes(kp.secret_key@)
        + seq![0x0au8]
}

/// Appends the decimal digits of `n`.
fn push_dec(out: &mut Vec<u8>, n: usize)
    ensures
        final(out)@ == old(out)@ + dec_digits(n as nat),
    decreases n,
{
    if n < 10 {
        out.push(0x30 + (n as u8));
        proof {
            assert(out@ =~= old(out)@ + dec_digits(n as nat));
        }
    } else {
        push_dec(out, n / 10);
        out.push(0x30 + ((n % 10) as u8));
        proof {
            assert(out@ =~= old(out)@ + dec_digits(n as nat));
        }
    }
}

/// The storage object name for registry index `i`.
pub fn object_name(i: usize) -> (r: Vec<u8>)
    ensures
        r@ == object_name_spec(i as nat),
{
    let mut out: Vec<u8> = Vec::new();
    out.push(0x62);
    out.push(0x61);
    out.push(0x63);
    out.push(0x6b);
    out.push(0x75);
    out.push(0x70);
    out.push(0x2d);
    out.push(0x6b);
    out.push(0x65);
    out.push(0x79);
    out.push(0x73);
    out.push(0x2d);
    proof {
        assert(out@ =~= name_prefix());
    }
    push_dec(&mut out, i);
    out
}

/// The human-readable dump of one keypair.
pub fn render_keypair(kp: &KeyPair) -> (r: Vec<u8>)
    ensures
        r@ == render_spec(*kp),
{
    let mut out: Vec<u8> = Vec::new();
    out.push(0x70);
    out.push(0x75);
    out.push(0x62);
    out.push(0x6c);
    out.push(0x69);
    out.push(0x63);
    out.push(0x5f);
    out.push(0x6b);
    out.push(0x65);
    out.push(0x79);
    out.push(0x3a);
    out.push(0x20);
    proof {
        assert(out@ =~= public_label());
    }
    push_hex(&mut out, &kp.public_key);
    let ghost mid1 = out@;
    out.push(0x0a);
    out.push(0x73);
    out.push(0x65);
    out.push(0x63);
    out.push(0x72);
    out.push(0x65);
    out.push(0x74);
    out.push(0x5f);
    out.push(0x6b);
    out.push(0x65);
    out.push(0x79);
    out.push(0x3a);
    out.push(0x20);
    proof {
        assert(out@ =~= mid1 + secret_label());
    }
    push_hex(&mut out, &kp.secret_key);
    out.push(0x0a);
    proof {
        assert(out@ =~= render_spec(*kp));
    }
    out
}

impl BackupRegistry {
    /// An empty registry.
    pub fn new() -> (r: BackupRegistry)
        ensures
            r@ == Seq::<KeyPair>::empty(),
    {
        BackupRegistry { entries: Vec::new() }
    }

    /// How many keypairs the registry holds.
    pub fn len(&self) -> (r: usize)
        ensures
            r == self@.len(),
    {
        self.entries.len()
    }

    /// Appends a keypair to the registry. Always succeeds: the server
    /// validates nothing and deduplicates nothing.
    pub fn add_keypair(&mut self, kp: KeyPair)
        ensures
            final(self)@ == old(self)@.push(kp),
    {
        self.entries.push(kp);
    }

    /// Decodes a received backup payload and appends it to the registry.
    ///
    /// Accepts exactly the well-formed payloads; on a malformed one the
    /// registry is unchanged and the transmission is rejected.
    pub fn ingest_payload(&mut self, bytes: &Vec<u8>) -> (r: Result<(), WalletError>)
        ensures
            r is Ok <==> parse_payload(bytes@) is Some,
            r is Ok ==> final(self)@.len() == old(self)@.len() + 1 && final(self)@.subrange(
                0,
                old(self)@.len() as int,
            ) == old(self)@ && Some(
                (
                    final(self)@.last().public_key@,
                    final(self)@.last().secret_key@,
                ),
            ) == parse_payload(bytes@),
            r matches Err(e) ==> e == WalletError::TransmissionError && final(self)@ == old(
                self,
            )@,
    {
        let kp = decode_keypair(bytes)?;
        self.add_keypair(kp);
        proof {
            assert(self@.subrange(0, old(self)@.len() as int) =~= old(self)@);
        }
        Ok(())
    }

    /// Plans a flush: one storage object per registry entry, in registry
    /// order, the object for index `i` named `backup-keys-<i>` and holding
    /// the human-readable dump of entry `i`. The registry itself is left
    /// untouched, so a failed upload loses nothing and the flush can be
    /// retried.
    pub fn flush_plan(&self) -> (r: Vec<BackupObject>)
        ensures
            r@.len() == self@.len(),
            forall|i: int|
                0 <= i < self@.len() ==> (#[trigger] r@[i]).name@ == object_name_spec(i as nat)
                    && r@[i].content@ == render_spec(self@[i]),
    {
        let mut plan: Vec<BackupObject> = Vec::new();
        let mut i: usize = 0;
        while i < self.entries.len()
            invariant
                i <= self@.len(),
                self@ == self.entries@,
                plan@.len() == i,
                forall|j: int|
                    0 <= j < i ==> (#[trigger] plan@[j]).name@ == object_name_spec(j as nat)
                        && plan@[j].content@ == render_spec(self@[j]),
            decreases self@.len() - i,
        {
            let name = object_name(i);
            let content = render_keypair(&self.entries[i]);
            plan.push(BackupObject { name, content });
            i += 1;
        }
        plan
    }
}

} // verus!
