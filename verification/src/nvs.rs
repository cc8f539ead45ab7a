//! How the Wi-Fi credentials are laid out in the board's non-volatile
//! key-value store, and the decisions taken while reading them back.
//!
//! The store itself belongs to the platform: this module says which entries
//! are written, removed and read, in which order, and what the answers mean.
//! Reading is a sequence of requests: each request is answered by the caller
//! and handed back to the continuation it came with.
use vstd::prelude::*;
use vstd::utf8::*;
use vstd::string::*;
use crate::api::{CredentialsView, WifiCredentials};

verus! {

broadcast use vstd::seq::group_seq_axioms;

/// The entries of the store that hold the Wi-Fi credentials.
#[derive(Clone, Copy, Debug, PartialEq, Eq, Structural)]
pub enum NvsKey {
    /// Marker that is 1 once a complete set of credentials has been written.
    WifiSet,
    /// The network name, as UTF-8 bytes.
    WifiSsid,
    /// The byte length of the network name.
    WifiSsidLength,
    /// The password, as UTF-8 bytes.
    WifiPassword,
    /// The byte length of the password.
    WifiPasswordLength,
}

/// The name under which an entry is stored.
pub open spec fn key_name(key: NvsKey) -> Seq<char> {
    match key {
        NvsKey::WifiSet => "wifi_set"@,
        NvsKey::WifiSsid => "wifi_ssid"@,
        NvsKey::WifiSsidLength => "wifi_ssid_l"@,
        NvsKey::WifiPassword => "wifi_pass"@,
        NvsKey::WifiPasswordLength => "wifi_pass_l"@,
    }
}

impl NvsKey {
    /// The name under which this entry is stored.
    pub fn name(&self) -> (r: &'static str)
        ensures
            r@ == key_name(*self),
    {
        match self {
            NvsKey::WifiSet => "wifi_set",
            NvsKey::WifiSsid => "wifi_ssid",
            NvsKey::WifiSsidLength => "wifi_ssid_l",
            NvsKey::WifiPassword => "wifi_pass",
            NvsKey::WifiPasswordLength => "wifi_pass_l",
        }
    }
}

/// Distinct entries are stored under distinct names, so the store can be
/// modelled as a map from entries to values.
pub proof fn lemma_key_names_distinct(a: NvsKey, b: NvsKey)
    ensures
        key_name(a) == key_name(b) <==> a == b,
{
    reveal_strlit("wifi_set");
    reveal_strlit("wifi_ssid");
    reveal_strlit("wifi_ssid_l");
    reveal_strlit("wifi_pass");
    reveal_strlit("wifi_pass_l");
    if key_name(a) == key_name(b) {
        if a != b {
            let x = key_name(a);
            let y = key_name(b);
            assert(x.len() != y.len() || exists|i: int| 0 <= i < x.len() && x[i] != y[i]) by {
                match (a, b) {
                    (NvsKey::WifiSsid, NvsKey::WifiPassword) => assert(x[5] != y[5]),
                    (NvsKey::WifiPassword, NvsKey::WifiSsid) => assert(x[5] != y[5]),
                    (NvsKey::WifiSsidLength, NvsKey::WifiPasswordLength) => assert(x[5] != y[5]),
                    (NvsKey::WifiPasswordLength, NvsKey::WifiSsidLength) => assert(x[5] != y[5]),
                    _ => {},
                }
            }
        }
    }
}

/// One write to the store.
pub enum NvsWrite {
    U8 { key: NvsKey, value: u8 },
    Blob { key: NvsKey, data: Vec<u8> },
}

/// A write, with the blob as a byte sequence.
pub enum WriteView {
    U8(NvsKey, u8),
    Blob(NvsKey, Seq<u8>),
}

impl View for NvsWrite {
    type V = WriteView;

    open spec fn view(&self) -> WriteView {
        match self {
            NvsWrite::U8 { key, value } => WriteView::U8(*key, *value),
            NvsWrite::Blob { key, data } => WriteView::Blob(*key, data@),
        }
    }
}

/// The writes of a plan, as views.
pub open spec fn writes_view(writes: Seq<NvsWrite>) -> Seq<WriteView> {
    writes.map_values(|w: NvsWrite| w@)
}

/// The writes that store a set of credentials, in order: the marker is
/// cleared first and set last, so that a half-written set is never taken
/// for a complete one. Lengths are stored in one byte each.
pub open spec fn wifi_write_plan_spec(c: CredentialsView) -> Seq<WriteView> {
    let ssid = encode_utf8(c.ssid);
    let password = encode_utf8(c.password);
    seq![
        WriteView::U8(NvsKey::WifiSet, 0),
        WriteView::Blob(NvsKey::WifiSsid, ssid),
        WriteView::U8(NvsKey::WifiSsidLength, ssid.len() as u8),
        WriteView::Blob(NvsKey::WifiPassword, password),
        WriteView::U8(NvsKey::WifiPasswordLength, password.len() as u8),
        WriteView::U8(NvsKey::WifiSet, 1),
    ]
}

/// The writes that store `wifi` (see [`wifi_write_plan_spec`]).
pub fn wifi_write_plan(wifi: &WifiCredentials) -> (r: Vec<NvsWrite>)
    ensures
        writes_view(r@) == wifi_write_plan_spec(wifi@),
{
    let ssid = wifi.ssid.as_str().as_bytes_vec();
    let password = wifi.password.as_str().as_bytes_vec();
    let ssid_len = ssid.len() as u8;
    let password_len = password.len() as u8;
    let mut r: Vec<NvsWrite> = Vec::new();
    r.push(NvsWrite::U8 { key: NvsKey::WifiSet, value: 0 });
    r.push(NvsWrite::Blob { key: NvsKey::WifiSsid, data: ssid });
    r.push(NvsWrite::U8 { key: NvsKey::WifiSsidLength, value: ssid_len });
    r.push(NvsWrite::Blob { key: NvsKey::WifiPassword, data: password });
    r.push(NvsWrite::U8 { key: NvsKey::WifiPasswordLength, value: password_len });
    r.push(NvsWrite::U8 { key: NvsKey::WifiSet, value: 1 });
    assert(writes_view(r@) =~= wifi_write_plan_spec(wifi@));
    r
}

/// The entries removed to forget the credentials, in order, marker first.
pub open spec fn wifi_wipe_plan_spec() -> Seq<NvsKey> {
    seq![
        NvsKey::WifiSet,
        NvsKey::WifiSsid,
        NvsKey::WifiSsidLength,
        NvsKey::WifiPassword,
        NvsKey::WifiPasswordLength,
    ]
}

/// The entries removed to forget the credentials (see [`wifi_wipe_plan_spec`]).
pub fn wifi_wipe_plan() -> (r: Vec<NvsKey>)
    ensures
        r@ == wifi_wipe_plan_spec(),
{
    let mut r: Vec<NvsKey> = Vec::new();
    r.push(NvsKey::WifiSet);
    r.push(NvsKey::WifiSsid);
    r.push(NvsKey::WifiSsidLength);
    r.push(NvsKey::WifiPassword);
    r.push(NvsKey::WifiPasswordLength);
    assert(r@ =~= wifi_wipe_plan_spec());
    r
}

/// Why stored credentials could not be read back.
#[derive(Clone, Copy, Debug, PartialEq, Eq, Structural)]
pub enum NvsError {
    /// A stored name or password is not valid UTF-8.
    InvalidUtf8,
}

/// What the next one-byte answer is for.
pub enum U8Stage {
    /// The marker.
    Flag,
    /// The length of the network name.
    SsidLength,
    /// The length of the password, the name's length being known.
    PasswordLength(Option<u8>),
}

/// What the next blob answer is for.
pub enum BlobStage {
    /// The network name; the password's length is known.
    Ssid(u8),
    /// The password; the name's bytes are known.
    Password(Seq<u8>),
}

/// A step of reading the credentials back, as a view.
pub enum ReadView {
    /// Read the one-byte entry `key` and resume at `stage`.
    ReadU8 { key: NvsKey, stage: U8Stage },
    /// Read `len` bytes of the blob entry `key` and resume at `stage`.
    ReadBlob { key: NvsKey, len: u8, stage: BlobStage },
    /// Reading is over.
    Done(Result<Option<CredentialsView>, NvsError>),
}

/// The first step of reading the credentials: ask for the marker.
pub open spec fn read_begin_spec() -> ReadView {
    ReadView::ReadU8 { key: NvsKey::WifiSet, stage: U8Stage::Flag }
}

/// The step that follows a one-byte answer (`None`: no such entry).
pub open spec fn resume_u8_spec(stage: U8Stage, value: Option<u8>) -> ReadView {
    match stage {
        U8Stage::Flag => match value {
            Some(v) if v != 0 => ReadView::ReadU8 { key: NvsKey::WifiSsidLength, stage: U8Stage::SsidLength },
            _ => ReadView::Done(Ok(None)),
        },
        U8Stage::SsidLength => ReadView::ReadU8 {
            key: NvsKey::WifiPasswordLength,
            stage: U8Stage::PasswordLength(value),
        },
        U8Stage::PasswordLength(ssid_len) => match (ssid_len, value) {
            (Some(sl), Some(pl)) => ReadView::ReadBlob { key: NvsKey::WifiSsid, len: sl, stage: BlobStage::Ssid(pl) },
            _ => ReadView::Done(Ok(None)),
        },
    }
}

/// The credentials decoded from the two byte strings.
pub open spec fn decode_credentials_spec(ssid: Seq<u8>, password: Seq<u8>) -> Result<CredentialsView, NvsError> {
    if valid_utf8(ssid) && valid_utf8(password) {
        Ok(CredentialsView { ssid: decode_utf8(ssid), password: decode_utf8(password) })
    } else {
        Err(NvsError::InvalidUtf8)
    }
}

/// The step that follows a blob answer (the buffer as it was filled).
pub open spec fn resume_blob_spec(stage: BlobStage, bytes: Seq<u8>) -> ReadView {
    match stage {
        BlobStage::Ssid(password_len) => ReadView::ReadBlob {
            key: NvsKey::WifiPassword,
            len: password_len,
            stage: BlobStage::Password(bytes),
        },
        BlobStage::Password(ssid) => match decode_credentials_spec(ssid, bytes) {
            Ok(c) => ReadView::Done(Ok(Some(c))),
            Err(e) => ReadView::Done(Err(e)),
        },
    }
}

/// Continuation that waits for a one-byte answer.
pub struct AwaitU8 {
    stage: AwaitU8Stage,
}

enum AwaitU8Stage {
    Flag,
    SsidLength,
    PasswordLength(Option<u8>),
}

/// Continuation that waits for a blob answer.
pub struct AwaitBlob {
    stage: AwaitBlobStage,
}

enum AwaitBlobStage {
    Ssid(u8),
    Password(Vec<u8>),
}

impl View for AwaitU8 {
    type V = U8Stage;

    closed spec fn view(&self) -> U8Stage {
        match self.stage {
            AwaitU8Stage::Flag => U8Stage::Flag,
            AwaitU8Stage::SsidLength => U8Stage::SsidLength,
            AwaitU8Stage::PasswordLength(l) => U8Stage::PasswordLength(l),
        }
    }
}

impl View for AwaitBlob {
    type V = BlobStage;

    closed spec fn view(&self) -> BlobStage {
        match self.stage {
            AwaitBlobStage::Ssid(l) => BlobStage::Ssid(l),
            AwaitBlobStage::Password(bytes) => BlobStage::Password(bytes@),
        }
    }
}

/// A step of reading the credentials back.
pub enum WifiRead {
    /// Read the one-byte entry `key` and hand the answer to `next`.
    ReadU8 { key: NvsKey, next: AwaitU8 },
    /// Read the blob entry `key` into a zeroed buffer of `len` bytes and hand
    /// the buffer to `next`.
    ReadBlob { key: NvsKey, len: u8, next: AwaitBlob },
    /// Reading is over: no complete credentials, the credentials, or why they
    /// could not be decoded.
    Done(Result<Option<WifiCredentials>, NvsError>),
}

impl View for WifiRead {
    type V = ReadView;

    open spec fn view(&self) -> ReadView {
        match self {
            WifiRead::ReadU8 { key, next } => ReadView::ReadU8 { key: *key, stage: next@ },
            WifiRead::ReadBlob { key, len, next } => ReadView::ReadBlob { key: *key, len: *len, stage: next@ },
            WifiRead::Done(Ok(None)) => ReadView::Done(Ok(None)),
            WifiRead::Done(Ok(Some(c))) => ReadView::Done(Ok(Some(c@))),
            WifiRead::Done(Err(e)) => ReadView::Done(Err(*e)),
        }
    }
}

/// `String::from_utf8`: the bytes as a string when they are valid UTF-8.
#[verifier::external_body]
fn string_from_utf8(bytes: Vec<u8>) -> (r: Option<String>)
    ensures
        r is Some <==> valid_utf8(bytes@),
        r matches Some(s) ==> s@ == decode_utf8(bytes@),
{
    String::from_utf8(bytes).ok()
}

/// Decodes a stored network name and password.
pub fn decode_credentials(ssid: Vec<u8>, password: Vec<u8>) -> (r: Result<WifiCredentials, NvsError>)
    ensures
        match (r, decode_credentials_spec(ssid@, password@)) {
            (Ok(c), Ok(d)) => c@ == d,
            (Err(e), Err(f)) => e == f,
            _ => false,
        },
{
    let ssid = match string_from_utf8(ssid) {
        Some(s) => s,
        None => return Err(NvsError::InvalidUtf8),
    };
    let password = match string_from_utf8(password) {
        Some(p) => p,
        None => return Err(NvsError::InvalidUtf8),
    };
    Ok(WifiCredentials { ssid, password })
}

/// Starts reading the credentials back (see [`read_begin_spec`]).
pub fn begin_wifi_read() -> (r: WifiRead)
    ensures
        r@ == read_begin_spec(),
{
    WifiRead::ReadU8 { key: NvsKey::WifiSet, next: AwaitU8 { stage: AwaitU8Stage::Flag } }
}

impl AwaitU8 {
    /// Continues with the answer to the one-byte read (see [`resume_u8_spec`]).
    pub fn resume(self, value: Option<u8>) -> (r: WifiRead)
        ensures
            r@ == resume_u8_spec(self@, value),
    {
        match self.stage {
            AwaitU8Stage::Flag => match value {
                Some(v) => {
                    if v != 0 {
                        WifiRead::ReadU8 {
                            key: NvsKey::WifiSsidLength,
                            next: AwaitU8 { stage: AwaitU8Stage::SsidLength },
                        }
                    } else {
                        WifiRead::Done(Ok(None))
                    }
                },
                None => WifiRead::Done(Ok(None)),
            },
            AwaitU8Stage::SsidLength => WifiRead::ReadU8 {
                key: NvsKey::WifiPasswordLength,
                next: AwaitU8 { stage: AwaitU8Stage::PasswordLength(value) },
            },
            AwaitU8Stage::PasswordLength(ssid_len) => match (ssid_len, value) {
                (Some(sl), Some(pl)) => WifiRead::ReadBlob {
                    key: NvsKey::WifiSsid,
                    len: sl,
                    next: AwaitBlob { stage: AwaitBlobStage::Ssid(pl) },
                },
                _ => WifiRead::Done(Ok(None)),
            },
        }
    }
}

impl AwaitBlob {
    /// Continues with the buffer filled by the blob read (see [`resume_blob_spec`]).
    pub fn resume(self, bytes: Vec<u8>) -> (r: WifiRead)
        ensures
            r@ == resume_blob_spec(self@, bytes@),
    {
        match self.stage {
            AwaitBlobStage::Ssid(password_len) => WifiRead::ReadBlob {
                key: NvsKey::WifiPassword,
                len: password_len,
                next: AwaitBlob { stage: AwaitBlobStage::Password(bytes) },
            },
            AwaitBlobStage::Password(ssid) => match decode_credentials(ssid, bytes) {
                Ok(c) => WifiRead::Done(Ok(Some(c))),
                Err(e) => WifiRead::Done(Err(e)),
            },
        }
    }
}

/// A value held by the store.
pub enum Stored {
    U8(u8),
    Blob(Seq<u8>),
}

/// The store after one write: the entry is replaced, whatever it held.
pub open spec fn apply_write(store: Map<NvsKey, Stored>, w: WriteView) -> Map<NvsKey, Stored> {
    match w {
        WriteView::U8(key, v) => store.insert(key, Stored::U8(v)),
        WriteView::Blob(key, b) => store.insert(key, Stored::Blob(b)),
    }
}

/// The store after a sequence of writes, first to last.
pub open spec fn apply_writes(store: Map<NvsKey, Stored>, writes: Seq<WriteView>) -> Map<NvsKey, Stored>
    decreases writes.len(),
{
    if writes.len() == 0 {
        store
    } else {
        apply_writes(apply_write(store, writes[0]), writes.drop_first())
    }
}

/// The store after removing a sequence of entries.
pub open spec fn apply_removes(store: Map<NvsKey, Stored>, keys: Seq<NvsKey>) -> Map<NvsKey, Stored>
    decreases keys.len(),
{
    if keys.len() == 0 {
        store
    } else {
        apply_removes(store.remove(keys[0]), keys.drop_first())
    }
}

/// What a one-byte read of `key` answers: the value, or `None` when no
/// one-byte value is stored under that name.
pub open spec fn u8_answer(store: Map<NvsKey, Stored>, key: NvsKey) -> Option<u8> {
    if store.contains_key(key) {
        match store[key] {
            Stored::U8(v) => Some(v),
            Stored::Blob(_) => None,
        }
    } else {
        None
    }
}

/// What a blob read of `key` into a zeroed buffer of `len` bytes leaves in the
/// buffer; `None` when the stored blob does not fit and the store reports an
/// error.
pub open spec fn blob_answer(store: Map<NvsKey, Stored>, key: NvsKey, len: u8) -> Option<Seq<u8>> {
    if store.contains_key(key) && store[key] is Blob {
        let b = store[key]->Blob_0;
        if b.len() <= len {
            Some(b + Seq::new((len - b.len()) as nat, |i: int| 0u8))
        } else {
            None
        }
    } else {
        Some(Seq::new(len as nat, |i: int| 0u8))
    }
}

/// How reading back from a store ends.
pub enum ReadBack {
    Finished(Result<Option<CredentialsView>, NvsError>),
    /// The store reported an error on a blob read.
    StoreFault,
    /// More reads were asked for than allowed.
    Unfinished,
}

/// Drives a read against `store`, allowing at most `reads` more reads.
pub open spec fn run_read(store: Map<NvsKey, Stored>, r: ReadView, reads: nat) -> ReadBack
    decreases reads,
{
    match r {
        ReadView::Done(res) => ReadBack::Finished(res),
        ReadView::ReadU8 { key, stage } => if reads == 0 {
            ReadBack::Unfinished
        } else {
            run_read(store, resume_u8_spec(stage, u8_answer(store, key)), (reads - 1) as nat)
        },
        ReadView::ReadBlob { key, len, stage } => if reads == 0 {
            ReadBack::Unfinished
        } else {
            match blob_answer(store, key, len) {
                None => ReadBack::StoreFault,
                Some(b) => run_read(store, resume_blob_spec(stage, b), (reads - 1) as nat),
            }
        },
    }
}

/// The outcome of reading the credentials back from `store`, with at most
/// five reads.
pub open spec fn read_back(store: Map<NvsKey, Stored>) -> ReadBack {
    run_read(store, read_begin_spec(), 5)
}

/// Reading the credentials back always ends within five reads, whatever the
/// store holds.
pub proof fn lemma_read_ends(store: Map<NvsKey, Stored>)
    ensures
        !(read_back(store) is Unfinished),
{
    reveal_with_fuel(run_read, 6);
}

/// Credentials that were written completely are read back unchanged, provided
/// each of the name and the password is at most 255 bytes long in UTF-8 (the
/// stored lengths are one byte each).
pub proof fn lemma_read_after_write(store: Map<NvsKey, Stored>, c: CredentialsView)
    requires
        encode_utf8(c.ssid).len() <= 255,
        encode_utf8(c.password).len() <= 255,
    ensures
        read_back(apply_writes(store, wifi_write_plan_spec(c))) == ReadBack::Finished(Ok(Some(c))),
{
    broadcast use encode_utf8_valid_utf8, encode_utf8_decode_utf8;
    let plan = wifi_write_plan_spec(c);
    let sb = encode_utf8(c.ssid);
    let pb = encode_utf8(c.password);
    reveal_with_fuel(apply_writes, 7);
    let s = apply_writes(store, plan);
    assert(s == store.insert(NvsKey::WifiSet, Stored::U8(0))
        .insert(NvsKey::WifiSsid, Stored::Blob(sb))
        .insert(NvsKey::WifiSsidLength, Stored::U8(sb.len() as u8))
        .insert(NvsKey::WifiPassword, Stored::Blob(pb))
        .insert(NvsKey::WifiPasswordLength, Stored::U8(pb.len() as u8))
        .insert(NvsKey::WifiSet, Stored::U8(1)));
    assert(sb + Seq::new(0, |i: int| 0u8) =~= sb);
    assert(pb + Seq::new(0, |i: int| 0u8) =~= pb);
    assert(blob_answer(s, NvsKey::WifiSsid, sb.len() as u8) == Some(sb));
    assert(blob_answer(s, NvsKey::WifiPassword, pb.len() as u8) == Some(pb));
    reveal_with_fuel(run_read, 6);
}

/// A write of the credentials that stopped part way (after at least one and
/// before the last of its writes) reads back as no credentials at all.
pub proof fn lemma_read_after_interrupted_write(store: Map<NvsKey, Stored>, c: CredentialsView, done: int)
    requires
        1 <= done < 6,
    ensures
        read_back(apply_writes(store, wifi_write_plan_spec(c).take(done))) == ReadBack::Finished(Ok(None)),
{
    let plan = wifi_write_plan_spec(c);
    let part = plan.take(done);
    reveal_with_fuel(apply_writes, 6);
    let s = apply_writes(store, part);
    if done == 1 {
        assert(part =~= seq![plan[0]]);
    } else if done == 2 {
        assert(part =~= seq![plan[0], plan[1]]);
        assert(part.drop_first() =~= seq![plan[1]]);
    } else if done == 3 {
        assert(part =~= seq![plan[0], plan[1], plan[2]]);
        assert(part.drop_first() =~= seq![plan[1], plan[2]]);
        assert(part.drop_first().drop_first() =~= seq![plan[2]]);
    } else if done == 4 {
        assert(part =~= seq![plan[0], plan[1], plan[2], plan[3]]);
        assert(part.drop_first() =~= seq![plan[1], plan[2], plan[3]]);
        assert(part.drop_first().drop_first() =~= seq![plan[2], plan[3]]);
        assert(part.drop_first().drop_first().drop_first() =~= seq![plan[3]]);
    } else {
        assert(part =~= seq![plan[0], plan[1], plan[2], plan[3], plan[4]]);
        assert(part.drop_first() =~= seq![plan[1], plan[2], plan[3], plan[4]]);
        assert(part.drop_first().drop_first() =~= seq![plan[2], plan[3], plan[4]]);
        assert(part.drop_first().drop_first().drop_first() =~= seq![plan[3], plan[4]]);
        assert(part.drop_first().drop_first().drop_first().drop_first() =~= seq![plan[4]]);
    }
    assert(s.contains_key(NvsKey::WifiSet) && s[NvsKey::WifiSet] == Stored::U8(0));
    reveal_with_fuel(run_read, 2);
}

/// Once the removal of the credentials has begun (the marker goes first), the
/// store reads back as holding no credentials, however far the removal got.
pub proof fn lemma_read_after_wipe(store: Map<NvsKey, Stored>, done: int)
    requires
        1 <= done <= 5,
    ensures
        read_back(apply_removes(store, wifi_wipe_plan_spec().take(done))) == ReadBack::Finished(Ok(None)),
{
    let plan = wifi_wipe_plan_spec();
    let part = plan.take(done);
    reveal_with_fuel(apply_removes, 6);
    if done == 1 {
        assert(part =~= seq![NvsKey::WifiSet]);
    } else if done == 2 {
        assert(part =~= seq![NvsKey::WifiSet, NvsKey::WifiSsid]);
        assert(part.drop_first() =~= seq![NvsKey::WifiSsid]);
    } else if done == 3 {
        assert(part.drop_first() =~= seq![NvsKey::WifiSsid, NvsKey::WifiSsidLength]);
        assert(part.drop_first().drop_first() =~= seq![NvsKey::WifiSsidLength]);
    } else if done == 4 {
        assert(part.drop_first() =~= seq![NvsKey::WifiSsid, NvsKey::WifiSsidLength, NvsKey::WifiPassword]);
        assert(part.drop_first().drop_first() =~= seq![NvsKey::WifiSsidLength, NvsKey::WifiPassword]);
        assert(part.drop_first().drop_first().drop_first() =~= seq![NvsKey::WifiPassword]);
    } else {
        assert(part =~= plan);
        assert(part.drop_first() =~= seq![NvsKey::WifiSsid, NvsKey::WifiSsidLength, NvsKey::WifiPassword, NvsKey::WifiPasswordLength]);
        assert(part.drop_first().drop_first() =~= seq![NvsKey::WifiSsidLength, NvsKey::WifiPassword, NvsKey::WifiPasswordLength]);
        assert(part.drop_first().drop_first().drop_first() =~= seq![NvsKey::WifiPassword, NvsKey::WifiPasswordLength]);
        assert(part.drop_first().drop_first().drop_first().drop_first() =~= seq![NvsKey::WifiPasswordLength]);
    }
    assert(!apply_removes(store, part).contains_key(NvsKey::WifiSet));
    reveal_with_fuel(run_read, 2);
}

/// The requests a read makes of `store` from `r` on, allowing at most
/// `reads` more, in order.
pub open spec fn read_requests(store: Map<NvsKey, Stored>, r: ReadView, reads: nat) -> Seq<ReadView>
    decreases reads,
{
    match r {
        ReadView::Done(_) => Seq::empty(),
        ReadView::ReadU8 { key, stage } => if reads == 0 {
            Seq::empty()
        } else {
            seq![r] + read_requests(store, resume_u8_spec(stage, u8_answer(store, key)), (reads - 1) as nat)
        },
        ReadView::ReadBlob { key, len, stage } => if reads == 0 {
            Seq::empty()
        } else {
            match blob_answer(store, key, len) {
                None => seq![r],
                Some(b) => seq![r] + read_requests(store, resume_blob_spec(stage, b), (reads - 1) as nat),
            }
        },
    }
}

/// The entry a read request is for, if it is one.
pub open spec fn requested_key(r: ReadView) -> Option<NvsKey> {
    match r {
        ReadView::ReadU8 { key, .. } => Some(key),
        ReadView::ReadBlob { key, .. } => Some(key),
        ReadView::Done(_) => None,
    }
}

/// Reading the credentials back only reads: it makes at most five requests,
/// each a one-byte or blob read, never a write or a removal (the only ways
/// the store changes, [`apply_writes`] and [`apply_removes`]), so the store is
/// the same after reading; and the first read is of the marker.
pub proof fn lemma_read_only_reads(store: Map<NvsKey, Stored>)
    ensures
        read_requests(store, read_begin_spec(), 5).len() <= 5,
        forall|i: int|
            0 <= i < read_requests(store, read_begin_spec(), 5).len() ==> (#[trigger] read_requests(
                store,
                read_begin_spec(),
                5,
            )[i] is ReadU8 || read_requests(store, read_begin_spec(), 5)[i] is ReadBlob),
        read_requests(store, read_begin_spec(), 5)[0] == read_begin_spec(),
        requested_key(read_requests(store, read_begin_spec(), 5)[0]) == Some(NvsKey::WifiSet),
{
    lemma_requests_are_reads(store, read_begin_spec(), 5);
    reveal_with_fuel(read_requests, 2);
}

proof fn lemma_requests_are_reads(store: Map<NvsKey, Stored>, r: ReadView, reads: nat)
    ensures
        read_requests(store, r, reads).len() <= reads,
        forall|i: int|
            0 <= i < read_requests(store, r, reads).len() ==> (#[trigger] read_requests(store, r, reads)[i] is ReadU8
                || read_requests(store, r, reads)[i] is ReadBlob),
    decreases reads,
{
    let t = read_requests(store, r, reads);
    match r {
        ReadView::Done(_) => {},
        ReadView::ReadU8 { key, stage } => if reads > 0 {
            let next = resume_u8_spec(stage, u8_answer(store, key));
            lemma_requests_are_reads(store, next, (reads - 1) as nat);
            let rest = read_requests(store, next, (reads - 1) as nat);
            assert forall|i: int| 0 <= i < t.len() implies (#[trigger] t[i] is ReadU8 || t[i] is ReadBlob) by {
                if i > 0 {
                    assert(t[i] == rest[i - 1]);
                }
            }
        },
        ReadView::ReadBlob { key, len, stage } => if reads > 0 {
            match blob_answer(store, key, len) {
                None => {},
                Some(b) => {
                    let next = resume_blob_spec(stage, b);
                    lemma_requests_are_reads(store, next, (reads - 1) as nat);
                    let rest = read_requests(store, next, (reads - 1) as nat);
                    assert forall|i: int| 0 <= i < t.len() implies (#[trigger] t[i] is ReadU8 || t[i] is ReadBlob) by {
                        if i > 0 {
                            assert(t[i] == rest[i - 1]);
                        }
                    }
                },
            }
        },
    }
}

} // verus!
