//! Persistent settings and metrics store, backed by an embedded key-value
//! database (sled). The store's own logic — key naming, value encoding,
//! defaults written through on first read — is verified; the database calls
//! stand behind trusted wrappers whose contracts speak of the abstract
//! contents of each tree.
//!
//! Booleans are stored as one byte; integers as eight bytes big-endian.

use vstd::prelude::*;

verus! {

// ---------------------------------------------------------------------------
// Trusted view of the embedded database
// ---------------------------------------------------------------------------

#[verifier::external_type_specification]
#[verifier::external_body]
pub struct ExDb(sled::Db);

#[verifier::external_type_specification]
#[verifier::external_body]
pub struct ExTree(sled::Tree);

#[verifier::external_type_specification]
#[verifier::external_body]
pub struct ExSledError(sled::Error);

/// What a settings tree holds: its string-keyed records.
pub uninterp spec fn tree_settings(t: sled::Tree) -> Map<Seq<char>, Seq<u8>>;

/// What a metrics tree holds: its byte-keyed records.
pub uninterp spec fn tree_records(t: sled::Tree) -> Map<Seq<u8>, Seq<u8>>;

/// Lexicographic order on byte keys, a shorter strict prefix first: the
/// order sled stores keys in.
pub open spec fn bytes_lt(a: Seq<u8>, b: Seq<u8>) -> bool
    decreases a.len(),
{
    if b.len() == 0 {
        false
    } else if a.len() == 0 {
        true
    } else if a[0] < b[0] {
        true
    } else if a[0] > b[0] {
        false
    } else {
        bytes_lt(a.skip(1), b.skip(1))
    }
}

/// Relies on sled::open: opens or creates a database rooted at `path`.
/// Nothing is promised of its contents: they are whatever is on disk.
#[verifier::external_body]
fn sled_open(path: &str) -> Result<sled::Db, sled::Error> {
    sled::open(path)
}

/// Relies on sled::Db::open_tree: opens or creates the named keyspace.
#[verifier::external_body]
fn db_open_tree(db: &sled::Db, name: &str) -> Result<sled::Tree, sled::Error> {
    db.open_tree(name)
}

/// Relies on sled::Tree::flush (through Db's deref): blocks until previous
/// writes are durable.
#[verifier::external_body]
fn db_flush(db: &mut sled::Db) -> Result<(), sled::Error> {
    match db.flush() {
        Ok(_) => Ok(()),
        Err(e) => Err(e),
    }
}

/// Relies on sled::Tree::insert: on success the key is associated with the
/// value; prior contents are otherwise kept.
#[verifier::external_body]
fn tree_put_setting(t: &mut sled::Tree, key: &str, val: &[u8]) -> (r: Result<(), sled::Error>)
    ensures
        r is Ok ==> tree_settings(*final(t)) == tree_settings(*old(t)).insert(key@, val@),
{
    match t.insert(key, val) {
        Ok(_) => Ok(()),
        Err(e) => Err(e),
    }
}

/// Relies on sled::Tree::get: returns the value associated with the key, or
/// nothing when the key is absent.
#[verifier::external_body]
fn tree_get_setting(t: &sled::Tree, key: &str) -> (r: Result<Option<Vec<u8>>, sled::Error>)
    ensures
        r matches Ok(o) ==> (match o {
            Some(v) => tree_settings(*t).contains_key(key@) && v@ == tree_settings(*t)[key@],
            None => !tree_settings(*t).contains_key(key@),
        }),
{
    match t.get(key) {
        Ok(Some(iv)) => Ok(Some(iv.as_ref().to_vec())),
        Ok(None) => Ok(None),
        Err(e) => Err(e),
    }
}

/// Relies on sled::Tree::insert with a byte key (the metrics tree).
#[verifier::external_body]
fn tree_put_record(t: &mut sled::Tree, key: &[u8], val: &[u8]) -> (r: Result<(), sled::Error>)
    ensures
        r is Ok ==> tree_records(*final(t)) == tree_records(*old(t)).insert(key@, val@),
{
    match t.insert(key, val) {
        Ok(_) => Ok(()),
        Err(e) => Err(e),
    }
}

/// Relies on sled::Tree::get_lt: returns a record whose key is strictly
/// below the given key in sled's byte order, or nothing when there is none.
#[verifier::external_body]
fn tree_get_lt_record(t: &sled::Tree, key: &[u8]) -> (r: Result<
    Option<(Vec<u8>, Vec<u8>)>,
    sled::Error,
>)
    ensures
        r matches Ok(Some(kv)) ==> tree_records(*t).contains_key(kv.0@) && kv.1@ == tree_records(
            *t,
        )[kv.0@] && bytes_lt(kv.0@, key@),
{
    match t.get_lt(key) {
        Ok(Some((k, v))) => Ok(Some((k.as_ref().to_vec(), v.as_ref().to_vec()))),
        Ok(None) => Ok(None),
        Err(e) => Err(e),
    }
}

// ---------------------------------------------------------------------------
// Value encodings
// ---------------------------------------------------------------------------

/// One byte per boolean.
pub open spec fn spec_enc_bool(b: bool) -> Seq<u8> {
    if b {
        seq![1u8]
    } else {
        seq![0u8]
    }
}

/// A stored boolean reads back as true exactly when its first byte is one.
pub open spec fn spec_dec_bool(s: Seq<u8>) -> bool {
    s.len() >= 1 && s[0] == 1
}

/// Eight bytes, big-endian.
pub open spec fn spec_enc_u64(v: u64) -> Seq<u8> {
    seq![
        ((v as int / 0x100000000000000) % 256) as u8,
        ((v as int / 0x1000000000000) % 256) as u8,
        ((v as int / 0x10000000000) % 256) as u8,
        ((v as int / 0x100000000) % 256) as u8,
        ((v as int / 0x1000000) % 256) as u8,
        ((v as int / 0x10000) % 256) as u8,
        ((v as int / 0x100) % 256) as u8,
        (v as int % 256) as u8,
    ]
}

/// Value of eight big-endian bytes.
pub open spec fn be_val8(s: Seq<u8>) -> int {
    s[0] * 0x100000000000000 + s[1] * 0x1000000000000 + s[2] * 0x10000000000 + s[3] * 0x100000000
        + s[4] * 0x1000000 + s[5] * 0x10000 + s[6] * 0x100 + s[7]
}

/// An eight-byte stored value reads back big-endian; anything else reads as
/// the given default.
pub open spec fn spec_dec_u64(s: Seq<u8>, default: u64) -> u64 {
    if s.len() == 8 {
        be_val8(s) as u64
    } else {
        default
    }
}

pub open spec fn spec_enc_i64(v: i64) -> Seq<u8> {
    spec_enc_u64(v as u64)
}

pub open spec fn spec_dec_i64(s: Seq<u8>, default: i64) -> i64 {
    if s.len() == 8 {
        (be_val8(s) as u64) as i64
    } else {
        default
    }
}

/// Encoding a boolean and reading it back yields the boolean.
pub proof fn lemma_bool_codec_roundtrip(b: bool)
    ensures
        spec_dec_bool(spec_enc_bool(b)) == b,
{
}

/// Encoding an unsigned value and reading it back yields the value.
pub proof fn lemma_u64_codec_roundtrip(v: u64)
    ensures
        spec_dec_u64(spec_enc_u64(v), 0) == v,
{
    assert(((v as int / 0x100000000000000) % 256) * 0x100000000000000 + ((v as int
        / 0x1000000000000) % 256) * 0x1000000000000 + ((v as int / 0x10000000000) % 256)
        * 0x10000000000 + ((v as int / 0x100000000) % 256) * 0x100000000 + ((v as int / 0x1000000)
        % 256) * 0x1000000 + ((v as int / 0x10000) % 256) * 0x10000 + ((v as int / 0x100) % 256)
        * 0x100 + (v as int % 256) == v as int) by (bit_vector);
}

/// Encoding a signed value and reading it back yields the value.
pub proof fn lemma_i64_codec_roundtrip(v: i64)
    ensures
        spec_dec_i64(spec_enc_i64(v), 0) == v,
{
    lemma_u64_codec_roundtrip(v as u64);
    assert((v as u64) as i64 == v) by (bit_vector);
}

fn enc_u64(v: u64) -> (r: Vec<u8>)
    ensures
        r@ == spec_enc_u64(v),
{
    let mut out: Vec<u8> = Vec::new();
    out.push(((v / 0x100000000000000) % 256) as u8);
    out.push(((v / 0x1000000000000) % 256) as u8);
    out.push(((v / 0x10000000000) % 256) as u8);
    out.push(((v / 0x100000000) % 256) as u8);
    out.push(((v / 0x1000000) % 256) as u8);
    out.push(((v / 0x10000) % 256) as u8);
    out.push(((v / 0x100) % 256) as u8);
    out.push((v % 256) as u8);
    proof {
        assert(out@ =~= spec_enc_u64(v));
    }
    out
}

fn dec_u64(s: &Vec<u8>, default: u64) -> (r: u64)
    ensures
        r == spec_dec_u64(s@, default),
{
    if s.len() != 8 {
        return default;
    }
    let acc: u64 = (((((((s[0] as u64) * 256 + (s[1] as u64)) * 256 + (s[2] as u64)) * 256 + (
    s[3] as u64)) * 256 + (s[4] as u64)) * 256 + (s[5] as u64)) * 256 + (s[6] as u64)) * 256 + (
    s[7] as u64);
    proof {
        assert(acc as int == be_val8(s@));
    }
    acc
}

fn enc_i64(v: i64) -> (r: Vec<u8>)
    ensures
        r@ == spec_enc_i64(v),
{
    enc_u64(v as u64)
}

fn dec_i64(s: &Vec<u8>, default: i64) -> (r: i64)
    ensures
        r == spec_dec_i64(s@, default),
{
    if s.len() != 8 {
        return default;
    }
    let u: u64 = dec_u64(s, 0);
    u as i64
}

/// The value decodes some record of `m`.
pub open spec fn from_records(m: Map<Seq<u8>, Seq<u8>>, v: i64) -> bool {
    exists|k: Seq<u8>| #[trigger] m.contains_key(k) && m.contains_key(k) && v == spec_dec_i64(m[k], 0)
}

// ---------------------------------------------------------------------------
// The store
// ---------------------------------------------------------------------------

/// A database operation failed.
#[derive(Clone, Copy, Debug, PartialEq, Eq, Structural)]
pub enum StoreError {
    Io,
}

pub struct Store {
    db: sled::Db,
    settings_tree: sled::Tree,
    tds_1_tree: sled::Tree,
}

pub const SETTING_TDS_1: &'static str = "tds_1_thresh";

pub const SETTING_TDS_1_DEFAULT: i64 = 500000;

pub const SETTING_OSMOSEUR_PULSE_DURATION: &'static str = "osmoseur_pulse_duration";

pub const SETTING_OSMOSEUR_PULSE_DURATION_DEFAULT: u64 = 10;

pub const SETTING_OSMOSEUR_PULSE_MIN_INTERVAL: &'static str = "osmoseur_pulse_min_interval";

pub const SETTING_OSMOSEUR_PULSE_MIN_INTERVAL_DEFAULT: u64 = 240;

pub const SETTING_PH_1: &'static str = "ph_1_thresh";

pub const SETTING_PH_1_DEFAULT: i64 = 7000;

pub const SETTING_PH_PULSE_DURATION: &'static str = "ph_pulse_duration";

pub const SETTING_PH_PULSE_DURATION_DEFAULT: u64 = 10;

pub const SETTING_PH_PULSE_MIN_INTERVAL: &'static str = "ph_pulse_min_interval";

pub const SETTING_PH_PULSE_MIN_INTERVAL_DEFAULT: u64 = 240;

pub const SETTING_TDS_MONITORING: &'static str = "tds_monitoring";

pub const SETTING_PH_MONITORING: &'static str = "ph_monitoring";

impl Store {
    /// The abstract contents of the settings keyspace.
    pub closed spec fn settings(self) -> Map<Seq<char>, Seq<u8>> {
        tree_settings(self.settings_tree)
    }

    /// The abstract contents of the metrics keyspace.
    pub closed spec fn records(self) -> Map<Seq<u8>, Seq<u8>> {
        tree_records(self.tds_1_tree)
    }

    /// What reading a boolean setting yields over given contents.
    pub open spec fn spec_get_bool(m: Map<Seq<char>, Seq<u8>>, key: Seq<char>, default: bool) -> bool {
        if m.contains_key(key) {
            spec_dec_bool(m[key])
        } else {
            default
        }
    }

    /// What reading an unsigned setting yields over given contents.
    pub open spec fn spec_get_u64(m: Map<Seq<char>, Seq<u8>>, key: Seq<char>, default: u64) -> u64 {
        if m.contains_key(key) {
            spec_dec_u64(m[key], default)
        } else {
            default
        }
    }

    /// What reading a signed setting yields over given contents.
    pub open spec fn spec_get_i64(m: Map<Seq<char>, Seq<u8>>, key: Seq<char>, default: i64) -> i64 {
        if m.contains_key(key) {
            spec_dec_i64(m[key], default)
        } else {
            default
        }
    }

    /// Open or create the store rooted at `path`. Its contents are whatever
    /// the disk holds.
    pub fn open(path: &str) -> Result<Store, StoreError> {
        let db = match sled_open(path) {
            Ok(db) => db,
            Err(_) => {
                return Err(StoreError::Io);
            },
        };
        let settings_tree = match db_open_tree(&db, "settings") {
            Ok(t) => t,
            Err(_) => {
                return Err(StoreError::Io);
            },
        };
        let tds_1_tree = match db_open_tree(&db, "tds_1") {
            Ok(t) => t,
            Err(_) => {
                return Err(StoreError::Io);
            },
        };
        Ok(Store { db, settings_tree, tds_1_tree })
    }

    /// Store a boolean setting durably.
    fn put_setting_bool(&mut self, key: &str, val: bool) -> (r: Result<(), StoreError>)
        ensures
            r is Ok ==> final(self).settings() == old(self).settings().insert(
                key@,
                spec_enc_bool(val),
            ),
            final(self).records() == old(self).records(),
    {
        let byte: Vec<u8> = if val {
            vec![1u8]
        } else {
            vec![0u8]
        };
        proof {
            assert(byte@ =~= spec_enc_bool(val));
        }
        let r = tree_put_setting(&mut self.settings_tree, key, byte.as_slice());
        match db_flush(&mut self.db) {
            _ => {},
        }
        match r {
            Ok(_) => Ok(()),
            Err(_) => Err(StoreError::Io),
        }
    }

    /// Read a boolean setting; an absent key reads as the default, which is
    /// then written through.
    fn get_setting_bool(&mut self, key: &str, default: bool) -> (r: Result<bool, StoreError>)
        ensures
            r matches Ok(b) ==> b == Store::spec_get_bool(old(self).settings(), key@, default),
            r is Ok && old(self).settings().contains_key(key@) ==> final(self).settings() == old(
                self,
            ).settings(),
            r is Ok && !old(self).settings().contains_key(key@) ==> final(self).settings() == old(
                self,
            ).settings().insert(key@, spec_enc_bool(default)),
            final(self).records() == old(self).records(),
    {
        match tree_get_setting(&self.settings_tree, key) {
            Ok(Some(v)) => Ok(v.len() >= 1 && v[0] == 1),
            Ok(None) => {
                self.put_setting_bool(key, default)?;
                Ok(default)
            },
            Err(_) => Err(StoreError::Io),
        }
    }

    /// Store an unsigned setting durably, eight bytes big-endian.
    fn put_setting_u64(&mut self, key: &str, val: u64) -> (r: Result<(), StoreError>)
        ensures
            r is Ok ==> final(self).settings() == old(self).settings().insert(
                key@,
                spec_enc_u64(val),
            ),
            final(self).records() == old(self).records(),
    {
        let bytes = enc_u64(val);
        let r = tree_put_setting(&mut self.settings_tree, key, bytes.as_slice());
        match db_flush(&mut self.db) {
            _ => {},
        }
        match r {
            Ok(_) => Ok(()),
            Err(_) => Err(StoreError::Io),
        }
    }

    /// Read an unsigned setting; an absent key reads as the default, which
    /// is then written through.
    fn get_setting_u64(&mut self, key: &str, default: u64) -> (r: Result<u64, StoreError>)
        ensures
            r matches Ok(v) ==> v == Store::spec_get_u64(old(self).settings(), key@, default),
            r is Ok && old(self).settings().contains_key(key@) ==> final(self).settings() == old(
                self,
            ).settings(),
            r is Ok && !old(self).settings().contains_key(key@) ==> final(self).settings() == old(
                self,
            ).settings().insert(key@, spec_enc_u64(default)),
            final(self).records() == old(self).records(),
    {
        match tree_get_setting(&self.settings_tree, key) {
            Ok(Some(v)) => Ok(dec_u64(&v, default)),
            Ok(None) => {
                self.put_setting_u64(key, default)?;
                Ok(default)
            },
            Err(_) => Err(StoreError::Io),
        }
    }

    /// Store a signed setting durably, eight bytes big-endian.
    fn put_setting_i64(&mut self, key: &str, val: i64) -> (r: Result<(), StoreError>)
        ensures
            r is Ok ==> final(self).settings() == old(self).settings().insert(
                key@,
                spec_enc_i64(val),
            ),
            final(self).records() == old(self).records(),
    {
        let bytes = enc_i64(val);
        let r = tree_put_setting(&mut self.settings_tree, key, bytes.as_slice());
        match db_flush(&mut self.db) {
            _ => {},
        }
        match r {
            Ok(_) => Ok(()),
            Err(_) => Err(StoreError::Io),
        }
    }

    /// Read a signed setting; an absent key reads as the default, which is
    /// then written through.
    fn get_setting_i64(&mut self, key: &str, default: i64) -> (r: Result<i64, StoreError>)
        ensures
            r matches Ok(v) ==> v == Store::spec_get_i64(old(self).settings(), key@, default),
            r is Ok && old(self).settings().contains_key(key@) ==> final(self).settings() == old(
                self,
            ).settings(),
            r is Ok && !old(self).settings().contains_key(key@) ==> final(self).settings() == old(
                self,
            ).settings().insert(key@, spec_enc_i64(default)),
            final(self).records() == old(self).records(),
    {
        match tree_get_setting(&self.settings_tree, key) {
            Ok(Some(v)) => Ok(dec_i64(&v, default)),
            Ok(None) => {
                self.put_setting_i64(key, default)?;
                Ok(default)
            },
            Err(_) => Err(StoreError::Io),
        }
    }

    /// Enable or disable dissolved-solids monitoring.
    pub fn set_tds_monitoring(&mut self, val: bool) -> (r: Result<(), StoreError>)
        ensures
            r is Ok ==> final(self).settings() == old(self).settings().insert(
                SETTING_TDS_MONITORING@,
                spec_enc_bool(val),
            ),
            final(self).records() == old(self).records(),
    {
        self.put_setting_bool(SETTING_TDS_MONITORING, val)
    }

    pub fn get_tds_monitoring(&mut self) -> (r: Result<bool, StoreError>)
        ensures
            r matches Ok(b) ==> b == Store::spec_get_bool(
                old(self).settings(),
                SETTING_TDS_MONITORING@,
                false,
            ),
            r is Ok && old(self).settings().contains_key(SETTING_TDS_MONITORING@) ==> final(self).settings()
                == old(self).settings(),
            r is Ok && !old(self).settings().contains_key(SETTING_TDS_MONITORING@) ==> final(self).settings()
                == old(self).settings().insert(SETTING_TDS_MONITORING@, spec_enc_bool(false)),
            final(self).records() == old(self).records(),
    {
        self.get_setting_bool(SETTING_TDS_MONITORING, false)
    }

    /// Enable or disable acidity monitoring.
    pub fn set_ph_monitoring(&mut self, val: bool) -> (r: Result<(), StoreError>)
        ensures
            r is Ok ==> final(self).settings() == old(self).settings().insert(
                SETTING_PH_MONITORING@,
                spec_enc_bool(val),
            ),
            final(self).records() == old(self).records(),
    {
        self.put_setting_bool(SETTING_PH_MONITORING, val)
    }

    pub fn get_ph_monitoring(&mut self) -> (r: Result<bool, StoreError>)
        ensures
            r matches Ok(b) ==> b == Store::spec_get_bool(
                old(self).settings(),
                SETTING_PH_MONITORING@,
                false,
            ),
            r is Ok && old(self).settings().contains_key(SETTING_PH_MONITORING@) ==> final(self).settings()
                == old(self).settings(),
            r is Ok && !old(self).settings().contains_key(SETTING_PH_MONITORING@) ==> final(self).settings()
                == old(self).settings().insert(SETTING_PH_MONITORING@, spec_enc_bool(false)),
            final(self).records() == old(self).records(),
    {
        self.get_setting_bool(SETTING_PH_MONITORING, false)
    }

    /// Dissolved-solids threshold, in thousandths of a PPM.
    pub fn set_tds_1_thresh(&mut self, val: i64) -> (r: Result<(), StoreError>)
        ensures
            r is Ok ==> final(self).settings() == old(self).settings().insert(
                SETTING_TDS_1@,
                spec_enc_i64(val),
            ),
            final(self).records() == old(self).records(),
    {
        self.put_setting_i64(SETTING_TDS_1, val)
    }

    pub fn get_tds_1_thresh(&mut self) -> (r: Result<i64, StoreError>)
        ensures
            r matches Ok(v) ==> v == Store::spec_get_i64(
                old(self).settings(),
                SETTING_TDS_1@,
                SETTING_TDS_1_DEFAULT,
            ),
            r is Ok && old(self).settings().contains_key(SETTING_TDS_1@) ==> final(self).settings()
                == old(self).settings(),
            r is Ok && !old(self).settings().contains_key(SETTING_TDS_1@) ==> final(self).settings()
                == old(self).settings().insert(SETTING_TDS_1@, spec_enc_i64(SETTING_TDS_1_DEFAULT)),
            final(self).records() == old(self).records(),
    {
        self.get_setting_i64(SETTING_TDS_1, SETTING_TDS_1_DEFAULT)
    }

    /// Acidity threshold, in thousandths of a pH unit.
    pub fn set_ph_1_thresh(&mut self, val: i64) -> (r: Result<(), StoreError>)
        ensures
            r is Ok ==> final(self).settings() == old(self).settings().insert(
                SETTING_PH_1@,
                spec_enc_i64(val),
            ),
            final(self).records() == old(self).records(),
    {
        self.put_setting_i64(SETTING_PH_1, val)
    }

    pub fn get_ph_1_thresh(&mut self) -> (r: Result<i64, StoreError>)
        ensures
            r matches Ok(v) ==> v == Store::spec_get_i64(
                old(self).settings(),
                SETTING_PH_1@,
                SETTING_PH_1_DEFAULT,
            ),
            r is Ok && old(self).settings().contains_key(SETTING_PH_1@) ==> final(self).settings()
                == old(self).settings(),
            r is Ok && !old(self).settings().contains_key(SETTING_PH_1@) ==> final(self).settings()
                == old(self).settings().insert(SETTING_PH_1@, spec_enc_i64(SETTING_PH_1_DEFAULT)),
            final(self).records() == old(self).records(),
    {
        self.get_setting_i64(SETTING_PH_1, SETTING_PH_1_DEFAULT)
    }

    /// Osmosis-valve pulse length, in seconds.
    pub fn set_osmoseur_pulse_duration(&mut self, val: u64) -> (r: Result<(), StoreError>)
        ensures
            r is Ok ==> final(self).settings() == old(self).settings().insert(
                SETTING_OSMOSEUR_PULSE_DURATION@,
                spec_enc_u64(val),
            ),
            final(self).records() == old(self).records(),
    {
        self.put_setting_u64(SETTING_OSMOSEUR_PULSE_DURATION, val)
    }

    pub fn get_osmoseur_pulse_duration(&mut self) -> (r: Result<u64, StoreError>)
        ensures
            r matches Ok(v) ==> v == Store::spec_get_u64(
                old(self).settings(),
                SETTING_OSMOSEUR_PULSE_DURATION@,
                SETTING_OSMOSEUR_PULSE_DURATION_DEFAULT,
            ),
            r is Ok && old(self).settings().contains_key(SETTING_OSMOSEUR_PULSE_DURATION@) ==> final(self).settings()
                == old(self).settings(),
            r is Ok && !old(self).settings().contains_key(SETTING_OSMOSEUR_PULSE_DURATION@) ==> final(self).settings()
                == old(self).settings().insert(SETTING_OSMOSEUR_PULSE_DURATION@, spec_enc_u64(SETTING_OSMOSEUR_PULSE_DURATION_DEFAULT)),
            final(self).records() == old(self).records(),
    {
        self.get_setting_u64(
            SETTING_OSMOSEUR_PULSE_DURATION,
            SETTING_OSMOSEUR_PULSE_DURATION_DEFAULT,
        )
    }

    /// Least gap between osmosis-valve pulses, in seconds.
    pub fn set_osmoseur_pulse_min_interval(&mut self, val: u64) -> (r: Result<(), StoreError>)
        ensures
            r is Ok ==> final(self).settings() == old(self).settings().insert(
                SETTING_OSMOSEUR_PULSE_MIN_INTERVAL@,
                spec_enc_u64(val),
            ),
            final(self).records() == old(self).records(),
    {
        self.put_setting_u64(SETTING_OSMOSEUR_PULSE_MIN_INTERVAL, val)
    }

    pub fn get_osmoseur_pulse_min_interval(&mut self) -> (r: Result<u64, StoreError>)
        ensures
            r matches Ok(v) ==> v == Store::spec_get_u64(
                old(self).settings(),
                SETTING_OSMOSEUR_PULSE_MIN_INTERVAL@,
                SETTING_OSMOSEUR_PULSE_MIN_INTERVAL_DEFAULT,
            ),
            r is Ok && old(self).settings().contains_key(SETTING_OSMOSEUR_PULSE_MIN_INTERVAL@) ==> final(self).settings()
                == old(self).settings(),
            r is Ok && !old(self).settings().contains_key(SETTING_OSMOSEUR_PULSE_MIN_INTERVAL@) ==> final(self).settings()
                == old(self).settings().insert(SETTING_OSMOSEUR_PULSE_MIN_INTERVAL@, spec_enc_u64(SETTING_OSMOSEUR_PULSE_MIN_INTERVAL_DEFAULT)),
            final(self).records() == old(self).records(),
    {
        self.get_setting_u64(
            SETTING_OSMOSEUR_PULSE_MIN_INTERVAL,
            SETTING_OSMOSEUR_PULSE_MIN_INTERVAL_DEFAULT,
        )
    }

    /// Dosing-pump pulse length, in seconds.
    pub fn set_ph_pulse_duration(&mut self, val: u64) -> (r: Result<(), StoreError>)
        ensures
            r is Ok ==> final(self).settings() == old(self).settings().insert(
                SETTING_PH_PULSE_DURATION@,
                spec_enc_u64(val),
            ),
            final(self).records() == old(self).records(),
    {
        self.put_setting_u64(SETTING_PH_PULSE_DURATION, val)
    }

    pub fn get_ph_pulse_duration(&mut self) -> (r: Result<u64, StoreError>)
        ensures
            r matches Ok(v) ==> v == Store::spec_get_u64(
                old(self).settings(),
                SETTING_PH_PULSE_DURATION@,
                SETTING_PH_PULSE_DURATION_DEFAULT,
            ),
            r is Ok && old(self).settings().contains_key(SETTING_PH_PULSE_DURATION@) ==> final(self).settings()
                == old(self).settings(),
            r is Ok && !old(self).settings().contains_key(SETTING_PH_PULSE_DURATION@) ==> final(self).settings()
                == old(self).settings().insert(SETTING_PH_PULSE_DURATION@, spec_enc_u64(SETTING_PH_PULSE_DURATION_DEFAULT)),
            final(self).records() == old(self).records(),
    {
        self.get_setting_u64(SETTING_PH_PULSE_DURATION, SETTING_PH_PULSE_DURATION_DEFAULT)
    }

    /// Least gap between dosing-pump pulses, in seconds.
    pub fn set_ph_pulse_min_interval(&mut self, val: u64) -> (r: Result<(), StoreError>)
        ensures
            r is Ok ==> final(self).settings() == old(self).settings().insert(
                SETTING_PH_PULSE_MIN_INTERVAL@,
                spec_enc_u64(val),
            ),
            final(self).records() == old(self).records(),
    {
        self.put_setting_u64(SETTING_PH_PULSE_MIN_INTERVAL, val)
    }

    pub fn get_ph_pulse_min_interval(&mut self) -> (r: Result<u64, StoreError>)
        ensures
            r matches Ok(v) ==> v == Store::spec_get_u64(
                old(self).settings(),
                SETTING_PH_PULSE_MIN_INTERVAL@,
                SETTING_PH_PULSE_MIN_INTERVAL_DEFAULT,
            ),
            r is Ok && old(self).settings().contains_key(SETTING_PH_PULSE_MIN_INTERVAL@) ==> final(self).settings()
                == old(self).settings(),
            r is Ok && !old(self).settings().contains_key(SETTING_PH_PULSE_MIN_INTERVAL@) ==> final(self).settings()
                == old(self).settings().insert(SETTING_PH_PULSE_MIN_INTERVAL@, spec_enc_u64(SETTING_PH_PULSE_MIN_INTERVAL_DEFAULT)),
            final(self).records() == old(self).records(),
    {
        self.get_setting_u64(SETTING_PH_PULSE_MIN_INTERVAL, SETTING_PH_PULSE_MIN_INTERVAL_DEFAULT)
    }

    /// Record one dissolved-solids reading under its timestamp, big-endian
    /// so that byte order follows time order. Best-effort: not flushed.
    pub fn insert_tds_1_metric(&mut self, when: u64, sample: i64) -> (r: Result<(), StoreError>)
        ensures
            r is Ok ==> final(self).records() == old(self).records().insert(
                spec_enc_u64(when),
                spec_enc_i64(sample),
            ),
            final(self).settings() == old(self).settings(),
    {
        let key = enc_u64(when);
        let val = enc_i64(sample);
        match tree_put_record(&mut self.tds_1_tree, key.as_slice(), val.as_slice()) {
            Ok(_) => Ok(()),
            Err(_) => Err(StoreError::Io),
        }
    }

    /// Read up to `limit` recorded readings whose timestamps lie before
    /// second `now`, newest first, into `buffer`. Every value handed out
    /// decodes a stored record.
    pub fn get_fresh_tds_1_metric(
        &mut self,
        buffer: &mut Vec<i64>,
        limit: usize,
        now: u64,
    ) -> (r: Result<(), StoreError>)
        ensures
            final(buffer)@.len() <= old(buffer)@.len() + limit,
            forall|i: int|
                old(buffer)@.len() <= i < final(buffer)@.len() ==> from_records(
                    old(self).records(),
                    #[trigger] final(buffer)@[i],
                ),
            final(self).settings() == old(self).settings(),
            final(self).records() == old(self).records(),
    {
        let mut key: Vec<u8> = enc_u64(now);
        let mut left: usize = limit;
        while left > 0
            invariant
                buffer@.len() + left <= old(buffer)@.len() + limit,
                old(buffer)@.len() <= buffer@.len(),
                forall|i: int|
                    old(buffer)@.len() <= i < buffer@.len() ==> from_records(
                        old(self).records(),
                        #[trigger] buffer@[i],
                    ),
                *self == *old(self),
            decreases left,
        {
            match tree_get_lt_record(&self.tds_1_tree, key.as_slice()) {
                Ok(Some((k, v))) => {
                    let ghost prev = buffer@;
                    buffer.push(dec_i64(&v, 0));
                    proof {
                        assert forall|i: int|
                            old(buffer)@.len() <= i < buffer@.len() implies from_records(
                            old(self).records(),
                            #[trigger] buffer@[i],
                        ) by {
                            if i < prev.len() {
                                assert(buffer@[i] == prev[i]);
                            } else {
                                assert(old(self).records().contains_key(k@));
                                assert(buffer@[i] == spec_dec_i64(old(self).records()[k@], 0));
                            }
                        }
                    }
                    key = k;
                },
                Ok(None) => {
                    return Ok(());
                },
                Err(_) => {
                    return Err(StoreError::Io);
                },
            }
            left = left - 1;
        }
        Ok(())
    }
}

} // verus!
