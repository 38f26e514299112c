//! The Sign-In-With-Solana request: a builder whose setters validate each
//! field at the moment it is set.

use vstd::prelude::*;
use vstd::string::*;

use crate::cluster::Cluster;
use crate::errors::{WalletError, WalletResult};
use crate::random::RandomBytes;
use crate::time::{to_iso860, MAX_TIMESTAMP_MILLIS};
use crate::utils::{
    base58_decode, blake3_hex, blake3_hex_of, decode_base58, is_base58_char, is_lower_hex_digit,
};

verus! {

/// The mathematical value of a [`SigninInput`]: each field as the parser and
/// formatter see it. All fields but `resources` are optional.
#[verifier::ext_equal]
pub struct SigninData {
    /// Relying-party host requesting the sign-in.
    pub domain: Option<Seq<char>>,
    /// Base58 address of the signing account.
    pub address: Option<Seq<char>>,
    /// Single-line human-readable statement.
    pub statement: Option<Seq<char>>,
    /// Requesting origin.
    pub uri: Option<Seq<char>>,
    /// Protocol version tag.
    pub version: Option<Seq<char>>,
    /// Target cluster.
    pub chain_id: Option<Cluster>,
    /// Replay-prevention nonce; the setters require at least 8 characters.
    pub nonce: Option<Seq<char>>,
    /// When the request was issued, in milliseconds since the Unix epoch.
    pub issued_at: Option<u64>,
    /// When the request expires.
    pub expiration_time: Option<u64>,
    /// When the request becomes valid.
    pub not_before: Option<u64>,
    /// Caller-chosen request identifier.
    pub request_id: Option<Seq<char>>,
    /// Resource URIs, order-preserving, duplicates allowed.
    pub resources: Seq<Seq<char>>,
}

impl SigninData {
    /// The value of a freshly created request: every field absent.
    pub open spec fn empty() -> SigninData {
        SigninData {
            domain: None,
            address: None,
            statement: None,
            uri: None,
            version: None,
            chain_id: None,
            nonce: None,
            issued_at: None,
            expiration_time: None,
            not_before: None,
            request_id: None,
            resources: Seq::empty(),
        }
    }

    /// Validity: every stored timestamp is serializable as RFC3339. Every
    /// constructor establishes this and every setter and the parser preserve
    /// it.
    pub open spec fn wf(self) -> bool {
        &&& (self.issued_at matches Some(t) ==> t <= MAX_TIMESTAMP_MILLIS)
        &&& (self.expiration_time matches Some(t) ==> t <= MAX_TIMESTAMP_MILLIS)
        &&& (self.not_before matches Some(t) ==> t <= MAX_TIMESTAMP_MILLIS)
    }
}

/// What setting the expiration time to `t` at current time `now` does to a
/// request: it fails with [`WalletError::ExpiryBeforeIssued`] if an issued-at
/// time is set and exceeds `t`, with [`WalletError::ExpirationInPast`] if
/// `now` exceeds `t`, and otherwise stores `t`.
pub open spec fn expiry_outcome(data: SigninData, now: u64, t: u64) -> Result<
    SigninData,
    WalletError,
> {
    if data.issued_at matches Some(ia) && ia > t {
        Err(WalletError::ExpiryBeforeIssued)
    } else if now > t {
        Err(WalletError::ExpirationInPast)
    } else {
        Ok(SigninData { expiration_time: Some(t), ..data })
    }
}

/// What setting the not-before time to `t` at current time `now` does to a
/// request: it fails with [`WalletError::NotBeforeBeforeIssued`] if an
/// issued-at time is set and exceeds `t`, with
/// [`WalletError::NotBeforeInPast`] if `now` exceeds `t`, with
/// [`WalletError::NotBeforeAfterExpiry`] if an expiration time is set and `t`
/// exceeds it, and otherwise stores `t`.
pub open spec fn not_before_outcome(data: SigninData, now: u64, t: u64) -> Result<
    SigninData,
    WalletError,
> {
    if data.issued_at matches Some(ia) && ia > t {
        Err(WalletError::NotBeforeBeforeIssued)
    } else if now > t {
        Err(WalletError::NotBeforeInPast)
    } else if data.expiration_time matches Some(et) && t > et {
        Err(WalletError::NotBeforeAfterExpiry)
    } else {
        Ok(SigninData { not_before: Some(t), ..data })
    }
}

/// The instant a relative offset names: the issued-at time if one is set,
/// else the current time, plus the offset; `None` where the sum leaves the
/// representable range.
pub open spec fn relative_instant(data: SigninData, now: u64, offset_millis: u64) -> Option<u64> {
    let base: int = match data.issued_at {
        Some(ia) => ia as int,
        None => now as int,
    };
    if base + offset_millis <= MAX_TIMESTAMP_MILLIS {
        Some((base + offset_millis) as u64)
    } else {
        None
    }
}

/// A Sign-In-With-Solana request under construction. Created empty, mutated
/// through setters that validate eagerly, then rendered, parsed back and
/// compared by the message functions.
///
/// The fields are plain data and open to callers; the setters are the
/// validated way to fill them.
#[derive(Debug, Clone, Hash)]
pub struct SigninInput {
    /// Relying-party host requesting the sign-in.
    pub domain: Option<String>,
    pub address: Option<String>,
    pub statement: Option<String>,
    pub uri: Option<String>,
    pub version: Option<String>,
    pub chain_id: Option<Cluster>,
    pub nonce: Option<String>,
    pub issued_at: Option<u64>,
    pub expiration_time: Option<u64>,
    pub not_before: Option<u64>,
    pub request_id: Option<String>,
    pub resources: Vec<String>,
}

impl View for SigninInput {
    type V = SigninData;

    open spec fn view(&self) -> SigninData {
        SigninData {
            domain: match self.domain {
                Some(ref s) => Some(s@),
                None => None,
            },
            address: match self.address {
                Some(ref s) => Some(s@),
                None => None,
            },
            statement: match self.statement {
                Some(ref s) => Some(s@),
                None => None,
            },
            uri: match self.uri {
                Some(ref s) => Some(s@),
                None => None,
            },
            version: match self.version {
                Some(ref s) => Some(s@),
                None => None,
            },
            chain_id: self.chain_id,
            nonce: match self.nonce {
                Some(ref s) => Some(s@),
                None => None,
            },
            issued_at: self.issued_at,
            expiration_time: self.expiration_time,
            not_before: self.not_before,
            request_id: match self.request_id {
                Some(ref s) => Some(s@),
                None => None,
            },
            resources: self.resources.deep_view(),
        }
    }
}

impl SigninInput {
    /// A fresh request with every field absent.
    pub fn new() -> (r: Self)
        ensures
            r@ == SigninData::empty(),
    {
        let r = SigninInput {
            domain: None,
            address: None,
            statement: None,
            uri: None,
            version: None,
            chain_id: None,
            nonce: None,
            issued_at: None,
            expiration_time: None,
            not_before: None,
            request_id: None,
            resources: Vec::new(),
        };
        proof {
            assert(r@.resources =~= Seq::<Seq<char>>::empty());
        }
        r
    }

    /// The wall clock, in milliseconds since the Unix epoch, read through
    /// the system time source.
    pub fn time_now() -> u64 {
        crate::time::time_now()
    }

    /// The RFC3339 rendering, with millisecond fraction, of an instant given
    /// as milliseconds since the Unix epoch.
    pub fn to_iso860(timestamp_millis: u64) -> (r: String)
        requires
            timestamp_millis <= MAX_TIMESTAMP_MILLIS,
        ensures
            r@ == crate::time::rfc3339_millis(timestamp_millis),
    {
        crate::time::to_iso860(timestamp_millis)
    }

    /// Sets the relying-party domain.
    pub fn set_custom_domain(&mut self, domain: &str)
        ensures
            final(self)@ == (SigninData { domain: Some(domain@), ..old(self)@ }),
    {
        self.domain = Some(domain.to_owned());
    }

    /// Sets the account address; fails with
    /// [`WalletError::InvalidBase58Address`] unless the string is base58 and
    /// decodes to exactly 32 bytes.
    pub fn set_address(&mut self, address: &str) -> (r: WalletResult<()>)
        ensures
            match r {
                Ok(()) => (base58_decode(address@) matches Some(b) && b.len() == 32)
                    && (forall|i: int|
                    0 <= i < address@.len() ==> is_base58_char(#[trigger] address@[i]))
                    && final(self)@ == (SigninData { address: Some(address@), ..old(self)@ }),
                Err(e) => e == WalletError::InvalidBase58Address && final(self)@ == old(self)@
                    && !(base58_decode(address@) matches Some(b) && b.len() == 32),
            },
    {
        match decode_base58(address) {
            Some(bytes) => {
                if bytes.len() == 32 {
                    self.address = Some(address.to_owned());
                    Ok(())
                } else {
                    Err(WalletError::InvalidBase58Address)
                }
            },
            None => Err(WalletError::InvalidBase58Address),
        }
    }

    /// Sets the human-readable statement.
    pub fn set_statement(&mut self, statement: &str)
        ensures
            final(self)@ == (SigninData { statement: Some(statement@), ..old(self)@ }),
    {
        self.statement = Some(statement.to_owned());
    }

    /// Sets the requesting origin.
    pub fn set_uri(&mut self, uri: &str)
        ensures
            final(self)@ == (SigninData { uri: Some(uri@), ..old(self)@ }),
    {
        self.uri = Some(uri.to_owned());
    }

    /// Sets the protocol version tag.
    pub fn set_version(&mut self, version: &str)
        ensures
            final(self)@ == (SigninData { version: Some(version@), ..old(self)@ }),
    {
        self.version = Some(version.to_owned());
    }

    /// Sets the target cluster.
    pub fn set_chain_id(&mut self, cluster: Cluster)
        ensures
            final(self)@ == (SigninData { chain_id: Some(cluster), ..old(self)@ }),
    {
        self.chain_id = Some(cluster);
    }

    /// Draws 32 random bytes, stores the lowercase hex digest of their hash
    /// as the nonce (64 characters), and zeroes the random buffer before
    /// returning.
    pub fn set_nonce(&mut self)
        ensures
            final(self)@.nonce matches Some(n) && n.len() == 64 && (forall|i: int|
                0 <= i < n.len() ==> is_lower_hex_digit(#[trigger] n[i])),
            exists|b: Seq<u8>| b.len() == 32 && final(self)@.nonce == Some(blake3_hex_of(b)),
            final(self)@ == (SigninData { nonce: final(self)@.nonce, ..old(self)@ }),
    {
        let mut buffer = RandomBytes::<32>::generate();
        let ghost drawn = buffer@;
        self.nonce = Some(blake3_hex(buffer.expose()));
        proof {
            assert(self@.nonce == Some(blake3_hex_of(drawn)));
        }
        buffer.zeroize();
    }

    /// Sets a caller-chosen nonce; fails with [`WalletError::NonceTooShort`]
    /// if and only if it has fewer than 8 characters.
    pub fn custom_nonce(&mut self, nonce: &str) -> (r: WalletResult<()>)
        ensures
            match r {
                Ok(()) => nonce@.len() >= 8
                    && final(self)@ == (SigninData { nonce: Some(nonce@), ..old(self)@ }),
                Err(e) => e == WalletError::NonceTooShort && nonce@.len() < 8
                    && final(self)@ == old(self)@,
            },
    {
        if nonce.unicode_len() < 8 {
            return Err(WalletError::NonceTooShort);
        }
        self.nonce = Some(nonce.to_owned());
        Ok(())
    }

    /// Records `now` as the time the request was issued.
    pub fn set_issued_at(&mut self, now: u64) -> (r: WalletResult<()>)
        requires
            now <= MAX_TIMESTAMP_MILLIS,
        ensures
            r is Ok,
            final(self)@ == (SigninData { issued_at: Some(now), ..old(self)@ }),
    {
        self.issued_at = Some(now);
        Ok(())
    }

    /// Sets the expiration to an absolute instant, validating it as
    /// [`expiry_outcome`] states.
    pub fn set_expiration_time(&mut self, now: u64, expiration_time: u64) -> (r: WalletResult<()>)
        requires
            expiration_time <= MAX_TIMESTAMP_MILLIS,
        ensures
            match expiry_outcome(old(self)@, now, expiration_time) {
                Ok(d) => r is Ok && final(self)@ == d,
                Err(e) => r matches Err(got) && got == e && final(self)@ == old(self)@,
            },
    {
        if let Some(issued_at) = self.issued_at {
            if issued_at > expiration_time {
                return Err(WalletError::ExpiryBeforeIssued);
            }
        }
        if now > expiration_time {
            return Err(WalletError::ExpirationInPast);
        }
        self.expiration_time = Some(expiration_time);
        Ok(())
    }

    /// Sets the expiration `offset` milliseconds after the issued-at time,
    /// or after `now` where none is set; fails with
    /// [`WalletError::TimeOverflow`] where the sum leaves the representable
    /// range, else validates as [`expiry_outcome`] states.
    pub fn set_expiration_time_millis(&mut self, now: u64, offset_millis: u64) -> (r: WalletResult<
        (),
    >)
        requires
            old(self)@.wf(),
            now <= MAX_TIMESTAMP_MILLIS,
        ensures
            match relative_instant(old(self)@, now, offset_millis) {
                None => r matches Err(e) && e == WalletError::TimeOverflow && final(self)@ == old(self)@,
                Some(t) => match expiry_outcome(old(self)@, now, t) {
                    Ok(d) => r is Ok && final(self)@ == d,
                    Err(e) => r matches Err(got) && got == e && final(self)@ == old(self)@,
                },
            },
    {
        let base = match self.issued_at {
            Some(issued_at) => issued_at,
            None => now,
        };
        if offset_millis > MAX_TIMESTAMP_MILLIS - base {
            return Err(WalletError::TimeOverflow);
        }
        self.set_expiration_time(now, base + offset_millis)
    }

    /// Sets the expiration `offset` seconds after the issued-at time, or
    /// after `now` where none is set; otherwise as
    /// [`Self::set_expiration_time_millis`].
    pub fn set_expiration_time_seconds(&mut self, now: u64, offset_seconds: u64) -> (r:
        WalletResult<()>)
        requires
            old(self)@.wf(),
            now <= MAX_TIMESTAMP_MILLIS,
        ensures
            offset_seconds * 1000 > u64::MAX ==> (r matches Err(e) && e == WalletError::TimeOverflow
                && final(self)@ == old(self)@),
            offset_seconds * 1000 <= u64::MAX ==> match relative_instant(
                old(self)@,
                now,
                (offset_seconds * 1000) as u64,
            ) {
                None => r matches Err(e) && e == WalletError::TimeOverflow && final(self)@ == old(self)@,
                Some(t) => match expiry_outcome(old(self)@, now, t) {
                    Ok(d) => r is Ok && final(self)@ == d,
                    Err(e) => r matches Err(got) && got == e && final(self)@ == old(self)@,
                },
            },
    {
        if offset_seconds > u64::MAX / 1000 {
            proof {
                assert(offset_seconds * 1000 > u64::MAX) by (nonlinear_arith)
                    requires
                        offset_seconds > u64::MAX / 1000,
                ;
            }
            return Err(WalletError::TimeOverflow);
        }
        proof {
            assert(offset_seconds * 1000 <= u64::MAX) by (nonlinear_arith)
                requires
                    offset_seconds <= u64::MAX / 1000,
            ;
        }
        self.set_expiration_time_millis(now, offset_seconds * 1000)
    }

    /// Sets the not-before time to an absolute instant, validating it as
    /// [`not_before_outcome`] states.
    pub fn set_not_before_time(&mut self, now: u64, not_before: u64) -> (r: WalletResult<()>)
        requires
            not_before <= MAX_TIMESTAMP_MILLIS,
        ensures
            match not_before_outcome(old(self)@, now, not_before) {
                Ok(d) => r is Ok && final(self)@ == d,
                Err(e) => r matches Err(got) && got == e && final(self)@ == old(self)@,
            },
    {
        if let Some(issued_at) = self.issued_at {
            if issued_at > not_before {
                return Err(WalletError::NotBeforeBeforeIssued);
            }
        }
        if now > not_before {
            return Err(WalletError::NotBeforeInPast);
        }
        if let Some(expiration_time) = self.expiration_time {
            if not_before > expiration_time {
                return Err(WalletError::NotBeforeAfterExpiry);
            }
        }
        self.not_before = Some(not_before);
        Ok(())
    }

    /// Sets the not-before time `offset` milliseconds after the issued-at
    /// time, or after `now` where none is set; fails with
    /// [`WalletError::TimeOverflow`] where the sum leaves the representable
    /// range, else validates as [`not_before_outcome`] states.
    pub fn set_not_before_time_millis(&mut self, now: u64, offset_millis: u64) -> (r: WalletResult<
        (),
    >)
        requires
            old(self)@.wf(),
            now <= MAX_TIMESTAMP_MILLIS,
        ensures
            match relative_instant(old(self)@, now, offset_millis) {
                None => r matches Err(e) && e == WalletError::TimeOverflow && final(self)@ == old(self)@,
                Some(t) => match not_before_outcome(old(self)@, now, t) {
                    Ok(d) => r is Ok && final(self)@ == d,
                    Err(e) => r matches Err(got) && got == e && final(self)@ == old(self)@,
                },
            },
    {
        let base = match self.issued_at {
            Some(issued_at) => issued_at,
            None => now,
        };
        if offset_millis > MAX_TIMESTAMP_MILLIS - base {
            return Err(WalletError::TimeOverflow);
        }
        self.set_not_before_time(now, base + offset_millis)
    }

    /// Sets the not-before time `offset` seconds after the issued-at time,
    /// or after `now` where none is set; otherwise as
    /// [`Self::set_not_before_time_millis`].
    pub fn set_not_before_time_seconds(&mut self, now: u64, offset_seconds: u64) -> (r:
        WalletResult<()>)
        requires
            old(self)@.wf(),
            now <= MAX_TIMESTAMP_MILLIS,
        ensures
            offset_seconds * 1000 > u64::MAX ==> (r matches Err(e) && e == WalletError::TimeOverflow
                && final(self)@ == old(self)@),
            offset_seconds * 1000 <= u64::MAX ==> match relative_instant(
                old(self)@,
                now,
                (offset_seconds * 1000) as u64,
            ) {
                None => r matches Err(e) && e == WalletError::TimeOverflow && final(self)@ == old(self)@,
                Some(t) => match not_before_outcome(old(self)@, now, t) {
                    Ok(d) => r is Ok && final(self)@ == d,
                    Err(e) => r matches Err(got) && got == e && final(self)@ == old(self)@,
                },
            },
    {
        if offset_seconds > u64::MAX / 1000 {
            proof {
                assert(offset_seconds * 1000 > u64::MAX) by (nonlinear_arith)
                    requires
                        offset_seconds > u64::MAX / 1000,
                ;
            }
            return Err(WalletError::TimeOverflow);
        }
        proof {
            assert(offset_seconds * 1000 <= u64::MAX) by (nonlinear_arith)
                requires
                    offset_seconds <= u64::MAX / 1000,
            ;
        }
        self.set_not_before_time_millis(now, offset_seconds * 1000)
    }

    /// Sets the caller-chosen request identifier.
    pub fn set_request_id(&mut self, id: &str)
        ensures
            final(self)@ == (SigninData { request_id: Some(id@), ..old(self)@ }),
    {
        self.request_id = Some(id.to_owned());
    }

    /// Appends one resource URI; order is preserved and duplicates are kept.
    pub fn add_resource(&mut self, resource: &str)
        ensures
            final(self)@ == (SigninData {
                resources: old(self)@.resources.push(resource@),
                ..old(self)@
            }),
    {
        self.resources.push(resource.to_owned());
        proof {
            assert(self@.resources =~= old(self)@.resources.push(resource@));
        }
    }

    /// Appends several resource URIs in the given order.
    pub fn add_resources(&mut self, resources: &[&str])
        ensures
            final(self)@ == (SigninData {
                resources: old(self)@.resources + resources.deep_view(),
                ..old(self)@
            }),
    {
        let n = resources.len();
        let mut i: usize = 0;
        while i < n
            invariant
                i <= n,
                n == resources.len(),
                self@ == (SigninData {
                    resources: old(self)@.resources + resources.deep_view().take(i as int),
                    ..old(self)@
                }),
            decreases n - i,
        {
            let ghost before = self@.resources;
            self.resources.push(resources[i].to_owned());
            proof {
                assert(self@.resources =~= before.push(resources.deep_view()[i as int]));
                assert(before.push(resources.deep_view()[i as int]) =~= old(self)@.resources
                    + resources.deep_view().take(i + 1));
            }
            i += 1;
        }
        proof {
            assert(resources.deep_view().take(n as int) =~= resources.deep_view());
        }
    }

    /// The `domain` field.
    pub fn domain(&self) -> (r: Option<&String>)
        ensures
            match r {
                Some(s) => self@.domain == Some(s@),
                None => self@.domain is None,
            },
    {
        self.domain.as_ref()
    }

    /// The `address` field.
    pub fn address(&self) -> (r: Option<&String>)
        ensures
            match r {
                Some(s) => self@.address == Some(s@),
                None => self@.address is None,
            },
    {
        self.address.as_ref()
    }

    /// The `statement` field.
    pub fn statement(&self) -> (r: Option<&String>)
        ensures
            match r {
                Some(s) => self@.statement == Some(s@),
                None => self@.statement is None,
            },
    {
        self.statement.as_ref()
    }

    /// The `uri` field.
    pub fn uri(&self) -> (r: Option<&String>)
        ensures
            match r {
                Some(s) => self@.uri == Some(s@),
                None => self@.uri is None,
            },
    {
        self.uri.as_ref()
    }

    /// The `version` field.
    pub fn version(&self) -> (r: Option<&String>)
        ensures
            match r {
                Some(s) => self@.version == Some(s@),
                None => self@.version is None,
            },
    {
        self.version.as_ref()
    }

    /// The `chain_id` field.
    pub fn chain_id(&self) -> (r: Option<&Cluster>)
        ensures
            match r {
                Some(c) => self@.chain_id == Some(*c),
                None => self@.chain_id is None,
            },
    {
        self.chain_id.as_ref()
    }

    /// The `nonce` field.
    pub fn nonce(&self) -> (r: Option<&String>)
        ensures
            match r {
                Some(s) => self@.nonce == Some(s@),
                None => self@.nonce is None,
            },
    {
        self.nonce.as_ref()
    }

    /// The `issued_at` field, in milliseconds since the Unix epoch.
    pub fn issued_at(&self) -> (r: Option<u64>)
        ensures
            r == self@.issued_at,
    {
        self.issued_at
    }

    /// The `expiration_time` field, in milliseconds since the Unix epoch.
    pub fn expiration_time(&self) -> (r: Option<u64>)
        ensures
            r == self@.expiration_time,
    {
        self.expiration_time
    }

    /// The `not_before` field, in milliseconds since the Unix epoch.
    pub fn not_before(&self) -> (r: Option<u64>)
        ensures
            r == self@.not_before,
    {
        self.not_before
    }

    /// The `issued_at` field rendered as RFC3339 with millisecond fraction.
    pub fn issued_at_iso8601(&self) -> (r: Option<String>)
        requires
            self@.wf(),
        ensures
            match r {
                Some(s) => self@.issued_at matches Some(t) && s@ == crate::time::rfc3339_millis(t),
                None => self@.issued_at is None,
            },
    {
        match self.issued_at {
            Some(t) => Some(to_iso860(t)),
            None => None,
        }
    }

    /// The `expiration_time` field rendered as RFC3339 with millisecond
    /// fraction.
    pub fn expiration_time_iso8601(&self) -> (r: Option<String>)
        requires
            self@.wf(),
        ensures
            match r {
                Some(s) => self@.expiration_time matches Some(t) && s@
                    == crate::time::rfc3339_millis(t),
                None => self@.expiration_time is None,
            },
    {
        match self.expiration_time {
            Some(t) => Some(to_iso860(t)),
            None => None,
        }
    }

    /// The `not_before` field rendered as RFC3339 with millisecond fraction.
    pub fn not_before_iso8601(&self) -> (r: Option<String>)
        requires
            self@.wf(),
        ensures
            match r {
                Some(s) => self@.not_before matches Some(t) && s@ == crate::time::rfc3339_millis(
                    t,
                ),
                None => self@.not_before is None,
            },
    {
        match self.not_before {
            Some(t) => Some(to_iso860(t)),
            None => None,
        }
    }

    /// The `request_id` field.
    pub fn request_id(&self) -> (r: Option<&String>)
        ensures
            match r {
                Some(s) => self@.request_id == Some(s@),
                None => self@.request_id is None,
            },
    {
        self.request_id.as_ref()
    }

    /// The `resources` field.
    pub fn resources(&self) -> (r: &[String])
        ensures
            r.deep_view() == self@.resources,
    {
        self.resources.as_slice()
    }
}

/// The two optional strings hold the same value.
fn eq_opt_string(a: &Option<String>, b: &Option<String>) -> (r: bool)
    ensures
        r == ((match a {
            Some(s) => Some(s@),
            None => None::<Seq<char>>,
        }) == (match b {
            Some(s) => Some(s@),
            None => None::<Seq<char>>,
        })),
{
    match (a, b) {
        (Some(x), Some(y)) => crate::strutil::str_same(x.as_str(), y.as_str()),
        (None, None) => true,
        _ => false,
    }
}

/// The two string lists hold the same values in the same order.
fn eq_vec_string(a: &Vec<String>, b: &Vec<String>) -> (r: bool)
    ensures
        r == (a.deep_view() == b.deep_view()),
{
    if a.len() != b.len() {
        proof {
            assert(a.deep_view().len() != b.deep_view().len());
        }
        return false;
    }
    let n = a.len();
    let mut i: usize = 0;
    while i < n
        invariant
            i <= n,
            n == a@.len(),
            n == b@.len(),
            forall|j: int| 0 <= j < i ==> a.deep_view()[j] == b.deep_view()[j],
        decreases n - i,
    {
        if !crate::strutil::str_same(a[i].as_str(), b[i].as_str()) {
            proof {
                assert(a.deep_view()[i as int] != b.deep_view()[i as int]);
            }
            return false;
        }
        i += 1;
    }
    proof {
        assert(a.deep_view() =~= b.deep_view());
    }
    true
}

impl PartialEq for SigninInput {
    /// Full structural equality: every field holds the same value.
    fn eq(&self, other: &Self) -> (r: bool) {
        let r = eq_opt_string(&self.domain, &other.domain) && eq_opt_string(
            &self.address,
            &other.address,
        ) && eq_opt_string(&self.statement, &other.statement) && eq_opt_string(
            &self.uri,
            &other.uri,
        ) && eq_opt_string(&self.version, &other.version) && self.chain_id == other.chain_id
            && eq_opt_string(&self.nonce, &other.nonce) && self.issued_at == other.issued_at
            && self.expiration_time == other.expiration_time && self.not_before
            == other.not_before && eq_opt_string(&self.request_id, &other.request_id)
            && eq_vec_string(&self.resources, &other.resources);
        proof {
            if r {
                assert(self@ =~= other@);
            }
        }
        r
    }
}

impl Eq for SigninInput {

}

impl Default for SigninInput {
    /// A fresh request with every field absent, as [`SigninInput::new`]
    /// returns.
    fn default() -> (r: Self)
        ensures
            r@ == SigninData::empty(),
    {
        SigninInput::new()
    }
}

impl vstd::std_specs::cmp::PartialEqSpecImpl for SigninInput {
    open spec fn obeys_eq_spec() -> bool {
        true
    }

    open spec fn eq_spec(&self, other: &Self) -> bool {
        self@ == other@
    }
}

} // verus!
