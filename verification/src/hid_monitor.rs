//! Device scanner and report model: matching a vendor id and a set of
//! product ids against the attached HID devices, rate-limited by a cooldown,
//! and recognizing the trigger signature in raw reports.

use vstd::prelude::*;
use vstd::slice::slice_index_get;
use vstd::slice::slice_subrange;
use vstd::slice::slice_to_vec;

verus! {

/// True when the leading bytes of `data` are exactly `pattern`; a sequence
/// shorter than the pattern never matches, extra trailing bytes are ignored.
pub open spec fn matches_prefix(data: Seq<u8>, pattern: Seq<u8>) -> bool {
    data.len() >= pattern.len() && data.subrange(0, pattern.len() as int) == pattern
}

/// The fixed binary signature of the AI button: report id `0x04` followed by
/// the payload prefix this device family emits on a press.
pub open spec fn trigger_signature() -> Seq<u8> {
    seq![0x04u8, 0xb2, 0x00, 0x00, 0x01, 0x00, 0x01, 0x00, 0x00, 0x00, 0x00, 0x00, 0x00, 0x00, 0x00, 0x00]
}

/// The payload prefix of the AI button signature, without the report id.
pub open spec fn ai_button_payload_prefix() -> Seq<u8> {
    seq![0xb2u8, 0x00, 0x00, 0x01, 0x00, 0x01, 0x00]
}

/// How long the scanner waits between two enumerations of the attached
/// devices, in milliseconds.
pub const SCAN_INTERVAL_MS: u64 = 5000;

/// Errors of the scanner and of the connection lifecycle.
#[derive(Debug, Clone, Copy, PartialEq, Eq, Structural)]
pub enum HidError {
    /// The HID subsystem could not be initialized or enumerated.
    ScanFailure,
    /// A device was found but could not be opened or configured.
    ConnectFailure,
    /// A previously good connection returned an error on read.
    ReadFailure,
}

/// Identity of one attached device, as the host enumerates it: the pair of
/// ids that the scanner matches against.
#[derive(Debug, Clone, Copy, PartialEq, Eq, Structural)]
pub struct DeviceId {
    pub vendor_id: u16,
    pub product_id: u16,
}

/// Scanner for the supported devices: one vendor id, several acceptable
/// product ids, and a cooldown timer that bounds how often the host's
/// device list is enumerated.
pub struct HidMonitor {
    pub vendor_id: u16,
    pub product_ids: Vec<u16>,
    /// Time of the last enumeration, in milliseconds; `None` before the
    /// first one, so that the first call may scan at once.
    pub last_scan_ms: Option<u64>,
    pub scan_interval_ms: u64,
}

impl HidMonitor {
    /// True when the cooldown since the last enumeration has elapsed at
    /// time `now_ms`, so a new scan may be issued.
    pub open spec fn scan_due(self, now_ms: u64) -> bool {
        match self.last_scan_ms {
            None => true,
            Some(t) => now_ms >= t + self.scan_interval_ms,
        }
    }

    /// True when the enumerated device `d` belongs to the family this
    /// scanner looks for: equal vendor id, product id among the accepted.
    pub open spec fn device_matches(self, d: DeviceId) -> bool {
        d.vendor_id == self.vendor_id && self.product_ids@.contains(d.product_id)
    }

    /// The first device of the list that matches, in enumeration order.
    pub open spec fn first_match(self, devices: Seq<DeviceId>) -> Option<DeviceId>
        decreases devices.len(),
    {
        if devices.len() == 0 {
            None
        } else if self.device_matches(devices[0]) {
            Some(devices[0])
        } else {
            self.first_match(devices.skip(1))
        }
    }

    pub fn new(vendor_id: u16, product_id: u16) -> (r: Result<HidMonitor, HidError>)
        ensures
            r matches Ok(m) && m.vendor_id == vendor_id && m.product_ids@ == seq![product_id]
                && m.last_scan_ms is None && m.scan_interval_ms == SCAN_INTERVAL_MS,
    {
        let mut product_ids: Vec<u16> = Vec::new();
        product_ids.push(product_id);
        assert(product_ids@ =~= seq![product_id]);
        Ok(HidMonitor {
            vendor_id,
            product_ids,
            last_scan_ms: None,
            scan_interval_ms: SCAN_INTERVAL_MS,
        })
    }

    pub fn new_multi_pid(vendor_id: u16, product_ids: Vec<u16>) -> (r: Result<HidMonitor, HidError>)
        ensures
            r matches Ok(m) && m.vendor_id == vendor_id && m.product_ids@ == product_ids@
                && m.last_scan_ms is None && m.scan_interval_ms == SCAN_INTERVAL_MS,
    {
        Ok(HidMonitor {
            vendor_id,
            product_ids,
            last_scan_ms: None,
            scan_interval_ms: SCAN_INTERVAL_MS,
        })
    }

    /// Gate in front of the host's device enumeration: grants a scan only
    /// when the cooldown has elapsed, and records the grant time. The caller
    /// enumerates the attached devices only when this returns true, so no
    /// two enumerations happen within one cooldown window.
    pub fn begin_scan(&mut self, now_ms: u64) -> (granted: bool)
        ensures
            granted == old(self).scan_due(now_ms),
            granted ==> *final(self) == (HidMonitor {
                last_scan_ms: Some(now_ms),
                ..*old(self)
            }),
            !granted ==> *final(self) == *old(self),
    {
        let due = match self.last_scan_ms {
            None => true,
            Some(t) => now_ms >= t && now_ms - t >= self.scan_interval_ms,
        };
        if due {
            self.last_scan_ms = Some(now_ms);
        }
        due
    }

    /// The first enumerated device that matches this scanner, if any.
    pub fn match_first(&self, devices: &Vec<DeviceId>) -> (r: Option<DeviceId>)
        ensures
            r == self.first_match(devices@),
    {
        let n = devices.len();
        let mut i: usize = 0;
        proof {
            assert(devices@.skip(0) =~= devices@);
        }
        while i < n
            invariant
                i <= n,
                n == devices@.len(),
                self.first_match(devices@) == self.first_match(devices@.skip(i as int)),
            decreases n - i,
        {
            let d = devices[i];
            if d.vendor_id == self.vendor_id && self.contains_pid(d.product_id) {
                proof {
                    assert(devices@.skip(i as int)[0] == d);
                }
                return Some(d);
            }
            proof {
                assert(devices@.skip(i as int).skip(1) =~= devices@.skip(i as int + 1));
                assert(devices@.skip(i as int)[0] == devices@[i as int]);
            }
            i = i + 1;
        }
        proof {
            assert(devices@.skip(n as int) =~= Seq::<DeviceId>::empty());
        }
        None
    }

    /// True when the leading bytes of `data` equal `expected_pattern`.
    pub fn validate_hid_data(&self, data: &[u8], expected_pattern: &[u8]) -> (r: bool)
        ensures
            r == matches_prefix(data@, expected_pattern@),
    {
        bytes_match_prefix(data, expected_pattern)
    }

    /// Splits a raw report into its id byte and its payload; an empty read
    /// yields no report. The capture time is stamped from the host clock and
    /// is not part of this contract.
    pub fn parse_hid_report(&self, data: &[u8]) -> (r: Option<HidReport>)
        ensures
            data@.len() == 0 ==> r is None,
            data@.len() > 0 ==> (r matches Some(rep) && rep.report_id == data@[0]
                && rep.payload@ == data@.skip(1)),
    {
        if data.is_empty() {
            return None;
        }
        let report_id = *slice_index_get(data, 0);
        let payload = slice_to_vec(slice_subrange(data, 1, data.len()));
        proof {
            assert(data@.subrange(1, data@.len() as int) =~= data@.skip(1));
        }
        Some(HidReport { report_id, payload, timestamp: now_millis() })
    }

    /// True exactly when the report is an AI button press: report id `0x04`
    /// and the payload beginning with the button's payload prefix.
    pub fn is_ai_button_press(&self, report: &HidReport) -> (r: bool)
        ensures
            r == (report.report_id == 0x04
                && matches_prefix(report.payload@, ai_button_payload_prefix())),
    {
        if report.report_id != 0x04 {
            return false;
        }
        let expected_payload = ai_button_pattern();
        bytes_match_prefix(report.payload.as_slice(), expected_payload.as_slice())
    }

    /// Whether `pid` is one of the accepted product ids.
    pub fn contains_pid(&self, pid: u16) -> (r: bool)
        ensures
            r == self.product_ids@.contains(pid),
    {
        let n = self.product_ids.len();
        let mut i: usize = 0;
        while i < n
            invariant
                i <= n,
                n == self.product_ids@.len(),
                forall|j: int| 0 <= j < i ==> self.product_ids@[j] != pid,
            decreases n - i,
        {
            if self.product_ids[i] == pid {
                return true;
            }
            i = i + 1;
        }
        false
    }
}

/// True when the leading bytes of `data` equal `pattern`, byte for byte.
pub fn bytes_match_prefix(data: &[u8], pattern: &[u8]) -> (r: bool)
    ensures
        r == matches_prefix(data@, pattern@),
{
    let plen = pattern.len();
    if data.len() < plen {
        return false;
    }
    let mut i: usize = 0;
    while i < plen
        invariant
            i <= plen,
            plen == pattern@.len(),
            data@.len() >= plen,
            forall|j: int| 0 <= j < i ==> data@[j] == pattern@[j],
        decreases plen - i,
    {
        if *slice_index_get(data, i) != *slice_index_get(pattern, i) {
            proof {
                assert(data@.subrange(0, plen as int)[i as int] == data@[i as int]);
            }
            return false;
        }
        i = i + 1;
    }
    proof {
        assert(data@.subrange(0, plen as int) =~= pattern@);
    }
    true
}

/// The trigger signature as bytes, for matching against raw reads.
pub fn trigger_pattern() -> (v: Vec<u8>)
    ensures
        v@ == trigger_signature(),
{
    let v: Vec<u8> = vec![
        0x04, 0xb2, 0x00, 0x00, 0x01, 0x00, 0x01, 0x00, 0x00, 0x00, 0x00, 0x00, 0x00, 0x00, 0x00,
        0x00,
    ];
    proof {
        assert(v@ =~= trigger_signature());
    }
    v
}

/// The AI button payload prefix as bytes.
pub fn ai_button_pattern() -> (v: Vec<u8>)
    ensures
        v@ == ai_button_payload_prefix(),
{
    let v: Vec<u8> = vec![0xb2, 0x00, 0x00, 0x01, 0x00, 0x01, 0x00];
    proof {
        assert(v@ =~= ai_button_payload_prefix());
    }
    v
}

/// True exactly when the first `size` bytes of a raw read begin with the
/// full trigger signature: a read shorter than the signature never fires,
/// and any difference in the leading bytes rejects the read.
pub fn is_trigger(data: &[u8], size: usize) -> (r: bool)
    requires
        size <= data@.len(),
    ensures
        r == matches_prefix(data@.subrange(0, size as int), trigger_signature()),
{
    let pattern = trigger_pattern();
    let window = slice_subrange(data, 0, size);
    bytes_match_prefix(window, pattern.as_slice())
}

/// Milliseconds of the host clock, used only to stamp captured reports.
/// Relies on std::time::SystemTime::now: the time elapsed since the Unix
/// epoch; nothing is assumed of the value.
#[verifier::external_body]
fn now_millis() -> u64 {
    match std::time::SystemTime::now().duration_since(std::time::UNIX_EPOCH) {
        Ok(d) => d.as_millis() as u64,
        Err(_) => 0,
    }
}

/// The ASCII code of the lower-case hex digit for a value below 16.
pub open spec fn hex_digit_ascii(n: u8) -> u8 {
    if n < 10 {
        (48 + n) as u8
    } else {
        (87 + n) as u8
    }
}

/// The ASCII codes of the lower-case hex rendering of `bytes`: two digits
/// per byte, high nibble first, no separators.
pub open spec fn hex_ascii_of(bytes: Seq<u8>) -> Seq<u8>
    decreases bytes.len(),
{
    if bytes.len() == 0 {
        Seq::empty()
    } else {
        seq![hex_digit_ascii(bytes[0] / 16), hex_digit_ascii(bytes[0] % 16)] + hex_ascii_of(
            bytes.skip(1),
        )
    }
}

/// The lower-case hex rendering of `bytes` as characters.
pub open spec fn hex_of(bytes: Seq<u8>) -> Seq<char> {
    hex_ascii_of(bytes).map(|i: int, b: u8| b as char)
}

/// Hex rendering distributes over concatenation.
proof fn lemma_hex_ascii_of_concat(a: Seq<u8>, b: Seq<u8>)
    ensures
        hex_ascii_of(a + b) == hex_ascii_of(a) + hex_ascii_of(b),
    decreases a.len(),
{
    if a.len() == 0 {
        assert(a + b =~= b);
        assert(hex_ascii_of(a) + hex_ascii_of(b) =~= hex_ascii_of(b));
    } else {
        lemma_hex_ascii_of_concat(a.skip(1), b);
        assert((a + b).skip(1) =~= a.skip(1) + b);
        assert((a + b)[0] == a[0]);
        assert(hex_ascii_of(a + b) =~= hex_ascii_of(a) + hex_ascii_of(b));
    }
}

/// The lower-case hex digit byte for a value below 16.
fn hex_digit(n: u8) -> (b: u8)
    requires
        n < 16,
    ensures
        b == hex_digit_ascii(n),
{
    if n < 10 {
        48 + n
    } else {
        87 + n
    }
}

/// A `String` from ASCII bytes, character for character.
/// Relies on String::from_utf8: ASCII bytes are valid UTF-8 and decode to
/// the characters with the same code points.
#[verifier::external_body]
fn ascii_to_string(bytes: Vec<u8>) -> (r: String)
    requires
        forall|i: int| 0 <= i < bytes@.len() ==> bytes@[i] < 128,
    ensures
        r@.len() == bytes@.len(),
        forall|i: int| 0 <= i < bytes@.len() ==> r@[i] == bytes@[i] as char,
{
    String::from_utf8(bytes).unwrap_or_default()
}

/// One report read from the device: its id byte, its payload, and the
/// host-clock time of its capture in milliseconds.
#[derive(Debug, Clone)]
pub struct HidReport {
    pub report_id: u8,
    pub payload: Vec<u8>,
    pub timestamp: u64,
}

impl HidReport {
    /// The report as it came off the wire: id byte followed by the payload.
    pub open spec fn full_bytes(self) -> Seq<u8> {
        seq![self.report_id] + self.payload@
    }

    /// How old the report is at time `now_ms`, in milliseconds; zero when
    /// the clock appears to have gone backwards.
    pub fn age(&self, now_ms: u64) -> (r: u64)
        ensures
            r == if now_ms >= self.timestamp {
                (now_ms - self.timestamp) as int
            } else {
                0int
            },
    {
        if now_ms >= self.timestamp {
            now_ms - self.timestamp
        } else {
            0
        }
    }

    /// The whole report, id byte included, as lower-case hex digits.
    pub fn to_hex_string(&self) -> (r: String)
        ensures
            r@ == hex_of(self.full_bytes()),
    {
        let mut hex_data: Vec<u8> = Vec::new();
        hex_data.push(self.report_id);
        hex_data.extend_from_slice(self.payload.as_slice());
        proof {
            assert(hex_data@ =~= self.full_bytes());
        }
        let n = hex_data.len();
        let mut acc: Vec<u8> = Vec::new();
        let mut i: usize = 0;
        proof {
            assert(hex_data@.take(0) =~= Seq::<u8>::empty());
        }
        while i < n
            invariant
                i <= n,
                n == hex_data@.len(),
                acc@ == hex_ascii_of(hex_data@.take(i as int)),
                forall|j: int| 0 <= j < acc@.len() ==> acc@[j] < 128,
            decreases n - i,
        {
            let b = hex_data[i];
            let hi = hex_digit(b / 16);
            let lo = hex_digit(b % 16);
            acc.push(hi);
            acc.push(lo);
            proof {
                let prefix = hex_data@.take(i as int);
                let one = seq![b];
                lemma_hex_ascii_of_concat(prefix, one);
                assert(one[0] == b);
                assert(one.skip(1) =~= Seq::<u8>::empty());
                assert(hex_ascii_of(one.skip(1)) =~= Seq::<u8>::empty());
                assert(hex_ascii_of(one) =~= seq![
                    hex_digit_ascii(b / 16),
                    hex_digit_ascii(b % 16),
                ] + Seq::<u8>::empty());
                assert(hex_ascii_of(one) =~= seq![hex_digit_ascii(b / 16), hex_digit_ascii(b % 16)]);
                assert(hex_data@.take(i + 1) =~= prefix + one);
                assert(acc@ =~= hex_ascii_of(prefix) + hex_ascii_of(one));
            }
            i = i + 1;
        }
        proof {
            assert(hex_data@.take(n as int) =~= hex_data@);
        }
        let r = ascii_to_string(acc);
        proof {
            assert(r@ =~= hex_of(self.full_bytes()));
        }
        r
    }
}

/// Once a scan was granted at time `t0`, no further scan is due anywhere in
/// the cooldown window that starts there: the host's device enumeration is
/// never entered twice within one window.
pub proof fn lemma_scan_cooldown(m: HidMonitor, t0: u64, t: u64)
    requires
        m.last_scan_ms == Some(t0),
        t0 <= t < t0 + m.scan_interval_ms,
    ensures
        !m.scan_due(t),
{
}

/// The two faces of trigger recognition agree: a raw read that begins with
/// the full trigger signature always parses to a report with id `0x04`
/// whose payload begins with the AI button's payload prefix, so the report
/// is recognized as a button press.
pub proof fn lemma_trigger_is_button_press(data: Seq<u8>)
    requires
        matches_prefix(data, trigger_signature()),
    ensures
        data.len() > 0,
        data[0] == 0x04,
        matches_prefix(data.skip(1), ai_button_payload_prefix()),
{
    let lead = data.subrange(0, 16);
    assert(lead[0] == data[0]);
    assert forall|j: int| 0 <= j < 7 implies data.skip(1).subrange(0, 7)[j]
        == ai_button_payload_prefix()[j] by {
        assert(lead[j + 1] == data[j + 1]);
    }
    assert(data.skip(1).subrange(0, 7) =~= ai_button_payload_prefix());
}

} // verus!
