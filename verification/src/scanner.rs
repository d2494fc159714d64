//! The platform-scanner abstraction: a narrow port onto the host platform's
//! native scan machinery, and the verified driver that turns what the port
//! reports into a `ScanSnapshot`.
//!
//! A platform exposes five operations: resolving the well-known wireless
//! service identifier, requesting the service object, triggering a scan,
//! reading back the result collection, and extracting the four fields of one
//! record.  Everything else — sequencing, the all-or-nothing policy, order
//! preservation, and the projection into `Wifi` — lives here and is verified.

use vstd::prelude::*;
use crate::misc::channel_of;
use crate::wifi::Error;
use crate::wifi::ScanSnapshot;
use crate::wifi::Wifi;

verus! {

/// The abstract content of one record of a platform's result collection.
///
/// Each field is the outcome of one native field extraction: `Some(v)` when
/// the platform can deliver the value, `None` when that extraction fails.
pub ghost struct RecordModel {
    pub ssid: Option<Seq<char>>,
    pub bssid: Option<Seq<char>>,
    pub level: Option<i32>,
    pub frequency: Option<u32>,
}

/// One record as extracted from a platform: the concrete outcome of each of
/// the four field extractions, `None` where that extraction failed.
pub struct RawRecord {
    pub ssid: Option<String>,
    pub bssid: Option<String>,
    pub level: Option<i32>,
    pub frequency: Option<u32>,
}

/// The abstract content of one extracted record.
pub open spec fn raw_record_model(record: RawRecord) -> RecordModel {
    RecordModel {
        ssid: match record.ssid {
            Some(s) => Some(s@),
            None => None,
        },
        bssid: match record.bssid {
            Some(s) => Some(s@),
            None => None,
        },
        level: record.level,
        frequency: record.frequency,
    }
}

/// A record every field of which can be extracted.
pub open spec fn record_complete(record: RecordModel) -> bool {
    &&& record.ssid is Some
    &&& record.bssid is Some
    &&& record.level is Some
    &&& record.frequency is Some
}

/// `wifi` is exactly the projection of `record`: strings and level pass
/// through, the channel is derived from the frequency, security stays empty.
pub open spec fn wifi_matches(wifi: Wifi, record: RecordModel) -> bool {
    &&& record.ssid == Some(wifi.ssid@)
    &&& record.bssid == Some(wifi.mac@)
    &&& record.level == Some(wifi.signal_level)
    &&& record.frequency matches Some(f) && wifi.channel == channel_of(f as int)
    &&& wifi.security@.len() == 0
}

/// The platform boundary: what a host environment must expose so the scan
/// driver can run against it.  A port is a collaborator, implemented once per
/// platform; the driver never looks behind these five operations.
pub trait ScanPort {
    /// The records of the result collection this port's scan session
    /// observes.  The model is fixed for the lifetime of the port: one port
    /// value stands for one session against one collection.  A port written
    /// outside the verifier can leave the default, which models nothing; a
    /// verified port overrides it, and only then does the driver's contract
    /// say something about what the port delivers.
    open spec fn results(&self) -> Seq<RecordModel> {
        Seq::empty()
    }

    /// Resolve the platform's well-known wireless-service identifier.
    fn resolve_service_identifier(&mut self) -> (r: Result<(), Error>)
        ensures
            final(self).results() == old(self).results(),
    ;

    /// Request the wireless-service object for the resolved identifier.
    fn request_service(&mut self) -> (r: Result<(), Error>)
        ensures
            final(self).results() == old(self).results(),
    ;

    /// Ask the platform to start a scan.  The returned flag reports whether
    /// the request was accepted; a rejected request is not fatal, since the
    /// platform may still hold fresh results from an earlier scan.
    fn trigger_scan(&mut self) -> (r: Result<bool, Error>)
        ensures
            final(self).results() == old(self).results(),
    ;

    /// Read the platform's result collection and return how many records it
    /// holds.
    fn read_results(&mut self) -> (r: Result<usize, Error>)
        ensures
            final(self).results() == old(self).results(),
            r matches Ok(n) ==> n == old(self).results().len(),
    ;

    /// Extract the network name of one record.
    fn get_ssid(&mut self, index: usize) -> (r: Result<String, Error>)
        requires
            index < old(self).results().len(),
        ensures
            final(self).results() == old(self).results(),
            r matches Ok(s) ==> old(self).results()[index as int].ssid == Some(s@),
    ;

    /// Extract the BSSID of one record.
    fn get_bssid(&mut self, index: usize) -> (r: Result<String, Error>)
        requires
            index < old(self).results().len(),
        ensures
            final(self).results() == old(self).results(),
            r matches Ok(s) ==> old(self).results()[index as int].bssid == Some(s@),
    ;

    /// Extract the signal level of one record.
    fn get_level(&mut self, index: usize) -> (r: Result<i32, Error>)
        requires
            index < old(self).results().len(),
        ensures
            final(self).results() == old(self).results(),
            r matches Ok(v) ==> old(self).results()[index as int].level == Some(v),
    ;

    /// Extract the radio frequency (MHz) of one record.
    fn get_frequency(&mut self, index: usize) -> (r: Result<u32, Error>)
        requires
            index < old(self).results().len(),
        ensures
            final(self).results() == old(self).results(),
            r matches Ok(v) ==> old(self).results()[index as int].frequency == Some(v),
    ;
}

/// Runs one scan against `port` and assembles the snapshot.
///
/// On success the snapshot lists exactly the records the port's collection
/// held, in the platform's enumeration order, each projected into a `Wifi`;
/// in particular every record was completely extractable.  Any failing step —
/// service lookup, trigger, read, or any single field extraction — aborts the
/// whole call with that step's error, and no partial snapshot escapes.
pub fn scan_with<P: ScanPort>(port: &mut P) -> (r: Result<ScanSnapshot, Error>)
    ensures
        final(port).results() == old(port).results(),
        r matches Ok(networks) ==> {
            &&& networks@.len() == old(port).results().len()
            &&& forall|k: int|
                0 <= k < networks@.len() ==> #[trigger] wifi_matches(
                    networks@[k],
                    old(port).results()[k],
                )
            &&& forall|k: int|
                0 <= k < networks@.len() ==> record_complete(#[trigger] old(port).results()[k])
        },
        (exists|k: int|
            0 <= k < old(port).results().len() && !record_complete(
                #[trigger] old(port).results()[k],
            )) ==> r is Err,
{
    match port.resolve_service_identifier() {
        Ok(()) => {},
        Err(e) => {
            return Err(e);
        },
    }
    match port.request_service() {
        Ok(()) => {},
        Err(e) => {
            return Err(e);
        },
    }
    // The acceptance flag is observed but deliberately not acted on: the
    // platform may hold fresh results even when it declines a new scan.
    match port.trigger_scan() {
        Ok(_accepted) => {},
        Err(e) => {
            return Err(e);
        },
    }
    let count = match port.read_results() {
        Ok(n) => n,
        Err(e) => {
            return Err(e);
        },
    };
    let ghost records = port.results();
    let mut networks: Vec<Wifi> = Vec::new();
    let mut index: usize = 0;
    while index < count
        invariant
            count == records.len(),
            records == old(port).results(),
            port.results() == records,
            index <= count,
            networks@.len() == index as int,
            forall|k: int|
                0 <= k < index as int ==> #[trigger] wifi_matches(networks@[k], records[k]),
        decreases count - index,
    {
        let ssid = match port.get_ssid(index) {
            Ok(s) => s,
            Err(e) => {
                return Err(e);
            },
        };
        let mac = match port.get_bssid(index) {
            Ok(s) => s,
            Err(e) => {
                return Err(e);
            },
        };
        let signal_level = match port.get_level(index) {
            Ok(v) => v,
            Err(e) => {
                return Err(e);
            },
        };
        let frequency = match port.get_frequency(index) {
            Ok(v) => v,
            Err(e) => {
                return Err(e);
            },
        };
        networks.push(Wifi::from_fields(mac, ssid, signal_level, frequency));
        index = index + 1;
    }
    proof {
        assert forall|k: int| 0 <= k < networks@.len() implies record_complete(
            #[trigger] records[k],
        ) by {
            assert(wifi_matches(networks@[k], records[k]));
        }
    }
    Ok(networks)
}

/// Assembles a snapshot from records whose fields were already extracted.
///
/// This is the all-or-nothing policy in isolation: the call succeeds exactly
/// when every field of every record was extractable, and then the snapshot
/// projects the records one for one in their given order.  A single missing
/// field fails the whole collection and no partial snapshot is returned.
pub fn build_snapshot(records: &Vec<RawRecord>) -> (r: Result<ScanSnapshot, Error>)
    ensures
        r is Ok <==> (forall|k: int|
            0 <= k < records@.len() ==> record_complete(#[trigger] raw_record_model(records@[k]))),
        r matches Ok(networks) ==> {
            &&& networks@.len() == records@.len()
            &&& forall|k: int|
                0 <= k < networks@.len() ==> #[trigger] wifi_matches(
                    networks@[k],
                    raw_record_model(records@[k]),
                )
        },
{
    let mut networks: Vec<Wifi> = Vec::new();
    let mut index: usize = 0;
    while index < records.len()
        invariant
            index <= records@.len(),
            networks@.len() == index as int,
            forall|k: int|
                0 <= k < index as int ==> record_complete(#[trigger] raw_record_model(records@[k])),
            forall|k: int|
                0 <= k < index as int ==> #[trigger] wifi_matches(
                    networks@[k],
                    raw_record_model(records@[k]),
                ),
        decreases records@.len() - index,
    {
        let record = &records[index];
        let ssid = match &record.ssid {
            Some(s) => s.clone(),
            None => {
                proof {
                    assert(!record_complete(raw_record_model(records@[index as int])));
                }
                return Err(Error::JNIError("SSID extraction failed".to_string()));
            },
        };
        let mac = match &record.bssid {
            Some(s) => s.clone(),
            None => {
                proof {
                    assert(!record_complete(raw_record_model(records@[index as int])));
                }
                return Err(Error::JNIError("BSSID extraction failed".to_string()));
            },
        };
        let signal_level = match record.level {
            Some(v) => v,
            None => {
                proof {
                    assert(!record_complete(raw_record_model(records@[index as int])));
                }
                return Err(Error::JNIError("level extraction failed".to_string()));
            },
        };
        let frequency = match record.frequency {
            Some(v) => v,
            None => {
                proof {
                    assert(!record_complete(raw_record_model(records@[index as int])));
                }
                return Err(Error::JNIError("frequency extraction failed".to_string()));
            },
        };
        networks.push(Wifi::from_fields(mac, ssid, signal_level, frequency));
        index = index + 1;
    }
    Ok(networks)
}

/// Resolves the process-wide scanner handle: scanning before initialization
/// is a reported error, never a crash or a native-call attempt.
pub fn require_initialized<T>(handle: Option<&T>) -> (r: Result<&T, Error>)
    ensures
        handle matches Some(h) ==> (r matches Ok(g) && g == h),
        handle is None ==> (r matches Err(e) && e is NotInitialized),
{
    match handle {
        Some(h) => Ok(h),
        None => Err(Error::NotInitialized),
    }
}

} // verus!
