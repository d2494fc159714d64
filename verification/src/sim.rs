//! A simulated platform port: an in-memory implementation of `ScanPort`
//! whose collection and failure points are chosen up front.
//!
//! It stands in for a host platform wherever no native one is present, and it
//! is the only way to exercise the scan driver deterministically: every step
//! that can fail on a real platform can be made to fail here.

use vstd::prelude::*;
use crate::scanner::raw_record_model;
use crate::scanner::RawRecord;
use crate::scanner::RecordModel;
use crate::scanner::ScanPort;
use crate::wifi::Error;

verus! {

/// A simulated platform.  Its collection holds `RawRecord`s, so a `None`
/// field makes the corresponding extraction fail, as a native field read
/// would; the flags decide which step of the scan sequence succeeds.
/// `trigger_accepted` is the flag a platform returns when it declines to
/// start a fresh scan, which is not a failure.
pub struct SimPort {
    pub records: Vec<RawRecord>,
    pub identifier_ok: bool,
    pub service_ok: bool,
    pub trigger_call_ok: bool,
    pub trigger_accepted: bool,
    pub read_ok: bool,
}

impl ScanPort for SimPort {
    open spec fn results(&self) -> Seq<RecordModel> {
        self.records@.map_values(|record: RawRecord| raw_record_model(record))
    }

    fn resolve_service_identifier(&mut self) -> (r: Result<(), Error>) {
        if self.identifier_ok {
            Ok(())
        } else {
            Err(Error::JNIError("service identifier lookup failed".to_string()))
        }
    }

    fn request_service(&mut self) -> (r: Result<(), Error>) {
        if self.service_ok {
            Ok(())
        } else {
            Err(Error::JNIError("wireless service unavailable".to_string()))
        }
    }

    fn trigger_scan(&mut self) -> (r: Result<bool, Error>) {
        if self.trigger_call_ok {
            Ok(self.trigger_accepted)
        } else {
            Err(Error::JNIError("scan trigger failed".to_string()))
        }
    }

    fn read_results(&mut self) -> (r: Result<usize, Error>) {
        if self.read_ok {
            Ok(self.records.len())
        } else {
            Err(Error::JNIError("result read failed".to_string()))
        }
    }

    fn get_ssid(&mut self, index: usize) -> (r: Result<String, Error>) {
        match &self.records[index].ssid {
            Some(s) => Ok(s.clone()),
            None => Err(Error::JNIError("SSID extraction failed".to_string())),
        }
    }

    fn get_bssid(&mut self, index: usize) -> (r: Result<String, Error>) {
        match &self.records[index].bssid {
            Some(s) => Ok(s.clone()),
            None => Err(Error::JNIError("BSSID extraction failed".to_string())),
        }
    }

    fn get_level(&mut self, index: usize) -> (r: Result<i32, Error>) {
        match self.records[index].level {
            Some(v) => Ok(v),
            None => Err(Error::JNIError("level extraction failed".to_string())),
        }
    }

    fn get_frequency(&mut self, index: usize) -> (r: Result<u32, Error>) {
        match self.records[index].frequency {
            Some(v) => Ok(v),
            None => Err(Error::JNIError("frequency extraction failed".to_string())),
        }
    }
}

} // verus!

