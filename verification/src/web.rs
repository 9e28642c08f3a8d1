//! Decisions of the HTTP API: device records, response codes, the outcome of
//! a manual notification test.

use vstd::prelude::*;
use vstd::string::*;
use crate::alerts::AlertNotice;

verus! {

/// A device that receives push notifications.
#[derive(Clone, Debug, PartialEq)]
pub struct RegisterDeviceRequest {
    pub device_token: String,
    pub device_name: String,
    pub device_id: String,
}

/// The device store failed to carry out a request.
#[derive(Clone, Copy, Debug, PartialEq)]
pub struct StoreError;

/// HTTP status of a registration: `200 OK` when the record was written,
/// `500` when the store failed.
pub fn register_status_code(written: Result<usize, StoreError>) -> (code: u16)
    ensures
        code == (if written is Ok {
            200u16
        } else {
            500u16
        }),
{
    match written {
        Ok(_) => 200,
        Err(_) => 500,
    }
}

/// HTTP status of a removal: `200 OK` when a record was removed, `404` when
/// no record had that id, `500` when the store failed.
pub fn delete_status_code(removed: Result<usize, StoreError>) -> (code: u16)
    ensures
        code == (match removed {
            Ok(rows) => if rows > 0 {
                200u16
            } else {
                404u16
            },
            Err(_) => 500u16,
        }),
{
    match removed {
        Ok(rows) => if rows > 0 {
            200
        } else {
            404
        },
        Err(_) => 500,
    }
}

/// Number of `true` entries.
pub open spec fn count_true(s: Seq<bool>) -> nat
    decreases s.len(),
{
    if s.len() == 0 {
        0
    } else {
        count_true(s.drop_last()) + if s.last() {
            1nat
        } else {
            0nat
        }
    }
}

proof fn lemma_count_true_le(s: Seq<bool>)
    ensures
        count_true(s) <= s.len(),
    decreases s.len(),
{
    if s.len() > 0 {
        lemma_count_true_le(s.drop_last());
    }
}

/// How many deliveries succeeded.
pub fn count_successes(results: &Vec<bool>) -> (n: usize)
    ensures
        n == count_true(results@),
        n <= results@.len(),
{
    let mut n: usize = 0;
    let len = results.len();
    assert(results@.take(0) =~= Seq::<bool>::empty());
    for i in 0..len
        invariant
            len == results@.len(),
            n == count_true(results@.take(i as int)),
            n <= i,
    {
        assert(results@.take(i + 1).drop_last() =~= results@.take(i as int));
        if results[i] {
            n = n + 1;
        }
    }
    assert(results@.take(len as int) =~= results@);
    proof {
        lemma_count_true_le(results@);
    }
    n
}

/// Outcome of a manual notification test.
#[derive(Clone, Copy, Debug, PartialEq)]
pub enum FcmTestReport {
    /// The notification service is not configured.
    MissingConfig,
    /// No device is registered.
    NoDevices,
    /// A test notification went to every registered device.
    Completed { targets_found: usize, successfully_sent: usize },
}

/// The outcome of a test run, given whether the notification service is
/// configured and the delivery result for each registered device.
pub fn fcm_test_report(configured: bool, send_results: &Vec<bool>) -> (r: FcmTestReport)
    ensures
        !configured ==> r is MissingConfig,
        configured && send_results@.len() == 0 ==> r is NoDevices,
        configured && send_results@.len() > 0 ==> r == (FcmTestReport::Completed {
            targets_found: send_results@.len() as usize,
            successfully_sent: count_true(send_results@) as usize,
        }),
{
    if !configured {
        FcmTestReport::MissingConfig
    } else if send_results.len() == 0 {
        FcmTestReport::NoDevices
    } else {
        FcmTestReport::Completed {
            targets_found: send_results.len(),
            successfully_sent: count_successes(send_results),
        }
    }
}

impl FcmTestReport {
    /// HTTP status of the test: `400` without configuration, `200` otherwise.
    pub fn status_code(&self) -> (code: u16)
        ensures
            code == (if *self is MissingConfig {
                400u16
            } else {
                200u16
            }),
    {
        match self {
            FcmTestReport::MissingConfig => 400,
            _ => 200,
        }
    }
}

/// The notification sent by a manual test.
pub fn test_notice() -> (n: AlertNotice)
    ensures
        n.title@ == "\u{26a0}\u{fe0f} Test Notification"@,
        n.message@ == "This is a test notification generated from your NUT Monitor endpoint."@,
{
    AlertNotice {
        title: String::from_str("\u{26a0}\u{fe0f} Test Notification"),
        message: String::from_str(
            "This is a test notification generated from your NUT Monitor endpoint.",
        ),
    }
}

} // verus!
