//! A file picker whose result arrives from a task on a channel, and writing
//! a file to a content URI, which only platforms with content URIs need.
use vstd::prelude::*;
use vstd::string::*;

use std::path::PathBuf;

use crate::android_picker::Received;

verus! {

#[verifier::external_type_specification]
#[verifier::external_body]
#[verifier::reject_recursive_types(T)]
pub struct ExFlumeReceiver<T>(flume::Receiver<T>);

/// Calls flume's `Receiver::try_recv` and tells its three outcomes apart.
/// Nothing is stated of the outcome: it depends on the picker's task.
#[verifier::external_body]
fn try_receive<T>(rx: &flume::Receiver<T>) -> Received<T> {
    match rx.try_recv() {
        Ok(v) => Received::Value(v),
        Err(flume::TryRecvError::Empty) => Received::Empty,
        Err(flume::TryRecvError::Disconnected) => Received::Disconnected,
    }
}

/// The result to report and whether to keep waiting, for what the channel of
/// a picker task gave.
pub fn task_poll_outcome<T>(got: Received<Result<Option<T>, String>>) -> (r: (
    Option<Result<Option<T>, String>>,
    bool,
))
    ensures
        r.1 == (got is Empty),
        got matches Received::Value(res) ==> r.0 == Some(res),
        got is Empty ==> r.0 is None,
        got is Disconnected ==> (r.0 matches Some(Err(m)) && m@ == "Picker task disconnected"@),
{
    match got {
        Received::Value(res) => (Some(res), false),
        Received::Empty => (None, true),
        Received::Disconnected => (Some(Err(String::from_str("Picker task disconnected"))), false),
    }
}

/// A picker whose result a task sends on a channel.
#[verifier::reject_recursive_types(T)]
pub struct Picker<T> {
    rx: Option<flume::Receiver<Result<Option<T>, String>>>,
}

impl<T> Picker<T> {
    /// Whether the picker still waits for its result.
    pub closed spec fn waiting(self) -> bool {
        self.rx is Some
    }

    /// A picker waiting on a channel.
    pub fn from_receiver(rx: flume::Receiver<Result<Option<T>, String>>) -> (r: Self)
        ensures
            r.waiting(),
    {
        Picker { rx: Some(rx) }
    }

    /// Check for the result: `None` while it has not arrived (and after it
    /// was reported); once it arrives, or the task goes away, it is reported
    /// once and the picker stops waiting.
    pub fn poll(&mut self) -> (r: Option<Result<Option<T>, String>>)
        ensures
            !old(self).waiting() ==> r is None && !final(self).waiting(),
            r is Some ==> !final(self).waiting(),
            r is None ==> final(self).waiting() == old(self).waiting(),
    {
        let got = match &self.rx {
            Some(rx) => try_receive(rx),
            None => return None,
        };
        let (result, keep) = task_poll_outcome(got);
        if !keep {
            self.rx = None;
        }
        result
    }

    /// Whether the result has been reported.
    pub fn is_done(&self) -> (r: bool)
        ensures
            r == !self.waiting(),
    {
        self.rx.is_none()
    }
}

/// On the desktop there is nothing to copy: the request is refused with a
/// message saying so.
pub fn write_file_to_uri(_source_path: &PathBuf, _uri: &str) -> (r: Result<(), String>)
    ensures
        r matches Err(m) && m@ == "write_file_to_uri not needed on desktop"@,
{
    Err(String::from_str("write_file_to_uri not needed on desktop"))
}

} // verus!
