//! A file picker that runs on a thread of its own and is polled for its
//! result.
use vstd::prelude::*;
use vstd::string::*;

use std::path::PathBuf;
use std::sync::mpsc::{Receiver, TryRecvError};

verus! {

#[verifier::external_type_specification]
#[verifier::external_body]
#[verifier::reject_recursive_types(T)]
pub struct ExReceiver<T>(Receiver<T>);

#[verifier::external_type_specification]
#[verifier::external_body]
pub struct ExPathBuf(PathBuf);

/// What trying to receive from a channel found.
pub enum Received<T> {
    /// A value was waiting.
    Value(T),
    /// Nothing was waiting yet.
    Empty,
    /// The sending side is gone.
    Disconnected,
}

/// Calls `Receiver::try_recv` and tells its three outcomes apart. Nothing is
/// stated of the outcome: it depends on the picker's thread.
#[verifier::external_body]
fn try_receive<T>(rx: &Receiver<T>) -> Received<T> {
    match rx.try_recv() {
        Ok(v) => Received::Value(v),
        Err(TryRecvError::Empty) => Received::Empty,
        Err(TryRecvError::Disconnected) => Received::Disconnected,
    }
}

/// A file that was picked: a content URI, or a path.
#[derive(Debug)]
pub enum PickedFile {
    Uri(String),
    Path(PathBuf),
}

/// A picker whose result arrives on a channel.
#[verifier::reject_recursive_types(T)]
pub struct AndroidPicker<T> {
    rx: Option<Receiver<Result<Option<T>, String>>>,
}

/// The result to report and whether to keep waiting, for what the channel
/// gave.
pub fn poll_outcome<T>(got: Received<Result<Option<T>, String>>) -> (r: (
    Option<Result<Option<T>, String>>,
    bool,
))
    ensures
        r.1 == (got is Empty),
        got matches Received::Value(res) ==> r.0 == Some(res),
        got is Empty ==> r.0 is None,
        got is Disconnected ==> (r.0 matches Some(Err(m)) && m@ == "Picker thread disconnected"@),
{
    match got {
        Received::Value(res) => (Some(res), false),
        Received::Empty => (None, true),
        Received::Disconnected => (Some(Err(String::from_str("Picker thread disconnected"))), false),
    }
}

impl<T> AndroidPicker<T> {
    /// Whether the picker still waits for its result.
    pub closed spec fn waiting(self) -> bool {
        self.rx is Some
    }

    /// A picker waiting on a channel.
    pub fn from_receiver(rx: Receiver<Result<Option<T>, String>>) -> (r: Self)
        ensures
            r.waiting(),
    {
        AndroidPicker { rx: Some(rx) }
    }

    /// Check for the result: `None` while it has not arrived (and after it
    /// was reported); once it arrives, or the thread goes away, it is
    /// reported once and the picker stops waiting.
    pub fn poll(&mut self) -> (r: Option<Result<Option<T>, String>>)
        ensures
            !old(self).waiting() ==> r is None && !final(self).waiting(),
            r is Some ==> !final(self).waiting(),
            r is None ==> final(self).waiting() == old(self).waiting(),
    {
        let got = match &self.rx {
            Some(rx) => try_receive(rx),
            None => return None,
        };
        let (result, keep) = poll_outcome(got);
        if !keep {
            self.rx = None;
        }
        result
    }

    /// Whether the result has been reported.
    pub fn is_done(&self) -> (r: bool)
        ensures
            r == !self.waiting(),
    {
        self.rx.is_none()
    }
}

} // verus!
