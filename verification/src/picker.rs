//! The file-picker command: which files the native dialog offers, how the
//! dialog's single answer reaches the waiting caller, and what the caller is
//! told.

use std::sync::mpsc::{channel, Receiver, RecvError, SendError, Sender};
use vstd::prelude::*;
use vstd::string::*;

verus! {

/// `std::sync::mpsc::Sender`, the sending half of a channel. Nothing is known
/// of what is inside one.
#[verifier::external_type_specification]
#[verifier::external_body]
#[verifier::reject_recursive_types(T)]
pub struct ExSender<T>(Sender<T>);

/// `std::sync::mpsc::Receiver`, the receiving half of a channel. Nothing is
/// known of what is inside one.
#[verifier::external_type_specification]
#[verifier::external_body]
#[verifier::reject_recursive_types(T)]
pub struct ExReceiver<T>(Receiver<T>);

/// `std::sync::mpsc::RecvError`, the error of a receive on a channel whose
/// senders are all gone.
#[verifier::external_type_specification]
#[verifier::external_body]
pub struct ExRecvError(RecvError);

/// `std::sync::mpsc::SendError`, the error of a send on a channel whose
/// receiver is gone; it holds the value that was not sent.
#[verifier::external_type_specification]
#[verifier::external_body]
#[verifier::reject_recursive_types(T)]
pub struct ExSendError<T>(SendError<T>);

/// `std::sync::mpsc::channel` makes a fresh channel. Nothing is claimed of
/// its two halves.
pub assume_specification<T>[ std::sync::mpsc::channel::<T> ]() -> (ends: (Sender<T>, Receiver<T>));

/// `Sender::send` hands a value to the channel, or hands it back if the
/// receiver is gone. Nothing is claimed of which it does.
pub assume_specification<T>[ Sender::<T>::send ](sender: &Sender<T>, value: T) -> (sent: Result<
    (),
    SendError<T>,
>);

/// `Receiver::recv` waits until a value has been sent or every sender is
/// gone. Nothing is claimed of what comes back.
pub assume_specification<T>[ Receiver::<T>::recv ](receiver: &Receiver<T>) -> (received: Result<
    T,
    RecvError,
>);

/// A filter of the native dialog: a label and the file-name extensions that
/// it lets through.
#[derive(Debug, PartialEq, Eq)]
pub struct FileFilter {
    pub name: String,
    pub extensions: Vec<String>,
}

impl FileFilter {
    /// The filter for presentation files: labelled "PowerPoint Files", with
    /// the extensions `ppt` and `pptx`, in this order.
    pub open spec fn is_presentation_filter(&self) -> bool {
        &&& self.name@ == "PowerPoint Files"@
        &&& self.extensions.deep_view() == seq!["ppt"@, "pptx"@]
    }
}

/// The filter that the picker hands to the dialog.
pub fn presentation_filter() -> (filter: FileFilter)
    ensures
        filter.is_presentation_filter(),
{
    let mut extensions: Vec<String> = Vec::new();
    extensions.push(String::from_str("ppt"));
    extensions.push(String::from_str("pptx"));
    let filter = FileFilter { name: String::from_str("PowerPoint Files"), extensions };
    assert(filter.extensions.deep_view() =~= seq!["ppt"@, "pptx"@]);
    filter
}

/// What one run of the picker amounts to.
pub enum Pick {
    /// A file was chosen; its path.
    Selected(Seq<char>),
    /// The dialog was dismissed.
    Cancelled,
    /// The dialog's answer never arrived; the message.
    Failed(Seq<char>),
}

/// The message for an answer that never arrived, around the channel's own
/// `reason`.
pub open spec fn receive_failure(reason: Seq<char>) -> Seq<char> {
    "Failed to receive file path: "@ + reason
}

/// Reads a result of the picker as a `Pick`.
pub open spec fn pick_of(outcome: Result<Option<String>, String>) -> Pick {
    match outcome {
        Ok(Some(path)) => Pick::Selected(path@),
        Ok(None) => Pick::Cancelled,
        Err(message) => Pick::Failed(message@),
    }
}

/// What the caller is to be told for what the waiting side `received`: the
/// chosen path or the dismissal as they came, and for a broken channel the
/// failure message around its reason.
pub open spec fn pick_for(received: Result<Option<String>, String>) -> Pick {
    match received {
        Ok(Some(path)) => Pick::Selected(path@),
        Ok(None) => Pick::Cancelled,
        Err(reason) => Pick::Failed(receive_failure(reason@)),
    }
}

/// Every result of the picker is exactly one of three things: a chosen
/// path, a dismissal, or a failure with its message. A dismissal is a success
/// without a path, and never a failure.
pub proof fn lemma_exactly_one_outcome(outcome: Result<Option<String>, String>)
    ensures
        pick_of(outcome) is Selected || pick_of(outcome) is Cancelled || pick_of(outcome) is Failed,
        !(pick_of(outcome) is Selected && pick_of(outcome) is Cancelled),
        !(pick_of(outcome) is Selected && pick_of(outcome) is Failed),
        !(pick_of(outcome) is Cancelled && pick_of(outcome) is Failed),
        pick_of(outcome) is Selected <==> outcome is Ok && outcome->Ok_0 is Some,
        pick_of(outcome) is Cancelled <==> outcome is Ok && outcome->Ok_0 is None,
        pick_of(outcome) is Failed <==> outcome is Err,
{
}

/// Tells the caller what the waiting side `received`. It succeeds exactly
/// when the receive did.
pub fn pick_outcome(received: Result<Option<String>, String>) -> (outcome: Result<
    Option<String>,
    String,
>)
    ensures
        outcome is Ok <==> received is Ok,
        pick_of(outcome) == pick_for(received),
{
    match received {
        Ok(choice) => Ok(choice),
        Err(reason) => {
            let mut message = String::from_str("Failed to receive file path: ");
            message.append(reason.as_str());
            Err(message)
        },
    }
}

/// The one-shot way back from the dialog to the waiting caller. Delivering
/// consumes it, so one dialog run deposits at most one answer.
pub struct PickReply {
    sender: Sender<Option<String>>,
}

impl PickReply {
    /// Deposits the dialog's answer: the chosen path, or `None` for a
    /// dismissed dialog. Whether the caller still waits is not reported.
    pub fn deliver(self, choice: Option<String>) {
        let _ = self.sender.send(choice);
    }
}

/// Runs the picker through `service`, which shows the dialog with the filter
/// it is given and answers through the reply it is given, then waits for that
/// one answer.
///
/// The answer may be delivered before the service returns or at any time
/// after, from any thread. The wait ends when the answer is delivered or the
/// reply is dropped undelivered, which is the failure. A service that keeps
/// the reply and never uses it keeps the caller waiting: there is no timeout.
pub fn open_file_dialog<F: FnOnce(FileFilter, PickReply)>(service: F) -> (outcome: Result<
    Option<String>,
    String,
>)
    requires
        forall|filter: FileFilter, reply: PickReply|
            filter.is_presentation_filter() ==> service.requires((filter, reply)),
    ensures
        exists|filter: FileFilter, reply: PickReply|
            filter.is_presentation_filter() && service.ensures((filter, reply), ()),
        outcome matches Err(message) ==> exists|reason: Seq<char>|
            message@ == receive_failure(reason),
{
    let (sender, receiver) = channel();
    service(presentation_filter(), PickReply { sender });
    match receiver.recv() {
        Ok(choice) => pick_outcome(Ok(choice)),
        Err(error) => pick_outcome(Err(error.to_string())),
    }
}

} // verus!
