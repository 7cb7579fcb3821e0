//! The tokio channel ends that requests and notifications carry. They are
//! opaque here: the library moves them around and hands them back.

use vstd::prelude::*;

verus! {

#[verifier::external_type_specification]
#[verifier::external_body]
#[verifier::reject_recursive_types(T)]
/// tokio's bounded channel sender, by which a request's verdict travels.
pub struct ExMpscSender<T>(tokio::sync::mpsc::Sender<T>);

#[verifier::external_type_specification]
#[verifier::external_body]
#[verifier::reject_recursive_types(T)]
/// tokio's one-shot sender, by which a waiting worker receives its result.
pub struct ExOneshotSender<T>(tokio::sync::oneshot::Sender<T>);

#[verifier::external_type_specification]
#[verifier::external_body]
#[verifier::reject_recursive_types(T)]
/// tokio's one-shot receiver, by which a request learns of its cancellation.
pub struct ExOneshotReceiver<T>(tokio::sync::oneshot::Receiver<T>);

#[verifier::external_type_specification]
#[verifier::external_body]
/// The error of a one-shot receiver whose sender is gone. Nothing here uses
/// it directly, but Verus needs it declared to accept `oneshot::Receiver`,
/// whose `Future` impl names it.
pub struct ExOneshotRecvError(tokio::sync::oneshot::error::RecvError);

} // verus!
