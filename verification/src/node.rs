//! The connection of a miner that speaks the second version of the protocol.
use vstd::prelude::*;

use async_channel::Receiver;
use codec_sv2::{Frame, StandardEitherFrame, StandardSv2Frame};
use roles_logic_sv2::parsers::MiningDeviceMessages;
use tokio::sync::mpsc;

verus! {

/// The receiving end of an outside channel.
#[verifier::external_type_specification]
#[verifier::external_body]
#[verifier::reject_recursive_types(T)]
pub struct ExReceiver<T>(Receiver<T>);

/// The sending end of an outside channel.
#[verifier::external_type_specification]
#[verifier::external_body]
#[verifier::reject_recursive_types(T)]
pub struct ExSender<T>(mpsc::Sender<T>);

/// A frame of the outside codec.
#[verifier::external_type_specification]
#[verifier::external_body]
#[verifier::reject_recursive_types(T)]
#[verifier::reject_recursive_types(B)]
pub struct ExFrame<T, B>(Frame<T, B>);

/// A message of the outside protocol library.
#[verifier::external_type_specification]
#[verifier::external_body]
pub struct ExMiningDeviceMessages<'a>(MiningDeviceMessages<'a>);

pub type Message = MiningDeviceMessages<'static>;

pub type StdFrame = StandardSv2Frame<Message>;

pub type EitherFrame = StandardEitherFrame<Message>;

/// A miner's connection: where its frames come from, and where its shares go.
pub struct DownstreamMiningNode {
    pub id: u32,
    pub receiver: Receiver<EitherFrame>,
    pub sender: mpsc::Sender<String>,
}

impl DownstreamMiningNode {
    /// A connection of a miner.
    pub fn new(
        receiver: Receiver<EitherFrame>,
        sender: mpsc::Sender<String>,
        id: u32,
    ) -> (node: DownstreamMiningNode)
        ensures
            node == (DownstreamMiningNode { id, receiver, sender }),
    {
        DownstreamMiningNode { id, receiver, sender }
    }
}

} // verus!
