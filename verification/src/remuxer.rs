//! The stream supervisor's decisions: which lifecycle events start a
//! remuxing task, which are passed over, and when the supervisor stops.

use vstd::prelude::*;
use crate::flv2hls::Flv2HlsRemuxer;
use crate::frame::{HlsConfig, SegmentTiming};
use crate::ts::Ts;
use crate::window::WindowState;

verus! {

/// The identity of one live stream.
#[derive(Debug)]
pub struct StreamKey {
    pub app_name: String,
    pub stream_name: String,
    pub domain_name: Option<String>,
}

/// How a stream is identified on the event bus.
#[derive(Debug)]
pub enum StreamIdentifier {
    /// A stream published through the ingest protocol.
    Rtmp(StreamKey),
    /// A stream of any other origin.
    Other,
}

/// A lifecycle event on the shared bus.
#[derive(Debug)]
pub enum BroadcastEvent {
    Publish { identifier: StreamIdentifier },
    UnPublish { identifier: StreamIdentifier },
    Other,
}

/// What one receive on the lifecycle bus gave.
#[derive(Debug)]
pub enum Received {
    Event(BroadcastEvent),
    /// The bus is closed or the receive failed.
    Failed,
}

/// What the supervisor does next.
#[derive(Debug)]
pub enum SupervisorAction {
    /// Start a remuxing task for this stream, and go on receiving.
    Spawn(StreamKey),
    /// Go on receiving.
    Ignore,
    /// Leave the loop and report the channel failure.
    Stop,
}

/// The action that `received` calls for.
pub open spec fn action_for(received: Received) -> SupervisorAction {
    match received {
        Received::Event(BroadcastEvent::Publish { identifier: StreamIdentifier::Rtmp(key) }) =>
            SupervisorAction::Spawn(key),
        Received::Event(_) => SupervisorAction::Ignore,
        Received::Failed => SupervisorAction::Stop,
    }
}

/// The supervisor: it holds what each new remuxing task is started with.
pub struct HlsRemuxer {
    hls_config: Option<HlsConfig>,
}

impl HlsRemuxer {
    pub closed spec fn config(&self) -> Option<HlsConfig> {
        self.hls_config
    }

    pub fn new(hls_config: Option<HlsConfig>) -> (r: Self)
        ensures
            r.config() == hls_config,
    {
        HlsRemuxer { hls_config }
    }

    /// Decides what follows one receive: a publish event of an ingest stream
    /// starts a task for it, every other event is passed over, and a failed
    /// receive ends the loop.
    pub fn decide(&self, received: Received) -> (action: SupervisorAction)
        ensures
            action == action_for(received),
    {
        match received {
            Received::Event(event) => match event {
                BroadcastEvent::Publish { identifier } => match identifier {
                    StreamIdentifier::Rtmp(key) => SupervisorAction::Spawn(key),
                    StreamIdentifier::Other => SupervisorAction::Ignore,
                },
                _ => SupervisorAction::Ignore,
            },
            Received::Failed => SupervisorAction::Stop,
        }
    }

    /// A fresh remuxer for the stream `key`, with the supervisor's settings
    /// and segments located in `store`.
    pub fn remuxer_for(&self, key: StreamKey, store: Ts) -> (r: Flv2HlsRemuxer)
        ensures
            r.wf(),
            r.window() == WindowState::initial(),
            r.timing() == SegmentTiming::resolved(self.config()),
            r.buffered() == Seq::<u8>::empty(),
            r.store() == store,
            r.names() == (key.app_name@, key.stream_name@),
    {
        Flv2HlsRemuxer::new(key.app_name, key.stream_name, store, self.hls_config)
    }
}

} // verus!
