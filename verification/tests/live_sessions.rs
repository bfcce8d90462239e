//! Broadcast delivery through real `ezsockets` session actors, run over an
//! in-process stand-in for the websocket so no network is involved.

use button_relay::server::DaemonServer;
use ezsockets::{RawMessage, Socket, SocketConfig};
use futures::channel::mpsc as fmpsc;
use std::pin::Pin;
use std::task::{Context, Poll};

type WireError = ezsockets::WSError;

/// An in-process stand-in for a websocket: frames the session writes go
/// out on one channel; frames fed in through the paired sender come back
/// on the other. Dropping the feeding sender ends the connection.
struct Duplex {
    out: fmpsc::UnboundedSender<RawMessage>,
    inbound: fmpsc::UnboundedReceiver<RawMessage>,
}

impl futures::Sink<RawMessage> for Duplex {
    type Error = WireError;

    fn poll_ready(self: Pin<&mut Self>, _cx: &mut Context<'_>) -> Poll<Result<(), WireError>> {
        Poll::Ready(Ok(()))
    }

    fn start_send(self: Pin<&mut Self>, item: RawMessage) -> Result<(), WireError> {
        let _ = self.get_mut().out.unbounded_send(item);
        Ok(())
    }

    fn poll_flush(self: Pin<&mut Self>, _cx: &mut Context<'_>) -> Poll<Result<(), WireError>> {
        Poll::Ready(Ok(()))
    }

    fn poll_close(self: Pin<&mut Self>, _cx: &mut Context<'_>) -> Poll<Result<(), WireError>> {
        Poll::Ready(Ok(()))
    }
}

impl futures::Stream for Duplex {
    type Item = Result<RawMessage, WireError>;

    fn poll_next(self: Pin<&mut Self>, cx: &mut Context<'_>) -> Poll<Option<Self::Item>> {
        Pin::new(&mut self.get_mut().inbound).poll_next(cx).map(|m| m.map(Ok))
    }
}

/// Per-connection state for the fake client; the protocol is
/// broadcast-only, so inbound messages have no effect.
struct TestSession {
    id: u16,
}

impl ezsockets::SessionExt for TestSession {
    type ID = u16;
    type Call = ();

    fn id(&self) -> &u16 {
        &self.id
    }

    fn on_text<'l, 'f>(
        &'l mut self,
        _text: ezsockets::Utf8Bytes,
    ) -> Pin<Box<dyn std::future::Future<Output = Result<(), ezsockets::Error>> + Send + 'f>>
    where
        'l: 'f,
        Self: 'f,
    {
        Box::pin(async { Ok(()) })
    }

    fn on_binary<'l, 'f>(
        &'l mut self,
        _bytes: ezsockets::Bytes,
    ) -> Pin<Box<dyn std::future::Future<Output = Result<(), ezsockets::Error>> + Send + 'f>>
    where
        'l: 'f,
        Self: 'f,
    {
        Box::pin(async { Ok(()) })
    }

    fn on_call<'l, 'f>(
        &'l mut self,
        _call: (),
    ) -> Pin<Box<dyn std::future::Future<Output = Result<(), ezsockets::Error>> + Send + 'f>>
    where
        'l: 'f,
        Self: 'f,
    {
        Box::pin(async { Ok(()) })
    }
}

/// One fake connected client: the session handle the server registers,
/// the wire its outbound frames arrive on, and the feed that keeps its
/// connection open until dropped.
struct FakeClient {
    session: ezsockets::Session<u16, ()>,
    wire: fmpsc::UnboundedReceiver<RawMessage>,
    feed: Option<fmpsc::UnboundedSender<RawMessage>>,
}

fn connect_fake(id: u16) -> FakeClient {
    let (out, wire) = fmpsc::unbounded();
    let (feed, inbound) = fmpsc::unbounded();
    let handle = enfync::builtin::native::TokioHandle(tokio::runtime::Handle::current());
    let socket = Socket::new(Duplex { out, inbound }, SocketConfig::default(), handle);
    let session = ezsockets::Session::create(|_handle| TestSession { id }, id, socket);
    FakeClient { session, wire, feed: Some(feed) }
}

fn drain_texts(wire: &mut fmpsc::UnboundedReceiver<RawMessage>) -> Vec<String> {
    let mut out = Vec::new();
    while let Ok(Some(msg)) = wire.try_next() {
        if let RawMessage::Text(text) = msg {
            out.push(text.as_str().to_string());
        }
    }
    out
}

/// Polls the wire until at least one text frame arrived or the deadline
/// passed, and returns everything collected.
async fn collect_texts(wire: &mut fmpsc::UnboundedReceiver<RawMessage>) -> Vec<String> {
    let mut waited_ms: u64 = 0;
    loop {
        let texts = drain_texts(wire);
        if !texts.is_empty() || waited_ms >= 5000 {
            return texts;
        }
        tokio::time::sleep(std::time::Duration::from_millis(20)).await;
        waited_ms += 20;
    }
}

/// Waits until the session's actor has shut down.
async fn wait_closed(session: &ezsockets::Session<u16, ()>) {
    let mut waited_ms: u64 = 0;
    while session.alive() && waited_ms < 5000 {
        tokio::time::sleep(std::time::Duration::from_millis(20)).await;
        waited_ms += 20;
    }
    assert!(!session.alive());
}

fn runtime() -> tokio::runtime::Runtime {
    tokio::runtime::Builder::new_multi_thread()
        .worker_threads(2)
        .enable_all()
        .build()
        .unwrap()
}

#[test]
fn publish_reaches_both_then_only_remaining_session() {
    let rt = runtime();
    rt.block_on(async {
        let mut core = DaemonServer::new();
        let mut c1 = connect_fake(1);
        let mut c2 = connect_fake(2);
        core.accept(1, c1.session.clone());
        core.accept(2, c2.session.clone());
        assert_eq!(core.session_ids(), vec![1u16, 2u16]);

        let attempts = core.call(&String::from("BTN-DPadLeft"));
        assert_eq!(attempts, vec![(1u16, true), (2u16, true)]);
        assert_eq!(collect_texts(&mut c1.wire).await, vec!["BTN-DPadLeft".to_string()]);
        assert_eq!(collect_texts(&mut c2.wire).await, vec!["BTN-DPadLeft".to_string()]);

        // client 1 disconnects; the server is notified and unregisters it
        c1.feed = None;
        wait_closed(&c1.session).await;
        core.disconnected(1);
        assert_eq!(core.session_ids(), vec![2u16]);

        let attempts = core.call(&String::from("BTN-North"));
        assert_eq!(attempts, vec![(2u16, true)]);
        assert_eq!(collect_texts(&mut c2.wire).await, vec!["BTN-North".to_string()]);
        assert!(drain_texts(&mut c1.wire).is_empty());
    });
}

#[test]
fn send_failure_does_not_stop_later_deliveries() {
    let rt = runtime();
    rt.block_on(async {
        let mut core = DaemonServer::new();

        // a session whose connection is already gone, never unregistered
        let mut dead = connect_fake(3);
        dead.feed = None;
        wait_closed(&dead.session).await;

        let mut live = connect_fake(4);
        core.accept(3, dead.session.clone());
        core.accept(4, live.session.clone());

        // the failed send on session 3 is recorded and delivery to
        // session 4, later in snapshot order, still happens
        let attempts = core.call(&String::from("BTN-West"));
        assert_eq!(attempts, vec![(3u16, false), (4u16, true)]);
        assert_eq!(collect_texts(&mut live.wire).await, vec!["BTN-West".to_string()]);
        assert!(drain_texts(&mut dead.wire).is_empty());
    });
}
