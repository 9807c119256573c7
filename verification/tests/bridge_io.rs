//! The bridge's decisions exercised over real asynchronous pipes: an
//! echoing peer, a peer that closes its output, and a peer that never
//! replies.

use std::sync::Arc;
use std::time::{Duration, Instant};

use tokio::io::{AsyncBufReadExt, AsyncWriteExt, BufReader, DuplexStream};
use tokio::sync::Mutex;

use mcp_http_core::error::ErrorKind;
use mcp_http_core::process::{outgoing_line, query_round, McpRequest, ReadEvent};

fn runtime() -> tokio::runtime::Runtime {
    tokio::runtime::Builder::new_current_thread()
        .enable_time()
        .build()
        .unwrap()
}

async fn timed_read_line(reader: &mut BufReader<DuplexStream>, bound: Duration) -> ReadEvent {
    let mut line = String::new();
    match tokio::time::timeout(bound, reader.read_line(&mut line)).await {
        Err(_) => ReadEvent::TimedOut,
        Ok(Ok(0)) => ReadEvent::Eof,
        Ok(Ok(_)) => ReadEvent::Line { text: line },
        Ok(Err(e)) => ReadEvent::Failed {
            detail: e.to_string(),
        },
    }
}

#[test]
fn echoing_peer_round_trips_the_payload() {
    runtime().block_on(async {
        let (local, mut far) = tokio::io::duplex(4096);
        let payload = "{\"jsonrpc\":\"2.0\",\"id\":7,\"method\":\"ping\"}";
        let request = McpRequest {
            command: payload.to_string(),
        };
        // The peer echoes the written line verbatim.
        far.write_all(outgoing_line(payload).as_bytes()).await.unwrap();
        far.flush().await.unwrap();
        let mut reader = BufReader::new(local);
        let ev = timed_read_line(&mut reader, Duration::from_secs(5)).await;
        let reply = query_round(&request, ev, 5).unwrap();
        assert_eq!(reply.result, payload);
    });
}

#[test]
fn peer_that_closes_without_writing_yields_connection_closed_promptly() {
    runtime().block_on(async {
        let (local, far) = tokio::io::duplex(64);
        drop(far);
        let started = Instant::now();
        let mut reader = BufReader::new(local);
        let ev = timed_read_line(&mut reader, Duration::from_secs(5)).await;
        let err = query_round(
            &McpRequest {
                command: "x".to_string(),
            },
            ev,
            5,
        )
        .unwrap_err();
        assert_eq!(err.kind(), ErrorKind::Process);
        assert_eq!(err.message(), "MCP server closed the connection (EOF)");
        // The read returned at end-of-stream; it did not sit out the bound.
        assert!(started.elapsed() < Duration::from_secs(5));
    });
}

// Many concurrent callers against one shared session: the exclusive guard
// serializes them into strict write-then-read rounds, so against an echoing
// peer every caller gets its own payload back — interleaving would pair
// some caller with another's reply.
#[test]
fn concurrent_guarded_rounds_never_interleave() {
    let rt = tokio::runtime::Builder::new_multi_thread()
        .worker_threads(4)
        .enable_time()
        .build()
        .unwrap();
    rt.block_on(async {
        let (local, far) = tokio::io::duplex(65536);

        // The peer echoes each line verbatim.
        tokio::spawn(async move {
            let (far_read, mut far_write) = tokio::io::split(far);
            let mut reader = BufReader::new(far_read);
            let mut line = String::new();
            loop {
                line.clear();
                match reader.read_line(&mut line).await {
                    Ok(0) | Err(_) => break,
                    Ok(_) => {
                        if far_write.write_all(line.as_bytes()).await.is_err() {
                            break;
                        }
                        let _ = far_write.flush().await;
                    }
                }
            }
        });

        let (read_half, write_half) = tokio::io::split(local);
        let session = Arc::new(Mutex::new((BufReader::new(read_half), write_half)));

        let mut handles = Vec::new();
        for i in 0..16 {
            let session = session.clone();
            handles.push(tokio::spawn(async move {
                let payload = format!("payload-{}", i);
                let request = McpRequest {
                    command: payload.clone(),
                };
                // The whole write-then-read round trip holds the guard.
                let mut guard = session.lock().await;
                let (reader, writer) = &mut *guard;
                writer
                    .write_all(outgoing_line(&payload).as_bytes())
                    .await
                    .unwrap();
                writer.flush().await.unwrap();
                let mut line = String::new();
                reader.read_line(&mut line).await.unwrap();
                let reply = query_round(&request, ReadEvent::Line { text: line }, 30).unwrap();
                assert_eq!(reply.result, payload);
            }));
        }
        for handle in handles {
            handle.await.unwrap();
        }
    });
}

// A timed-out round leaves the pipe in an ambiguous state: the child may
// still produce its reply later, and the next round's read consumes that
// stale line instead of its own reply. This is a known gap of the design,
// pinned here rather than papered over.
#[test]
fn stale_reply_after_timeout_is_consumed_by_the_next_round() {
    runtime().block_on(async {
        let (local, mut far) = tokio::io::duplex(4096);
        let mut reader = BufReader::new(local);

        // First round: the peer stays silent past the bound.
        let first = McpRequest {
            command: "first".to_string(),
        };
        let ev = timed_read_line(&mut reader, Duration::from_millis(100)).await;
        assert!(query_round(&first, ev, 30).is_err());

        // The late reply to the first request arrives only now.
        far.write_all(outgoing_line("late-reply-to-first").as_bytes())
            .await
            .unwrap();
        far.flush().await.unwrap();

        // Second round: its read picks up the orphaned line.
        let second = McpRequest {
            command: "second".to_string(),
        };
        let ev = timed_read_line(&mut reader, Duration::from_secs(5)).await;
        let reply = query_round(&second, ev, 30).unwrap();
        assert_eq!(reply.result, "late-reply-to-first");
    });
}

#[test]
fn silent_peer_times_out_no_earlier_than_the_bound() {
    runtime().block_on(async {
        let (local, _far) = tokio::io::duplex(64);
        let bound = Duration::from_millis(200);
        let started = Instant::now();
        let mut reader = BufReader::new(local);
        let ev = timed_read_line(&mut reader, bound).await;
        let elapsed = started.elapsed();
        assert!(matches!(ev, ReadEvent::TimedOut));
        assert!(elapsed >= bound);
        assert!(elapsed < Duration::from_secs(5));
        let err = query_round(
            &McpRequest {
                command: "x".to_string(),
            },
            ev,
            30,
        )
        .unwrap_err();
        assert_eq!(err.message(), "MCP server response timeout (30 seconds)");
    });
}
