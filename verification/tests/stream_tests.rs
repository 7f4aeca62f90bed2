//! Behavioural tests of the pagination-to-stream adapter, driven through a
//! scripted executor.

use twitch_api::errors::ClientRequestError;
use twitch_api::pager::{Page, Pager, Pull};
use twitch_api::stream::{make_stream, PagedStream, ScriptedSource};

type Item = &'static str;
type Script = Vec<Result<Page<Item>, ClientRequestError>>;

fn page(items: &[Item], cursor: Option<&str>) -> Result<Page<Item>, ClientRequestError> {
    Ok(Page {
        items: items.to_vec(),
        cursor: cursor.map(|c| c.to_string()),
    })
}

fn decode_error() -> Result<Page<Item>, ClientRequestError> {
    Err(ClientRequestError::Decode("bad payload".to_string()))
}

fn drain(
    stream: &mut PagedStream<Item, ClientRequestError, ScriptedSource<Item, ClientRequestError>>,
) -> Vec<Result<Item, ClientRequestError>> {
    let mut out = Vec::new();
    while let Some(ev) = stream.next() {
        out.push(ev);
    }
    out
}

#[test]
fn laziness_no_call_before_first_pull() {
    let script: Script = vec![page(&["a"], None)];
    let source = ScriptedSource::new(script);
    let stream = make_stream(source);
    // freshly constructed: nothing fetched, nothing yielded
    assert_eq!(stream.source.remaining(), 1);
    assert!(!stream.is_done());
}

#[test]
fn order_two_pages_in_sequence() {
    let script: Script = vec![page(&["a", "b"], Some("cur1")), page(&["c"], None)];
    let source = ScriptedSource::new(script);
    let mut stream = make_stream(source);
    let out = drain(&mut stream);
    let items: Vec<Item> = out.into_iter().map(|r| r.unwrap()).collect();
    assert_eq!(items, vec!["a", "b", "c"]);
    assert!(stream.is_done());
    assert_eq!(stream.next(), None);
    assert_eq!(stream.source.remaining(), 0);
}

#[test]
fn empty_first_page_terminates_without_second_call() {
    // the first page is empty but still carries a cursor; the poison page
    // would surface if a second call were ever made
    let script: Script = vec![page(&[], Some("cur1")), page(&["poison"], None)];
    let source = ScriptedSource::new(script);
    let mut stream = make_stream(source);
    let out = drain(&mut stream);
    assert!(out.is_empty());
    assert_eq!(stream.source.remaining(), 1);
}

#[test]
fn one_call_per_page_exactly() {
    // two pages; the poison page would be served by any third call
    let script: Script = vec![
        page(&["a", "b"], Some("cur1")),
        page(&["c", "d"], None),
        page(&["poison"], None),
    ];
    let source = ScriptedSource::new(script);
    let mut stream = make_stream(source);
    let out = drain(&mut stream);
    assert_eq!(out.len(), 4);
    assert_eq!(stream.source.remaining(), 1);
}

#[test]
fn error_is_terminal_after_first_page() {
    let script: Script = vec![
        page(&["a", "b"], Some("cur1")),
        decode_error(),
        page(&["poison"], None),
    ];
    let source = ScriptedSource::new(script);
    let mut stream = make_stream(source);
    let out = drain(&mut stream);
    assert_eq!(out.len(), 3);
    assert_eq!(out[0], Ok("a"));
    assert_eq!(out[1], Ok("b"));
    assert!(matches!(out[2], Err(ClientRequestError::Decode(_))));
    // exhausted: nothing further, and no further call
    assert_eq!(stream.next(), None);
    assert_eq!(stream.next(), None);
    assert_eq!(stream.source.remaining(), 1);
}

#[test]
fn cursor_absence_drains_page_then_ends() {
    let script: Script = vec![page(&["a", "b", "c"], None), page(&["poison"], None)];
    let source = ScriptedSource::new(script);
    let mut stream = make_stream(source);
    let out = drain(&mut stream);
    let items: Vec<Item> = out.into_iter().map(|r| r.unwrap()).collect();
    assert_eq!(items, vec!["a", "b", "c"]);
    assert_eq!(stream.source.remaining(), 1);
}

#[test]
fn abandon_after_partial_consumption_makes_no_extra_call() {
    let script: Script = vec![page(&["a", "b"], Some("cur1")), page(&["c"], None)];
    let source = ScriptedSource::new(script);
    let mut stream = make_stream(source);
    assert_eq!(stream.next(), Some(Ok("a")));
    // one call so far, one scripted outcome left
    assert_eq!(stream.source.remaining(), 1);
    // abandoning the stream needs no finalization and performs no call
    drop(stream);
}

#[test]
fn full_drain_three_pages_records_three_calls() {
    // pages of sizes [2, 2, 1] with cursors after pages 1 and 2 only; a
    // poison page would be served by any fourth call
    let script: Script = vec![
        page(&["i1", "i2"], Some("cur1")),
        page(&["i3", "i4"], Some("cur2")),
        page(&["i5"], None),
        page(&["poison"], None),
    ];
    let source = ScriptedSource::new(script);
    let mut stream = make_stream(source);
    let out = drain(&mut stream);
    assert_eq!(out.len(), 5);
    let items: Vec<Item> = out.into_iter().map(|r| r.unwrap()).collect();
    assert_eq!(items, vec!["i1", "i2", "i3", "i4", "i5"]);
    assert_eq!(stream.source.remaining(), 1);
}

#[test]
fn second_call_decode_error_records_two_calls() {
    let script: Script = vec![
        page(&["item1", "item2"], Some("cur1")),
        decode_error(),
        page(&["poison"], None),
    ];
    let source = ScriptedSource::new(script);
    let mut stream = make_stream(source);
    let out = drain(&mut stream);
    assert_eq!(out.len(), 3);
    assert_eq!(out[0], Ok("item1"));
    assert_eq!(out[1], Ok("item2"));
    assert!(matches!(out[2], Err(ClientRequestError::Decode(_))));
    assert_eq!(stream.source.remaining(), 1);
}

#[test]
fn single_item_page_with_cursor_still_terminates() {
    // a page with exactly one item ends the run even when a cursor is
    // present: the buffer is empty by the next pull, which is the
    // termination signal
    let script: Script = vec![page(&["only"], Some("cur1")), page(&["poison"], None)];
    let source = ScriptedSource::new(script);
    let mut stream = make_stream(source);
    let out = drain(&mut stream);
    let items: Vec<Item> = out.into_iter().map(|r| r.unwrap()).collect();
    assert_eq!(items, vec!["only"]);
    assert_eq!(stream.source.remaining(), 1);
}

#[test]
fn collect_up_to_stops_at_the_limit_or_the_end() {
    let script: Script = vec![
        page(&["a", "b"], Some("cur1")),
        page(&["c", "d"], None),
        page(&["poison"], None),
    ];
    let source = ScriptedSource::new(script);
    let mut stream = make_stream(source);
    let taken = stream.collect_up_to(3);
    assert_eq!(taken, vec![Ok("a"), Ok("b"), Ok("c")]);
    assert_eq!(stream.source.remaining(), 1);
    // the rest of the stream is still there, on demand
    let rest = stream.collect_up_to(10);
    assert_eq!(rest, vec![Ok("d")]);
    assert!(stream.is_done());
    assert_eq!(stream.source.remaining(), 1);
}

#[test]
fn pager_protocol_pull_and_provide() {
    // drive the bare state machine the way an external driver would
    let mut pager: Pager<Item, ClientRequestError> = Pager::new();
    match pager.pull() {
        Pull::Fetch(cursor) => assert_eq!(cursor, None),
        _ => panic!("a fresh pager must request the initial call"),
    }
    assert!(pager.wants_provide());
    let first = pager.provide(page(&["x", "y"], Some("k")));
    assert_eq!(first, Some(Ok("x")));
    match pager.pull() {
        Pull::Item(t) => assert_eq!(t, "y"),
        _ => panic!("the buffered item must come before any further call"),
    }
    match pager.pull() {
        Pull::Fetch(cursor) => assert_eq!(cursor.as_deref(), Some("k")),
        _ => panic!("after draining, the retained cursor must be used"),
    }
    let second = pager.provide(page(&[], None));
    assert_eq!(second, None);
    assert!(matches!(pager.pull(), Pull::End));
}
