use ssh_pool::error::Error;
use ssh_pool::stream::{stream_step, ReadEvent, StreamItem, StreamState};

fn run_stream(events: Vec<ReadEvent>) -> Vec<StreamItem> {
    let mut state = StreamState::Open;
    let mut items = Vec::new();
    for event in events {
        let (next, item) = stream_step(state, event);
        state = next;
        if let Some(it) = item {
            items.push(it);
        }
    }
    items
}

#[test]
fn chunks_end_with_explicit_end_marker() {
    let items = run_stream(vec![
        ReadEvent::Data("first ".to_string()),
        ReadEvent::Data("second ".to_string()),
        ReadEvent::Data("third".to_string()),
        ReadEvent::Eof,
    ]);
    assert_eq!(
        items,
        vec![
            StreamItem::Chunk("first ".to_string()),
            StreamItem::Chunk("second ".to_string()),
            StreamItem::Chunk("third".to_string()),
            StreamItem::End,
        ]
    );
}

#[test]
fn nothing_is_emitted_after_end_of_file() {
    let items = run_stream(vec![
        ReadEvent::Data("only".to_string()),
        ReadEvent::Eof,
        ReadEvent::Data("late".to_string()),
        ReadEvent::Eof,
    ]);
    assert_eq!(items.len(), 2);
    assert_eq!(items[1], StreamItem::End);
}

#[test]
fn read_failure_is_the_terminal_outcome() {
    let items = run_stream(vec![
        ReadEvent::Data("partial".to_string()),
        ReadEvent::Failed(Error::IO("broken pipe".to_string())),
        ReadEvent::Data("late".to_string()),
    ]);
    assert_eq!(
        items,
        vec![
            StreamItem::Chunk("partial".to_string()),
            StreamItem::Failure(Error::IO("broken pipe".to_string())),
        ]
    );
}

#[test]
fn immediate_end_of_file_yields_only_the_marker() {
    let items = run_stream(vec![ReadEvent::Eof]);
    assert_eq!(items, vec![StreamItem::End]);
}
