use llm_gateway::llm_delegate::completion_stream::{
    normalize, CompletionStream, NativeEvent, StreamItem,
};
use llm_gateway::llm_delegate::ProviderError;

fn chunks(items: &[StreamItem<u32>]) -> Vec<Option<u32>> {
    items
        .iter()
        .map(|item| match item {
            StreamItem::Chunk(chunk) => Some(*chunk),
            StreamItem::Error(_) => None,
        })
        .collect()
}

#[test]
fn three_chunks_then_end_yield_three_chunks() {
    let items = normalize(vec![
        NativeEvent::Chunk(1),
        NativeEvent::Chunk(2),
        NativeEvent::Chunk(3),
        NativeEvent::End,
    ]);
    assert_eq!(chunks(&items), vec![Some(1), Some(2), Some(3)]);
}

#[test]
fn nothing_follows_the_end_marker() {
    let items = normalize(vec![
        NativeEvent::Chunk(1),
        NativeEvent::End,
        NativeEvent::Chunk(2),
        NativeEvent::Error("late".to_owned()),
    ]);
    assert_eq!(chunks(&items), vec![Some(1)]);
}

#[test]
fn stream_steps_one_event_at_a_time() {
    let mut stream = CompletionStream::new();
    assert!(!stream.is_finished());
    assert!(matches!(stream.next(NativeEvent::Chunk(7u32)), Some(StreamItem::Chunk(7))));
    assert!(!stream.is_finished());
    assert!(matches!(stream.next(NativeEvent::Chunk(8u32)), Some(StreamItem::Chunk(8))));
    assert!(matches!(stream.next(NativeEvent::Chunk(9u32)), Some(StreamItem::Chunk(9))));
    assert!(stream.next(NativeEvent::<u32>::End).is_none());
    assert!(stream.is_finished());
    assert!(stream.next(NativeEvent::Chunk(10u32)).is_none());
    assert!(stream.is_finished());
}

#[test]
fn error_is_the_terminal_item() {
    let items = normalize(vec![
        NativeEvent::Chunk(1),
        NativeEvent::Error("connection reset".to_owned()),
        NativeEvent::Chunk(2),
        NativeEvent::End,
    ]);
    assert_eq!(items.len(), 2);
    assert!(matches!(items[0], StreamItem::Chunk(1)));
    match &items[1] {
        StreamItem::Error(error) => {
            assert_eq!(*error, ProviderError::Upstream("connection reset".to_owned()))
        }
        StreamItem::Chunk(_) => panic!("a chunk in place of the error"),
    }
}

#[test]
fn error_ends_the_stream() {
    let mut stream = CompletionStream::new();
    assert!(matches!(
        stream.next(NativeEvent::<u32>::Error("boom".to_owned())),
        Some(StreamItem::Error(ProviderError::Upstream(_)))
    ));
    assert!(stream.is_finished());
    assert!(stream.next(NativeEvent::Chunk(1u32)).is_none());
    assert!(stream.next(NativeEvent::<u32>::Error("again".to_owned())).is_none());
}

#[test]
fn empty_and_unterminated_sequences() {
    assert_eq!(normalize(Vec::<NativeEvent<u32>>::new()).len(), 0);
    assert_eq!(normalize(vec![NativeEvent::<u32>::End]).len(), 0);
    let open = normalize(vec![NativeEvent::Chunk(1), NativeEvent::Chunk(2)]);
    assert_eq!(chunks(&open), vec![Some(1), Some(2)]);
}

#[test]
fn chunks_are_not_merged() {
    let items = normalize(vec![
        NativeEvent::Chunk("a".to_owned()),
        NativeEvent::Chunk("".to_owned()),
        NativeEvent::Chunk("a".to_owned()),
        NativeEvent::End,
    ]);
    let texts: Vec<String> = items
        .into_iter()
        .map(|item| match item {
            StreamItem::Chunk(chunk) => chunk,
            StreamItem::Error(_) => panic!("an error in place of a chunk"),
        })
        .collect();
    assert_eq!(texts, vec!["a".to_owned(), "".to_owned(), "a".to_owned()]);
}
